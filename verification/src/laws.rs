//! Laws tying the payload texts to a JSON document model: each serialized
//! payload is the rendering of a well-formed JSON document with the documented
//! keys, omitted optional fields are absent members (never `null`), and a
//! message report's body never holds a trace.

use crate::frame::{colno_text, frame_payload, lineno_text, method_text, FrameView};
use crate::json::{
    is_plain_char, lemma_escape_plain, member_keys, quote, render, render_items, render_members,
    Json,
};
use crate::level::{level_text, Level};
use crate::report::{
    error_data_text, error_payload, exception_text, frames_payload, message_data_text,
    message_payload, title_text, trace_payload, ExceptionView, TraceView,
};
use vstd::prelude::*;

verus! {

/// The JSON document of one frame: the `filename` member, then one member per
/// optional field that is set; an unset field has no member at all.
pub open spec fn frame_ast(f: FrameView) -> Json {
    Json::Obj(
        seq![("filename"@, Json::Str(f.file_name))] + (match f.line_number {
            Some(n) => seq![("lineno"@, Json::Num(n as nat))],
            None => Seq::empty(),
        }) + (match f.column_number {
            Some(n) => seq![("colno"@, Json::Num(n as nat))],
            None => Seq::empty(),
        }) + (match f.function_name {
            Some(m) => seq![("method"@, Json::Str(m))],
            None => Seq::empty(),
        }),
    )
}

/// The member list of a frame's JSON document.
pub open spec fn frame_members(f: FrameView) -> Seq<(Seq<char>, Json)> {
    frame_ast(f)->Obj_0
}

proof fn lemma_member_literals()
    ensures
        "{\"filename\":"@ == seq!['{'] + (seq!['"'] + "filename"@ + seq!['"', ':']),
        ",\"lineno\":"@ == seq![','] + (seq!['"'] + "lineno"@ + seq!['"', ':']),
        ",\"colno\":"@ == seq![','] + (seq!['"'] + "colno"@ + seq!['"', ':']),
        ",\"method\":"@ == seq![','] + (seq!['"'] + "method"@ + seq!['"', ':']),
{
    reveal_strlit("{\"filename\":");
    reveal_strlit(",\"lineno\":");
    reveal_strlit(",\"colno\":");
    reveal_strlit(",\"method\":");
    reveal_strlit("filename");
    reveal_strlit("lineno");
    reveal_strlit("colno");
    reveal_strlit("method");
    assert("{\"filename\":"@ =~= seq!['{'] + (seq!['"'] + "filename"@ + seq!['"', ':']));
    assert(",\"lineno\":"@ =~= seq![','] + (seq!['"'] + "lineno"@ + seq!['"', ':']));
    assert(",\"colno\":"@ =~= seq![','] + (seq!['"'] + "colno"@ + seq!['"', ':']));
    assert(",\"method\":"@ =~= seq![','] + (seq!['"'] + "method"@ + seq!['"', ':']));
}

#[verifier::rlimit(100)]
proof fn lemma_frame_case_all(f: FrameView)
    requires
        f.line_number is Some,
        f.column_number is Some,
        f.function_name is Some,
    ensures
        frame_payload(f) == render(frame_ast(f)),
{
    broadcast use crate::json::lemma_concat_assoc;

    lemma_member_literals();
    reveal(frame_payload);
    reveal_strlit("}");
    assert("}"@ =~= seq!['}']);
    let ms = frame_members(f);
    reveal_with_fuel(render, 3);
    reveal_with_fuel(render_members, 6);
    assert(ms[0] == ("filename"@, Json::Str(f.file_name)));
    assert(ms[1] == ("lineno"@, Json::Num(f.line_number->0 as nat)));
    assert(ms[2] == ("colno"@, Json::Num(f.column_number->0 as nat)));
    assert(ms[3] == ("method"@, Json::Str(f.function_name->0)));
    assert(ms.len() == 4);
    let q = "{\"filename\":"@ + quote(f.file_name);
    assert(seq!['{'] + render_members(ms, 1) =~= q);
    assert(seq!['{'] + render_members(ms, 2) =~= q + lineno_text(f));
    assert(seq!['{'] + render_members(ms, 3) =~= q + lineno_text(f) + colno_text(f));
    assert(seq!['{'] + render_members(ms, 4) =~= q + lineno_text(f) + colno_text(f)
        + method_text(f));
    assert(frame_payload(f) =~= render(frame_ast(f)));
}

proof fn lemma_frame_case_line(f: FrameView)
    requires
        f.line_number is Some,
    ensures
        frame_payload(f) == render(frame_ast(f)),
{
    broadcast use crate::json::lemma_concat_assoc;

    lemma_member_literals();
    reveal(frame_payload);
    reveal_strlit("}");
    assert("}"@ =~= seq!['}']);
    let ms = frame_members(f);
    reveal_with_fuel(render, 3);
    reveal_with_fuel(render_members, 6);
    assert(ms[0] == ("filename"@, Json::Str(f.file_name)));
    assert(ms[1] == ("lineno"@, Json::Num(f.line_number->0 as nat)));
    let q = "{\"filename\":"@ + quote(f.file_name);
    assert(seq!['{'] + render_members(ms, 1) =~= q);
    assert(seq!['{'] + render_members(ms, 2) =~= q + lineno_text(f));
    if f.column_number is Some {
        if f.function_name is Some {
            lemma_frame_case_all(f);
        } else {
            assert(ms[2] == ("colno"@, Json::Num(f.column_number->0 as nat)));
            assert(ms.len() == 3);
            assert(seq!['{'] + render_members(ms, 3) =~= q + lineno_text(f) + colno_text(f));
            assert(frame_payload(f) =~= render(frame_ast(f)));
        }
    } else {
        if f.function_name is Some {
            assert(ms[2] == ("method"@, Json::Str(f.function_name->0)));
            assert(ms.len() == 3);
            assert(seq!['{'] + render_members(ms, 3) =~= q + lineno_text(f) + method_text(f));
            assert(frame_payload(f) =~= render(frame_ast(f)));
        } else {
            assert(ms.len() == 2);
            assert(frame_payload(f) =~= render(frame_ast(f)));
        }
    }
}

proof fn lemma_frame_case_no_line(f: FrameView)
    requires
        f.line_number is None,
    ensures
        frame_payload(f) == render(frame_ast(f)),
{
    broadcast use crate::json::lemma_concat_assoc;

    lemma_member_literals();
    reveal(frame_payload);
    reveal_strlit("}");
    assert("}"@ =~= seq!['}']);
    let ms = frame_members(f);
    reveal_with_fuel(render, 3);
    reveal_with_fuel(render_members, 6);
    assert(ms[0] == ("filename"@, Json::Str(f.file_name)));
    if f.column_number is Some {
        assert(ms[1] == ("colno"@, Json::Num(f.column_number->0 as nat)));
        if f.function_name is Some {
            assert(ms[2] == ("method"@, Json::Str(f.function_name->0)));
            assert(ms.len() == 3);
            let q = "{\"filename\":"@ + quote(f.file_name);
            assert(seq!['{'] + render_members(ms, 1) =~= q);
            assert(seq!['{'] + render_members(ms, 2) =~= q + colno_text(f));
            assert(seq!['{'] + render_members(ms, 3) =~= q + colno_text(f) + method_text(f));
            assert(frame_payload(f) =~= render(frame_ast(f)));
        } else {
            assert(ms.len() == 2);
            assert(frame_payload(f) =~= render(frame_ast(f)));
        }
    } else {
        if f.function_name is Some {
            assert(ms[1] == ("method"@, Json::Str(f.function_name->0)));
            assert(ms.len() == 2);
            assert(frame_payload(f) =~= render(frame_ast(f)));
        } else {
            assert(ms.len() == 1);
            assert(frame_payload(f) =~= render(frame_ast(f)));
        }
    }
}

/// A frame's payload text is the rendering of its JSON document.
pub proof fn lemma_frame_payload_renders(f: FrameView)
    ensures
        frame_payload(f) == render(frame_ast(f)),
{
    if f.line_number is Some {
        lemma_frame_case_line(f);
    } else {
        lemma_frame_case_no_line(f);
    }
}

/// The JSON documents of a frame sequence, in order.
pub open spec fn frames_ast(fs: Seq<FrameView>) -> Seq<Json> {
    fs.map_values(|f: FrameView| frame_ast(f))
}

/// The comma-separated frame texts are the rendering of the frame documents.
pub proof fn lemma_frames_payload_renders(fs: Seq<FrameView>, i: int)
    requires
        0 <= i <= fs.len(),
    ensures
        frames_payload(fs, i) == render_items(frames_ast(fs), i),
    decreases i,
{
    reveal_strlit(",");
    assert(","@ =~= seq![',']);
    let es = frames_ast(fs);
    assert(es.len() == fs.len());
    if i <= 0 {
    } else if i == 1 {
        assert(es[0] == frame_ast(fs[0]));
        lemma_frame_payload_renders(fs[0]);
    } else {
        lemma_frames_payload_renders(fs, i - 1);
        lemma_frame_payload_renders(fs[i - 1]);
        assert(es[i - 1] == frame_ast(fs[i - 1]));
    }
}

/// The JSON document of an exception: always the three members `class`,
/// `message` and `description`.
pub open spec fn exception_ast(e: ExceptionView) -> Json {
    Json::Obj(
        seq![
            ("class"@, Json::Str(e.class)),
            ("message"@, Json::Str(e.message)),
            ("description"@, Json::Str(e.description)),
        ],
    )
}

/// An exception's payload text is the rendering of its JSON document.
#[verifier::rlimit(60)]
pub proof fn lemma_exception_renders(e: ExceptionView)
    ensures
        render(exception_ast(e)) == exception_text(e),
{
    broadcast use crate::json::lemma_concat_assoc;

    reveal(exception_text);
    reveal_strlit("{\"class\":");
    reveal_strlit(",\"message\":");
    reveal_strlit(",\"description\":");
    reveal_strlit("class");
    reveal_strlit("message");
    reveal_strlit("description");
    reveal_strlit("}");
    assert("{\"class\":"@ =~= seq!['{'] + (seq!['"'] + "class"@ + seq!['"', ':']));
    assert(",\"message\":"@ =~= seq![','] + (seq!['"'] + "message"@ + seq!['"', ':']));
    assert(",\"description\":"@ =~= seq![','] + (seq!['"'] + "description"@ + seq!['"', ':']));
    assert("}"@ =~= seq!['}']);
    reveal_with_fuel(render, 3);
    reveal_with_fuel(render_members, 5);
    let ms = exception_ast(e)->Obj_0;
    assert(ms.len() == 3);
    let q = "{\"class\":"@ + quote(e.class);
    assert(seq!['{'] + render_members(ms, 1) =~= q);
    assert(seq!['{'] + render_members(ms, 2) =~= q + (",\"message\":"@ + quote(e.message)));
    assert(seq!['{'] + render_members(ms, 3) =~= q + (",\"message\":"@ + quote(e.message)) + (
    ",\"description\":"@ + quote(e.description)));
    assert(render(exception_ast(e)) =~= exception_text(e));
}

/// The JSON document of a trace: the `frames` array and the `exception`
/// object.
pub open spec fn trace_ast(t: TraceView) -> Json {
    Json::Obj(
        seq![
            ("frames"@, Json::Arr(frames_ast(t.frames))),
            ("exception"@, exception_ast(t.exception)),
        ],
    )
}

/// A trace's payload text is the rendering of its JSON document.
#[verifier::rlimit(100)]
pub proof fn lemma_trace_payload_renders(t: TraceView)
    ensures
        trace_payload(t) == render(trace_ast(t)),
{
    broadcast use crate::json::lemma_concat_assoc;

    reveal(trace_payload);
    reveal_strlit("{\"frames\":[");
    reveal_strlit("],\"exception\":");
    reveal_strlit("frames");
    reveal_strlit("exception");
    reveal_strlit("}");
    assert("{\"frames\":["@ =~= seq!['{'] + (seq!['"'] + "frames"@ + seq!['"', ':']) + seq!['[']);
    assert("],\"exception\":"@ =~= seq![']'] + seq![','] + (seq!['"'] + "exception"@ + seq!['"',
        ':',
    ]));
    assert("}"@ =~= seq!['}']);
    let n = t.frames.len() as int;
    lemma_frames_payload_renders(t.frames, n);
    lemma_exception_renders(t.exception);
    let ms = trace_ast(t)->Obj_0;
    assert(ms.len() == 2);
    reveal_with_fuel(render, 3);
    reveal_with_fuel(render_members, 4);
    assert(frames_ast(t.frames).len() == t.frames.len());
    assert(render(Json::Arr(frames_ast(t.frames))) == seq!['['] + render_items(
        frames_ast(t.frames),
        n,
    ) + seq![']']);
    let a = seq!['{'] + (seq!['"'] + "frames"@ + seq!['"', ':']) + (seq!['['] + frames_payload(
        t.frames,
        n,
    ) + seq![']']);
    assert(seq!['{'] + render_members(ms, 1) =~= a);
    assert(seq!['{'] + render_members(ms, 2) =~= a + seq![','] + (seq!['"'] + "exception"@
        + seq!['"', ':']) + exception_text(t.exception));
    assert(trace_payload(t) =~= render(trace_ast(t)));
}

/// The JSON value of a report's `title` member: its text, or `null`.
pub open spec fn title_ast(title: Option<Seq<char>>) -> Json {
    match title {
        Some(t) => Json::Str(t),
        None => Json::Null,
    }
}

/// The JSON document of an error report's `data` object: exactly the members
/// `environment`, `body` (holding the single `trace` member), `level`,
/// `language` and `title`.
pub open spec fn error_data_ast(
    env: Seq<char>,
    t: TraceView,
    level: Level,
    title: Option<Seq<char>>,
) -> Json {
    Json::Obj(
        seq![
            ("environment"@, Json::Str(env)),
            ("body"@, Json::Obj(seq![("trace"@, trace_ast(t))])),
            ("level"@, Json::Str(level_text(level))),
            ("language"@, Json::Str("rust"@)),
            ("title"@, title_ast(title)),
        ],
    )
}

/// The JSON document of an error report: the `access_token` member and the
/// `data` object.
pub open spec fn error_payload_ast(
    token: Seq<char>,
    env: Seq<char>,
    t: TraceView,
    level: Level,
    title: Option<Seq<char>>,
) -> Json {
    Json::Obj(
        seq![("access_token"@, Json::Str(token)), ("data"@, error_data_ast(env, t, level, title))],
    )
}

/// The JSON document of a message report's `data` object: exactly the members
/// `environment`, `body` (holding the single `message` member) and `level`;
/// no `trace` anywhere.
pub open spec fn message_data_ast(env: Seq<char>, body: Seq<char>, level: Level) -> Json {
    Json::Obj(
        seq![
            ("environment"@, Json::Str(env)),
            ("body"@, Json::Obj(seq![("message"@, Json::Obj(seq![("body"@, Json::Str(body))]))])),
            ("level"@, Json::Str(level_text(level))),
        ],
    )
}

/// The JSON document of a message report: the `access_token` member and the
/// `data` object.
pub open spec fn message_payload_ast(
    token: Seq<char>,
    env: Seq<char>,
    body: Seq<char>,
    level: Level,
) -> Json {
    Json::Obj(
        seq![("access_token"@, Json::Str(token)), ("data"@, message_data_ast(env, body, level))],
    )
}

proof fn lemma_rust_plain()
    ensures
        quote("rust"@) == seq!['"'] + "rust"@ + seq!['"'],
{
    reveal(quote);
    reveal_strlit("rust");
    assert("rust"@[0] == 'r');
    assert("rust"@[1] == 'u');
    assert("rust"@[2] == 's');
    assert("rust"@[3] == 't');
    assert(forall|j: int| 0 <= j < "rust"@.len() ==> is_plain_char(#[trigger] "rust"@[j]));
    lemma_escape_plain("rust"@);
    assert(quote("rust"@) =~= seq!['"'] + "rust"@ + seq!['"']);
}

#[verifier::rlimit(100)]
proof fn lemma_error_data_renders(
    env: Seq<char>,
    t: TraceView,
    level: Level,
    title: Option<Seq<char>>,
)
    ensures
        error_data_text(env, t, level, title) == render(error_data_ast(env, t, level, title)),
{
    broadcast use crate::json::lemma_concat_assoc;

    reveal(error_data_text);
    reveal_strlit("{\"environment\":");
    reveal_strlit(",\"body\":{\"trace\":");
    reveal_strlit("},\"level\":");
    reveal_strlit(",\"language\":\"rust\",\"title\":");
    reveal_strlit("}");
    reveal_strlit("environment");
    reveal_strlit("body");
    reveal_strlit("trace");
    reveal_strlit("level");
    reveal_strlit("language");
    reveal_strlit("rust");
    reveal_strlit("title");
    assert("{\"environment\":"@ =~= seq!['{'] + (seq!['"'] + "environment"@ + seq!['"', ':']));
    assert(",\"body\":{\"trace\":"@ =~= seq![','] + (seq!['"'] + "body"@ + seq!['"', ':'])
        + seq!['{'] + (seq!['"'] + "trace"@ + seq!['"', ':']));
    assert("},\"level\":"@ =~= seq!['}'] + seq![','] + (seq!['"'] + "level"@ + seq!['"', ':']));
    assert(",\"language\":\"rust\",\"title\":"@ =~= seq![','] + (seq!['"'] + "language"@
        + seq!['"', ':']) + (seq!['"'] + "rust"@ + seq!['"']) + seq![','] + (seq!['"'] + "title"@
        + seq!['"', ':']));
    assert("}"@ =~= seq!['}']);
    lemma_trace_payload_renders(t);
    lemma_rust_plain();
    reveal_with_fuel(render, 4);
    reveal_with_fuel(render_members, 7);
    let dm = error_data_ast(env, t, level, title)->Obj_0;
    assert(dm.len() == 5);
    assert(render(Json::Obj(seq![("trace"@, trace_ast(t))])) =~= seq!['{'] + (seq!['"'] + "trace"@
        + seq!['"', ':'] + trace_payload(t)) + seq!['}']);
    assert(render(title_ast(title)) == title_text(title));
    assert(render(Json::Str("rust"@)) == quote("rust"@));
    let d1 = "{\"environment\":"@ + quote(env);
    assert(seq!['{'] + render_members(dm, 1) =~= d1);
    let d2 = d1 + (",\"body\":{\"trace\":"@ + trace_payload(t) + "}"@);
    assert(seq!['{'] + render_members(dm, 2) =~= d2);
    let d3 = d2 + (seq![','] + (seq!['"'] + "level"@ + seq!['"', ':']) + quote(level_text(level)));
    assert(seq!['{'] + render_members(dm, 3) =~= d3);
    let d4 = d3 + (seq![','] + (seq!['"'] + "language"@ + seq!['"', ':']) + (seq!['"'] + "rust"@
        + seq!['"']));
    assert(seq!['{'] + render_members(dm, 4) =~= d4);
    let d5 = d4 + (seq![','] + (seq!['"'] + "title"@ + seq!['"', ':']) + title_text(title));
    assert(seq!['{'] + render_members(dm, 5) =~= d5);
    assert(error_data_text(env, t, level, title) =~= render(error_data_ast(env, t, level, title)));
}

#[verifier::rlimit(100)]
proof fn lemma_message_data_renders(env: Seq<char>, body: Seq<char>, level: Level)
    ensures
        message_data_text(env, body, level) == render(message_data_ast(env, body, level)),
{
    broadcast use crate::json::lemma_concat_assoc;

    reveal(message_data_text);
    reveal_strlit("{\"environment\":");
    reveal_strlit(",\"body\":{\"message\":{\"body\":");
    reveal_strlit("}},\"level\":");
    reveal_strlit("}");
    reveal_strlit("environment");
    reveal_strlit("body");
    reveal_strlit("message");
    reveal_strlit("level");
    assert("{\"environment\":"@ =~= seq!['{'] + (seq!['"'] + "environment"@ + seq!['"', ':']));
    assert(",\"body\":{\"message\":{\"body\":"@ =~= seq![','] + (seq!['"'] + "body"@ + seq!['"',
        ':',
    ]) + seq!['{'] + (seq!['"'] + "message"@ + seq!['"', ':']) + seq!['{'] + (seq!['"'] + "body"@
        + seq!['"', ':']));
    assert("}},\"level\":"@ =~= seq!['}'] + seq!['}'] + seq![','] + (seq!['"'] + "level"@
        + seq!['"', ':']));
    assert("}"@ =~= seq!['}']);
    reveal_with_fuel(render, 5);
    reveal_with_fuel(render_members, 7);
    let dm = message_data_ast(env, body, level)->Obj_0;
    assert(dm.len() == 3);
    assert(render(Json::Obj(seq![("body"@, Json::Str(body))])) =~= seq!['{'] + (seq!['"'] + "body"@
        + seq!['"', ':'] + quote(body)) + seq!['}']);
    assert(render(Json::Obj(seq![("message"@, Json::Obj(seq![("body"@, Json::Str(body))]))]))
        =~= seq!['{'] + (seq!['"'] + "message"@ + seq!['"', ':'] + (seq!['{'] + (seq!['"'] + "body"@
        + seq!['"', ':'] + quote(body)) + seq!['}'])) + seq!['}']);
    let d1 = "{\"environment\":"@ + quote(env);
    assert(seq!['{'] + render_members(dm, 1) =~= d1);
    let d2 = d1 + (",\"body\":{\"message\":{\"body\":"@ + quote(body) + "}"@ + "}"@);
    assert(seq!['{'] + render_members(dm, 2) =~= d2);
    let d3 = d2 + (seq![','] + (seq!['"'] + "level"@ + seq!['"', ':']) + quote(level_text(level)));
    assert(seq!['{'] + render_members(dm, 3) =~= d3);
    assert(message_data_text(env, body, level) =~= render(message_data_ast(env, body, level)));
}

proof fn lemma_payload_literals()
    ensures
        "{\"access_token\":"@ == seq!['{'] + (seq!['"'] + "access_token"@ + seq!['"', ':']),
        ",\"data\":"@ == seq![','] + (seq!['"'] + "data"@ + seq!['"', ':']),
        "}"@ == seq!['}'],
{
    reveal_strlit("{\"access_token\":");
    reveal_strlit(",\"data\":");
    reveal_strlit("access_token");
    reveal_strlit("data");
    reveal_strlit("}");
    assert("{\"access_token\":"@ =~= seq!['{'] + (seq!['"'] + "access_token"@ + seq!['"', ':']));
    assert(",\"data\":"@ =~= seq![','] + (seq!['"'] + "data"@ + seq!['"', ':']));
    assert("}"@ =~= seq!['}']);
}

/// Law: an error report's payload is the rendering of a JSON document whose
/// keys are exactly the documented ones, and whose `data.body` object holds
/// exactly the one member `trace`.
#[verifier::rlimit(60)]
pub proof fn lemma_error_payload_renders(
    token: Seq<char>,
    env: Seq<char>,
    t: TraceView,
    level: Level,
    title: Option<Seq<char>>,
)
    ensures
        error_payload(token, env, t, level, title) == render(
            error_payload_ast(token, env, t, level, title),
        ),
        member_keys(error_payload_ast(token, env, t, level, title)->Obj_0) == seq![
            "access_token"@,
            "data"@,
        ],
        member_keys(error_data_ast(env, t, level, title)->Obj_0) == seq![
            "environment"@,
            "body"@,
            "level"@,
            "language"@,
            "title"@,
        ],
        member_keys(error_data_ast(env, t, level, title)->Obj_0[1].1->Obj_0) == seq!["trace"@],
{
    broadcast use crate::json::lemma_concat_assoc;

    lemma_payload_literals();
    lemma_error_data_renders(env, t, level, title);
    reveal_with_fuel(render, 3);
    reveal_with_fuel(render_members, 4);
    let ms = error_payload_ast(token, env, t, level, title)->Obj_0;
    assert(ms.len() == 2);
    let p1 = "{\"access_token\":"@ + quote(token);
    assert(seq!['{'] + render_members(ms, 1) =~= p1);
    assert(seq!['{'] + render_members(ms, 2) =~= p1 + (",\"data\":"@ + error_data_text(
        env,
        t,
        level,
        title,
    )));
    assert(error_payload(token, env, t, level, title) =~= render(
        error_payload_ast(token, env, t, level, title),
    ));
    assert(member_keys(ms) =~= seq!["access_token"@, "data"@]);
    assert(member_keys(error_data_ast(env, t, level, title)->Obj_0) =~= seq![
        "environment"@,
        "body"@,
        "level"@,
        "language"@,
        "title"@,
    ]);
    assert(member_keys(error_data_ast(env, t, level, title)->Obj_0[1].1->Obj_0)
        =~= seq!["trace"@]);
}

/// Law: a message report's payload is the rendering of a JSON document whose
/// keys are exactly the documented ones; its `data.body` object holds exactly
/// the one member `message` and never a `trace` key.
#[verifier::rlimit(60)]
pub proof fn lemma_message_payload_renders(
    token: Seq<char>,
    env: Seq<char>,
    body: Seq<char>,
    level: Level,
)
    ensures
        message_payload(token, env, body, level) == render(
            message_payload_ast(token, env, body, level),
        ),
        member_keys(message_payload_ast(token, env, body, level)->Obj_0) == seq![
            "access_token"@,
            "data"@,
        ],
        member_keys(message_data_ast(env, body, level)->Obj_0) == seq![
            "environment"@,
            "body"@,
            "level"@,
        ],
        member_keys(message_data_ast(env, body, level)->Obj_0[1].1->Obj_0) == seq!["message"@],
        !member_keys(message_data_ast(env, body, level)->Obj_0[1].1->Obj_0).contains("trace"@),
{
    broadcast use crate::json::lemma_concat_assoc;

    lemma_payload_literals();
    lemma_message_data_renders(env, body, level);
    reveal_with_fuel(render, 3);
    reveal_with_fuel(render_members, 4);
    let ms = message_payload_ast(token, env, body, level)->Obj_0;
    assert(ms.len() == 2);
    let p1 = "{\"access_token\":"@ + quote(token);
    assert(seq!['{'] + render_members(ms, 1) =~= p1);
    assert(seq!['{'] + render_members(ms, 2) =~= p1 + (",\"data\":"@ + message_data_text(
        env,
        body,
        level,
    )));
    assert(message_payload(token, env, body, level) =~= render(
        message_payload_ast(token, env, body, level),
    ));
    assert(member_keys(ms) =~= seq!["access_token"@, "data"@]);
    assert(member_keys(message_data_ast(env, body, level)->Obj_0) =~= seq![
        "environment"@,
        "body"@,
        "level"@,
    ]);
    let bm = message_data_ast(env, body, level)->Obj_0[1].1->Obj_0;
    assert(member_keys(bm) =~= seq!["message"@]);
    reveal_strlit("message");
    reveal_strlit("trace");
    assert("message"@.len() == 7);
    assert("trace"@.len() == 5);
    assert(member_keys(bm)[0] == "message"@);
    assert(forall|j: int| 0 <= j < member_keys(bm).len() ==> #[trigger] member_keys(bm)[j]
        != "trace"@);
}

/// Law: a frame's omitted optional fields are absent keys in its JSON
/// document (never members at all, so never `null`): the document always has
/// the `filename` member, has a `lineno`, `colno` or `method` member exactly
/// when the field is set, and none of its member values is `null`.
#[verifier::rlimit(60)]
pub proof fn lemma_frame_fields_absent_not_null(f: FrameView)
    ensures
        frame_payload(f) == render(frame_ast(f)),
        member_keys(frame_members(f))[0] == "filename"@,
        member_keys(frame_members(f)).contains("lineno"@) <==> f.line_number is Some,
        member_keys(frame_members(f)).contains("colno"@) <==> f.column_number is Some,
        member_keys(frame_members(f)).contains("method"@) <==> f.function_name is Some,
        forall|j: int|
            0 <= j < frame_members(f).len() ==> !((#[trigger] frame_members(f)[j]).1 is Null),
{
    lemma_frame_payload_renders(f);
    reveal_strlit("filename");
    reveal_strlit("lineno");
    reveal_strlit("colno");
    reveal_strlit("method");
    assert("filename"@.len() == 8);
    assert("lineno"@.len() == 6);
    assert("colno"@.len() == 5);
    assert("method"@.len() == 6);
    assert("lineno"@[0] == 'l');
    assert("method"@[0] == 'm');
    let ms = frame_members(f);
    let ks = member_keys(ms);
    assert(ks.len() == ms.len());
    assert(ks[0] == "filename"@);
    if f.line_number is Some {
        assert(ks[1] == "lineno"@);
        assert(ks.contains("lineno"@));
    }
    if f.column_number is Some {
        let i: int = if f.line_number is Some {
            2
        } else {
            1
        };
        assert(ks[i] == "colno"@);
        assert(ks.contains("colno"@));
    }
    if f.function_name is Some {
        assert(ks[ks.len() - 1] == "method"@);
        assert(ks.contains("method"@));
    }
    assert(forall|j: int| 0 <= j < ks.len() ==> #[trigger] ks[j] == ms[j].0);
    if f.line_number is None {
        assert(forall|j: int| 0 <= j < ks.len() ==> #[trigger] ks[j] != "lineno"@);
    }
    if f.column_number is None {
        assert(forall|j: int| 0 <= j < ks.len() ==> #[trigger] ks[j] != "colno"@);
    }
    if f.function_name is None {
        assert(forall|j: int| 0 <= j < ks.len() ==> #[trigger] ks[j] != "method"@);
    }
}

} // verus!
