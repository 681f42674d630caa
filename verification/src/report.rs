//! Report construction: traces and exceptions, the report factory, the
//! specialized builders, and their verified serialization to the canonical
//! JSON payload.

use crate::client::{Client, DefaultDispatch, DeliveryHandle, SendStrategy};
use crate::frame::{append_frame, frame_payload, FrameBuilder, FrameView};
use crate::json::{append_quoted, quote};
use crate::level::{level_text, parse_level, Level};
use vstd::prelude::*;
use vstd::string::StringExecFns;

verus! {

/// Declares `backtrace`'s captured call stack, which `with_backtrace` reads.
#[verifier::external_type_specification]
#[verifier::external_body]
pub struct ExBacktrace(backtrace::Backtrace);

/// Exception metadata: what occurred, as class, message and description.
pub struct Exception {
    pub class: String,
    pub message: String,
    pub description: String,
}

/// The mathematical contents of an exception.
#[verifier::ext_equal]
pub struct ExceptionView {
    pub class: Seq<char>,
    pub message: Seq<char>,
    pub description: Seq<char>,
}

impl View for Exception {
    type V = ExceptionView;

    open spec fn view(&self) -> ExceptionView {
        ExceptionView {
            class: self.class@,
            message: self.message@,
            description: self.description@,
        }
    }
}

impl Default for Exception {
    /// An exception of the generic class with empty message and description.
    fn default() -> (r: Exception)
        ensures
            r@ == (ExceptionView {
                class: "Generic"@,
                message: Seq::<char>::empty(),
                description: Seq::<char>::empty(),
            }),
    {
        Exception {
            class: String::from_str("Generic"),
            message: String::new(),
            description: String::new(),
        }
    }
}

/// An ordered sequence of frames plus the exception metadata: the structural
/// payload body of an error-like report.
pub struct Trace {
    pub frames: Vec<FrameBuilder>,
    pub exception: Exception,
}

/// The mathematical contents of a trace.
#[verifier::ext_equal]
pub struct TraceView {
    pub frames: Seq<FrameView>,
    pub exception: ExceptionView,
}

impl View for Trace {
    type V = TraceView;

    open spec fn view(&self) -> TraceView {
        TraceView {
            frames: self.frames@.map_values(|f: FrameBuilder| f@),
            exception: self.exception@,
        }
    }
}

impl Default for Trace {
    /// A trace with no frames and the default exception.
    fn default() -> (r: Trace)
        ensures
            r@ == (TraceView {
                frames: Seq::<FrameView>::empty(),
                exception: ExceptionView {
                    class: "Generic"@,
                    message: Seq::<char>::empty(),
                    description: Seq::<char>::empty(),
                },
            }),
    {
        let r = Trace { frames: Vec::new(), exception: Exception::default() };
        proof {
            assert(r@.frames =~= Seq::<FrameView>::empty());
            assert(r@ =~= (TraceView {
                frames: Seq::<FrameView>::empty(),
                exception: ExceptionView {
                    class: "Generic"@,
                    message: Seq::<char>::empty(),
                    description: Seq::<char>::empty(),
                },
            }));
        }
        r
    }
}

/// Comma-separated canonical JSON texts of the first `i` frames.
pub open spec fn frames_payload(fs: Seq<FrameView>, i: int) -> Seq<char>
    decreases i,
{
    if i <= 0 {
        Seq::empty()
    } else if i == 1 {
        frame_payload(fs[0])
    } else {
        frames_payload(fs, i - 1) + ","@ + frame_payload(fs[i - 1])
    }
}

/// The canonical JSON text of an exception object.
#[verifier::opaque]
pub open spec fn exception_text(e: ExceptionView) -> Seq<char> {
    "{\"class\":"@ + quote(e.class) + ",\"message\":"@ + quote(e.message) + ",\"description\":"@
        + quote(e.description) + "}"@
}

/// The canonical JSON text of a trace.
#[verifier::opaque]
pub open spec fn trace_payload(t: TraceView) -> Seq<char> {
    "{\"frames\":["@ + frames_payload(t.frames, t.frames.len() as int) + "],\"exception\":"@
        + exception_text(t.exception) + "}"@
}

/// The serialized `title` member value: the title's string token, or `null`.
pub open spec fn title_text(title: Option<Seq<char>>) -> Seq<char> {
    match title {
        Some(t) => quote(t),
        None => "null"@,
    }
}

/// The level an error-like report is sent with: `ERROR` unless one was set.
pub open spec fn effective_error_level(level: Option<Level>) -> Level {
    match level {
        Some(l) => l,
        None => Level::ERROR,
    }
}

/// The level a message report is sent with: `INFO` unless one was set.
pub open spec fn effective_message_level(level: Option<Level>) -> Level {
    match level {
        Some(l) => l,
        None => Level::INFO,
    }
}

/// The canonical JSON text of an error report's `data` object.
#[verifier::opaque]
pub open spec fn error_data_text(
    env: Seq<char>,
    t: TraceView,
    level: Level,
    title: Option<Seq<char>>,
) -> Seq<char> {
    "{\"environment\":"@ + quote(env) + ",\"body\":{\"trace\":"@ + trace_payload(t)
        + "},\"level\":"@ + quote(level_text(level)) + ",\"language\":\"rust\",\"title\":"@
        + title_text(title) + "}"@
}

/// The canonical JSON payload of an error or panic report.
pub open spec fn error_payload(
    token: Seq<char>,
    env: Seq<char>,
    t: TraceView,
    level: Level,
    title: Option<Seq<char>>,
) -> Seq<char> {
    "{\"access_token\":"@ + quote(token) + ",\"data\":"@ + error_data_text(env, t, level, title)
        + "}"@
}

/// The canonical JSON text of a message report's `data` object.
#[verifier::opaque]
pub open spec fn message_data_text(env: Seq<char>, body: Seq<char>, level: Level) -> Seq<char> {
    "{\"environment\":"@ + quote(env) + ",\"body\":{\"message\":{\"body\":"@ + quote(body)
        + "}},\"level\":"@ + quote(level_text(level)) + "}"@
}

/// The canonical JSON payload of a message report.
pub open spec fn message_payload(
    token: Seq<char>,
    env: Seq<char>,
    body: Seq<char>,
    level: Level,
) -> Seq<char> {
    "{\"access_token\":"@ + quote(token) + ",\"data\":"@ + message_data_text(env, body, level)
        + "}"@
}

/// Appends the canonical JSON text of `t` to `out`.
fn append_trace(out: &mut String, t: &Trace)
    ensures
        final(out)@ == old(out)@ + trace_payload(t@),
{
    let ghost orig: Seq<char> = out@;
    out.append("{\"frames\":[");
    let ghost base: Seq<char> = out@;
    let mut k: usize = 0;
    while k < t.frames.len()
        invariant
            k <= t.frames.len(),
            out@ == base + frames_payload(t@.frames, k as int),
            t@.frames.len() == t.frames@.len(),
        decreases t.frames.len() - k,
    {
        if k > 0 {
            out.append(",");
        }
        append_frame(out, &t.frames[k]);
        proof {
            assert(t@.frames[k as int] == t.frames@[k as int]@);
            assert(out@ =~= base + frames_payload(t@.frames, k as int + 1));
        }
        k = k + 1;
    }
    out.append("],\"exception\":");
    append_exception(out, &t.exception);
    out.append("}");
    proof {
        reveal(trace_payload);
        assert(out@ =~= orig + trace_payload(t@));
    }
}

/// Appends the canonical JSON text of `e` to `out`.
fn append_exception(out: &mut String, e: &Exception)
    ensures
        final(out)@ == old(out)@ + exception_text(e@),
{
    out.append("{\"class\":");
    append_quoted(out, e.class.as_str());
    out.append(",\"message\":");
    append_quoted(out, e.message.as_str());
    out.append(",\"description\":");
    append_quoted(out, e.description.as_str());
    out.append("}");
    proof {
        reveal(exception_text);
        assert(out@ =~= old(out)@ + exception_text(e@));
    }
}

/// Appends the canonical JSON text of an error report's `data` object.
fn append_error_data(out: &mut String, env: &str, t: &Trace, level: Level, title: &Option<String>)
    ensures
        final(out)@ == old(out)@ + error_data_text(
            env@,
            t@,
            level,
            match *title {
                Some(s) => Some(s@),
                None => None,
            },
        ),
{
    out.append("{\"environment\":");
    append_quoted(out, env);
    out.append(",\"body\":{\"trace\":");
    append_trace(out, t);
    out.append("},\"level\":");
    let level_string = level.to_text();
    append_quoted(out, level_string.as_str());
    out.append(",\"language\":\"rust\",\"title\":");
    match title {
        Some(s) => append_quoted(out, s.as_str()),
        None => out.append("null"),
    }
    out.append("}");
    proof {
        reveal(error_data_text);
        assert(out@ =~= old(out)@ + error_data_text(
            env@,
            t@,
            level,
            match *title {
                Some(s) => Some(s@),
                None => None,
            },
        ));
    }
}

/// Appends the canonical JSON text of a message report's `data` object.
fn append_message_data(out: &mut String, env: &str, body: &str, level: Level)
    ensures
        final(out)@ == old(out)@ + message_data_text(env@, body@, level),
{
    out.append("{\"environment\":");
    append_quoted(out, env);
    out.append(",\"body\":{\"message\":{\"body\":");
    append_quoted(out, body);
    out.append("}},\"level\":");
    let level_string = level.to_text();
    append_quoted(out, level_string.as_str());
    out.append("}");
    proof {
        reveal(message_data_text);
        assert(out@ =~= old(out)@ + message_data_text(env@, body@, level));
    }
}

/// Factory for reports: holds a reference to the client and an optional
/// delivery-strategy override, and selects the report's origin.
pub struct ReportBuilder<'a, S: SendStrategy> {
    pub client: &'a Client,
    pub send_strategy: Option<S>,
}

/// The mathematical contents of an error-like report under construction.
#[verifier::ext_equal]
pub struct ReportErrorView {
    pub access_token: Seq<char>,
    pub environment: Seq<char>,
    pub trace: TraceView,
    pub level: Option<Level>,
    pub title: Option<Seq<char>>,
}

/// Builder specialized for reporting errors and panics.
pub struct ReportErrorBuilder<'a, S: SendStrategy> {
    pub report_builder: ReportBuilder<'a, S>,
    /// The trace containing the stack frames and the exception.
    pub trace: Trace,
    /// The severity level of the report; `ERROR` when unset.
    pub level: Option<Level>,
    /// The title shown for this report; serialized as `null` when unset.
    pub title: Option<String>,
}

impl<'a, S: SendStrategy> View for ReportErrorBuilder<'a, S> {
    type V = ReportErrorView;

    open spec fn view(&self) -> ReportErrorView {
        ReportErrorView {
            access_token: self.report_builder.client.access_token@,
            environment: self.report_builder.client.environment@,
            trace: self.trace@,
            level: self.level,
            title: match self.title {
                Some(t) => Some(t@),
                None => None,
            },
        }
    }
}

/// The mathematical contents of a message report under construction.
#[verifier::ext_equal]
pub struct ReportMessageView {
    pub access_token: Seq<char>,
    pub environment: Seq<char>,
    pub message: Seq<char>,
    pub level: Option<Level>,
}

/// Builder specialized for reporting plain text messages.
pub struct ReportMessageBuilder<'a, S: SendStrategy> {
    pub report_builder: ReportBuilder<'a, S>,
    /// The message that must be reported.
    pub message: String,
    /// The severity level of the report; `INFO` when unset.
    pub level: Option<Level>,
}

impl<'a, S: SendStrategy> View for ReportMessageBuilder<'a, S> {
    type V = ReportMessageView;

    open spec fn view(&self) -> ReportMessageView {
        ReportMessageView {
            access_token: self.report_builder.client.access_token@,
            environment: self.report_builder.client.environment@,
            message: self.message@,
            level: self.level,
        }
    }
}

/// The narrow interface an error value exposes in order to be reported: its
/// runtime class name, a short description, an optional rendering of its
/// underlying cause, a full debug rendering, and a display rendering.
/// Concrete error types of the host application implement it.
pub trait SourceError {
    /// The runtime type name of the error value.
    fn class_name(&self) -> String;

    /// The error's short description.
    fn short_description(&self) -> String;

    /// A rendering of the underlying cause, when there is one.
    fn cause_rendering(&self) -> Option<String>;

    /// A full debug rendering of the error value.
    fn debug_rendering(&self) -> String;

    /// The display rendering of the error value.
    fn display_rendering(&self) -> String;
}

/// What a panic exposes: an optional human-readable payload text, and an
/// optional source location.  The host application converts the language's
/// panic data into this form at panic time.
pub struct PanicEvent {
    /// The panic's payload when it is string-like; absent otherwise.
    pub message: Option<String>,
    /// The source location the panic reports, when it carries one.
    pub location: Option<PanicLocation>,
}

/// A panic's reported source location.
pub struct PanicLocation {
    pub file: String,
    pub line: u32,
}

/// The text reported for a panic: its payload when string-like, else the
/// documented placeholder for unknown payload types.
pub open spec fn panic_text(e: &PanicEvent) -> Seq<char> {
    match e.message {
        Some(m) => m@,
        None => "Box<Any>"@,
    }
}

/// The placeholder text for a panic payload of unknown type.
pub const UNKNOWN_PANIC_TEXT: &'static str = "Box<Any>";

/// The exception class marking a panic report.
pub const PANIC_CLASS: &'static str = "<panic>";

/// Relies on `backtrace::Backtrace`'s frames and symbols: one triple per
/// resolved symbol, in backtrace order, holding the symbol's file name (empty
/// when unknown), its line number, and its function name.  What a capture
/// holds depends on the machine, so nothing is promised of the contents.
#[verifier::external_body]
fn backtrace_symbols(backtrace: &backtrace::Backtrace) -> Vec<(String, Option<u32>, Option<String>)> {
    backtrace
        .frames()
        .iter()
        .flat_map(|frame| frame.symbols())
        .map(
            |symbol| (
                symbol.filename().map_or_else(String::new, |path| format!("{}", path.display())),
                symbol.lineno(),
                symbol.name().map(|name| format!("{}", name)),
            ),
        )
        .collect()
}

/// The frame a captured call-stack symbol stands for.
pub open spec fn symbol_frame(s: (String, Option<u32>, Option<String>)) -> FrameView {
    FrameView {
        file_name: s.0@,
        line_number: s.1,
        column_number: None,
        function_name: match s.2 {
            Some(m) => Some(m@),
            None => None,
        },
    }
}

impl Client {
    /// A fresh report factory borrowing this client; stateless, side-effect
    /// free, callable repeatedly and concurrently.
    pub fn build_report(&self) -> (r: ReportBuilder<'_, DefaultDispatch>)
        ensures
            r.client == self,
            r.send_strategy is None,
    {
        ReportBuilder { client: self, send_strategy: None }
    }
}

impl<'a, S: SendStrategy> ReportBuilder<'a, S> {
    /// Use the given delivery strategy in place of the built-in one.
    pub fn with_send_strategy<S2: SendStrategy>(self, send_strategy: S2) -> (r: ReportBuilder<
        'a,
        S2,
    >)
        ensures
            r.client == self.client,
            r.send_strategy == Some(send_strategy),
    {
        ReportBuilder { client: self.client, send_strategy: Some(send_strategy) }
    }

    /// Core error-report constructor: an exception made of the given parts,
    /// the given title, no frames, and no level set.
    pub fn from_error_parts(
        self,
        class: String,
        message: String,
        description: String,
        title: String,
    ) -> (r: ReportErrorBuilder<'a, S>)
        ensures
            r.report_builder == self,
            r@ == (ReportErrorView {
                access_token: self.client.access_token@,
                environment: self.client.environment@,
                trace: TraceView {
                    frames: Seq::<FrameView>::empty(),
                    exception: ExceptionView {
                        class: class@,
                        message: message@,
                        description: description@,
                    },
                },
                level: None,
                title: Some(title@),
            }),
    {
        let r = ReportErrorBuilder {
            report_builder: self,
            trace: Trace {
                frames: Vec::new(),
                exception: Exception { class, message, description },
            },
            level: None,
            title: Some(title),
        };
        proof {
            assert(r@.trace.frames =~= Seq::<FrameView>::empty());
            assert(r@ =~= (ReportErrorView {
                access_token: self.client.access_token@,
                environment: self.client.environment@,
                trace: TraceView {
                    frames: Seq::<FrameView>::empty(),
                    exception: ExceptionView {
                        class: class@,
                        message: message@,
                        description: description@,
                    },
                },
                level: None,
                title: Some(title@),
            }));
        }
        r
    }

    /// To be used when a panic report must be sent: the exception carries the
    /// panic marker class and the panic's text as message, description and
    /// title; the panic's source location, when it reports one, becomes the
    /// single initial frame.
    pub fn from_panic(self, panic_event: &PanicEvent) -> (r: ReportErrorBuilder<'a, S>)
        ensures
            r.report_builder == self,
            r@ == (ReportErrorView {
                access_token: self.client.access_token@,
                environment: self.client.environment@,
                trace: TraceView {
                    frames: match panic_event.location {
                        Some(loc) => seq![
                            FrameView {
                                file_name: loc.file@,
                                line_number: Some(loc.line),
                                column_number: None,
                                function_name: None,
                            },
                        ],
                        None => Seq::<FrameView>::empty(),
                    },
                    exception: ExceptionView {
                        class: PANIC_CLASS@,
                        message: panic_text(panic_event),
                        description: panic_text(panic_event),
                    },
                },
                level: None,
                title: Some(panic_text(panic_event)),
            }),
    {
        let message = match &panic_event.message {
            Some(m) => m.clone(),
            None => String::from_str(UNKNOWN_PANIC_TEXT),
        };
        let mut frames: Vec<FrameBuilder> = Vec::new();
        match &panic_event.location {
            Some(loc) => {
                frames.push(
                    FrameBuilder {
                        file_name: loc.file.clone(),
                        line_number: Some(loc.line),
                        column_number: None,
                        function_name: None,
                    },
                );
            },
            None => {},
        }
        let r = ReportErrorBuilder {
            report_builder: self,
            trace: Trace {
                frames,
                exception: Exception {
                    class: String::from_str(PANIC_CLASS),
                    message: message.clone(),
                    description: message.clone(),
                },
            },
            level: None,
            title: Some(message),
        };
        proof {
            assert(r@.trace.frames =~= (match panic_event.location {
                Some(loc) => seq![
                    FrameView {
                        file_name: loc.file@,
                        line_number: Some(loc.line),
                        column_number: None,
                        function_name: None,
                    },
                ],
                None => Seq::<FrameView>::empty(),
            }));
            assert(r@ =~= (ReportErrorView {
                access_token: self.client.access_token@,
                environment: self.client.environment@,
                trace: TraceView {
                    frames: match panic_event.location {
                        Some(loc) => seq![
                            FrameView {
                                file_name: loc.file@,
                                line_number: Some(loc.line),
                                column_number: None,
                                function_name: None,
                            },
                        ],
                        None => Seq::<FrameView>::empty(),
                    },
                    exception: ExceptionView {
                        class: PANIC_CLASS@,
                        message: panic_text(panic_event),
                        description: panic_text(panic_event),
                    },
                },
                level: None,
                title: Some(panic_text(panic_event)),
            }));
        }
        r
    }

    /// To be used when a typed error must be reported: the exception's class
    /// is the value's runtime type name, its message the short description,
    /// its description the cause's rendering when there is one and the debug
    /// rendering otherwise; the title is the display rendering.
    pub fn from_error<E: SourceError>(self, error: &E) -> (r: ReportErrorBuilder<'a, S>)
        ensures
            r.report_builder == self,
            r@.access_token == self.client.access_token@,
            r@.environment == self.client.environment@,
            r@.trace.frames.len() == 0,
            r@.level is None,
            r@.title is Some,
    {
        let class = error.class_name();
        let message = error.short_description();
        let description = match error.cause_rendering() {
            Some(cause) => cause,
            None => error.debug_rendering(),
        };
        let title = error.display_rendering();
        self.from_error_parts(class, message, description, title)
    }

    /// To be used when an error message must be reported: the exception's
    /// class is the value's runtime type name, and its message, description
    /// and the title all carry the value's display rendering.
    pub fn from_error_message<T: SourceError>(self, error_message: &T) -> (r: ReportErrorBuilder<
        'a,
        S,
    >)
        ensures
            r.report_builder == self,
            r@.access_token == self.client.access_token@,
            r@.environment == self.client.environment@,
            r@.trace.frames.len() == 0,
            r@.level is None,
            r@.trace.exception.description == r@.trace.exception.message,
            r@.title == Some(r@.trace.exception.message),
    {
        let class = error_message.class_name();
        let message = error_message.display_rendering();
        self.from_error_parts(class, message.clone(), message.clone(), message)
    }

    /// To be used when a plain text message must be tracked.
    pub fn from_message(self, message: &str) -> (r: ReportMessageBuilder<'a, S>)
        ensures
            r.report_builder == self,
            r@ == (ReportMessageView {
                access_token: self.client.access_token@,
                environment: self.client.environment@,
                message: message@,
                level: None,
            }),
    {
        ReportMessageBuilder {
            report_builder: self,
            message: String::from_str(message),
            level: None,
        }
    }
}

impl<'a, S: SendStrategy> ReportErrorBuilder<'a, S> {
    /// Add a new frame at the end of the collection of stack frames.
    pub fn with_frame(self, frame_builder: FrameBuilder) -> (r: Self)
        ensures
            r.report_builder == self.report_builder,
            r@ == (ReportErrorView {
                trace: TraceView {
                    frames: self@.trace.frames.push(frame_builder@),
                    exception: self@.trace.exception,
                },
                ..self@
            }),
    {
        let ghost before = self@;
        let mut this = self;
        this.trace.frames.push(frame_builder);
        proof {
            assert(this@.trace.frames =~= before.trace.frames.push(frame_builder@));
            assert(this@ =~= (ReportErrorView {
                trace: TraceView {
                    frames: before.trace.frames.push(frame_builder@),
                    exception: before.trace.exception,
                },
                ..before
            }));
        }
        this
    }

    /// Append one frame per captured call-stack symbol, in capture order,
    /// after the existing frames.
    pub fn with_symbol_frames(self, symbols: Vec<(String, Option<u32>, Option<String>)>) -> (r:
        Self)
        ensures
            r.report_builder == self.report_builder,
            r@ == (ReportErrorView {
                trace: TraceView {
                    frames: self@.trace.frames + symbols@.map_values(
                        |s: (String, Option<u32>, Option<String>)| symbol_frame(s),
                    ),
                    exception: self@.trace.exception,
                },
                ..self@
            }),
    {
        let ghost before = self@;
        let ghost target = before.trace.frames + symbols@.map_values(
            |s: (String, Option<u32>, Option<String>)| symbol_frame(s),
        );
        let mut this = self;
        let mut i: usize = 0;
        while i < symbols.len()
            invariant
                i <= symbols.len(),
                this.report_builder == self.report_builder,
                this@.trace.exception == before.trace.exception,
                this@.level == before.level,
                this@.title == before.title,
                this@.access_token == before.access_token,
                this@.environment == before.environment,
                this@.trace.frames =~= before.trace.frames + symbols@.subrange(
                    0,
                    i as int,
                ).map_values(|s: (String, Option<u32>, Option<String>)| symbol_frame(s)),
            decreases symbols.len() - i,
        {
            let symbol = &symbols[i];
            let frame = FrameBuilder {
                file_name: symbol.0.clone(),
                line_number: symbol.1,
                column_number: None,
                function_name: match &symbol.2 {
                    Some(m) => Some(m.clone()),
                    None => None,
                },
            };
            proof {
                assert(frame@ == symbol_frame(symbols@[i as int]));
            }
            let ghost prev_frames = this@.trace.frames;
            this.trace.frames.push(frame);
            proof {
                assert(this@.trace.frames =~= prev_frames.push(frame@));
                assert(symbols@.subrange(0, i as int + 1) =~= symbols@.subrange(0, i as int).push(
                    symbols@[i as int],
                ));
                assert(symbols@.subrange(0, i as int + 1).map_values(
                    |s: (String, Option<u32>, Option<String>)| symbol_frame(s),
                ) =~= symbols@.subrange(0, i as int).map_values(
                    |s: (String, Option<u32>, Option<String>)| symbol_frame(s),
                ).push(symbol_frame(symbols@[i as int])));
                assert(this@.trace.frames =~= before.trace.frames + symbols@.subrange(
                    0,
                    i as int + 1,
                ).map_values(|s: (String, Option<u32>, Option<String>)| symbol_frame(s)));
            }
            i = i + 1;
        }
        proof {
            assert(symbols@.subrange(0, symbols@.len() as int) =~= symbols@);
            assert(this@.trace.frames =~= target);
            assert(this@ =~= (ReportErrorView {
                trace: TraceView { frames: target, exception: before.trace.exception },
                ..before
            }));
        }
        this
    }

    /// Attach a captured backtrace: appends one frame per resolved symbol, in
    /// backtrace order, after the existing frames.  The capture's contents
    /// depend on the machine, so only the shape of the result is promised:
    /// the existing frames stay, in order, and the appended frames carry no
    /// column number.
    pub fn with_backtrace(self, backtrace: &backtrace::Backtrace) -> (r: Self)
        ensures
            r.report_builder == self.report_builder,
            r@.access_token == self@.access_token,
            r@.environment == self@.environment,
            r@.trace.exception == self@.trace.exception,
            r@.level == self@.level,
            r@.title == self@.title,
            r@.trace.frames.len() >= self@.trace.frames.len(),
            r@.trace.frames.subrange(0, self@.trace.frames.len() as int) == self@.trace.frames,
            forall|j: int|
                self@.trace.frames.len() <= j < r@.trace.frames.len()
                    ==> (#[trigger] r@.trace.frames[j]).column_number is None,
    {
        let symbols = backtrace_symbols(backtrace);
        let r = self.with_symbol_frames(symbols);
        proof {
            assert(r@.trace.frames.subrange(0, self@.trace.frames.len() as int)
                =~= self@.trace.frames);
        }
        r
    }

    /// Set the severity level of the report; `ERROR` is the default.
    pub fn with_level(self, level: Level) -> (r: Self)
        ensures
            r.report_builder == self.report_builder,
            r@ == (ReportErrorView { level: Some(level), ..self@ }),
    {
        ReportErrorBuilder { level: Some(level), ..self }
    }

    /// Set the severity level from a severity string; unrecognized text
    /// degrades to `ERROR`.
    pub fn with_level_text(self, level: &str) -> (r: Self)
        ensures
            r.report_builder == self.report_builder,
            r@ == (ReportErrorView { level: Some(parse_level(level@)), ..self@ }),
    {
        let parsed = Level::parse(level);
        self.with_level(parsed)
    }

    /// Set the title to show for this report.
    pub fn with_title(self, title: &str) -> (r: Self)
        ensures
            r.report_builder == self.report_builder,
            r@ == (ReportErrorView { title: Some(title@), ..self@ }),
    {
        ReportErrorBuilder { title: Some(String::from_str(title)), ..self }
    }

    /// Serializes the report to its canonical JSON payload.
    pub fn to_string(&self) -> (r: String)
        ensures
            r@ == error_payload(
                self@.access_token,
                self@.environment,
                self@.trace,
                effective_error_level(self@.level),
                self@.title,
            ),
    {
        let mut out = String::from_str("{\"access_token\":");
        append_quoted(&mut out, self.report_builder.client.access_token.as_str());
        out.append(",\"data\":");
        append_error_data(
            &mut out,
            self.report_builder.client.environment.as_str(),
            &self.trace,
            match self.level {
                Some(l) => l,
                None => Level::ERROR,
            },
            &self.title,
        );
        out.append("}");
        proof {
            assert(out@ =~= error_payload(
                self@.access_token,
                self@.environment,
                self@.trace,
                effective_error_level(self@.level),
                self@.title,
            ));
        }
        out
    }

    /// Serializes the report and dispatches it via the installed strategy or
    /// the client's built-in delivery; never blocks beyond serialization.
    /// With no installed strategy the returned handle is a pending background
    /// dispatch, never an invented already-resolved status; what an installed
    /// strategy returns is its own.
    pub fn send(&self) -> (h: DeliveryHandle)
        ensures
            self.report_builder.send_strategy is None ==> h@ is Pending,
    {
        let payload = self.to_string();
        match &self.report_builder.send_strategy {
            Some(strategy) => strategy.dispatch(&self.report_builder.client.transport, payload),
            None => self.report_builder.client.send(payload),
        }
    }
}

impl<'a, S: SendStrategy> ReportMessageBuilder<'a, S> {
    /// Set the severity level of the report; `INFO` is the default.
    pub fn with_level(self, level: Level) -> (r: Self)
        ensures
            r.report_builder == self.report_builder,
            r@ == (ReportMessageView { level: Some(level), ..self@ }),
    {
        ReportMessageBuilder { level: Some(level), ..self }
    }

    /// Set the severity level from a severity string; unrecognized text
    /// degrades to `ERROR`.
    pub fn with_level_text(self, level: &str) -> (r: Self)
        ensures
            r.report_builder == self.report_builder,
            r@ == (ReportMessageView { level: Some(parse_level(level@)), ..self@ }),
    {
        let parsed = Level::parse(level);
        self.with_level(parsed)
    }

    /// Serializes the report to its canonical JSON payload, which never
    /// carries a trace.
    pub fn to_string(&self) -> (r: String)
        ensures
            r@ == message_payload(
                self@.access_token,
                self@.environment,
                self@.message,
                effective_message_level(self@.level),
            ),
    {
        let mut out = String::from_str("{\"access_token\":");
        append_quoted(&mut out, self.report_builder.client.access_token.as_str());
        out.append(",\"data\":");
        append_message_data(
            &mut out,
            self.report_builder.client.environment.as_str(),
            self.message.as_str(),
            match self.level {
                Some(l) => l,
                None => Level::INFO,
            },
        );
        out.append("}");
        proof {
            assert(out@ =~= message_payload(
                self@.access_token,
                self@.environment,
                self@.message,
                effective_message_level(self@.level),
            ));
        }
        out
    }

    /// Serializes the message and dispatches it via the installed strategy or
    /// the client's built-in delivery; never blocks beyond serialization.
    /// With no installed strategy the returned handle is a pending background
    /// dispatch, never an invented already-resolved status; what an installed
    /// strategy returns is its own.
    pub fn send(&self) -> (h: DeliveryHandle)
        ensures
            self.report_builder.send_strategy is None ==> h@ is Pending,
    {
        let payload = self.to_string();
        match &self.report_builder.send_strategy {
            Some(strategy) => strategy.dispatch(&self.report_builder.client.transport, payload),
            None => self.report_builder.client.send(payload),
        }
    }
}

} // verus!
