//! Canonical JSON text: string escaping, and a small model of JSON documents
//! with their rendering, against which the payload serializers are proved.

use crate::text::{dec_digits, digit_char, push_char};
use vstd::prelude::*;
use vstd::string::StrSliceExecFns;

verus! {

/// True of characters that JSON string syntax passes through unchanged.
pub open spec fn is_plain_char(c: char) -> bool {
    c != '"' && c != '\\' && (c as u32) >= 0x20
}

/// Lowercase hexadecimal digit.
pub open spec fn hex_digit(d: nat) -> char {
    if d < 10 {
        digit_char(d)
    } else if d == 10 {
        'a'
    } else if d == 11 {
        'b'
    } else if d == 12 {
        'c'
    } else if d == 13 {
        'd'
    } else if d == 14 {
        'e'
    } else {
        'f'
    }
}

/// Canonical JSON escaping of one character: quote and backslash get a
/// backslash escape, the named control characters their short forms, the
/// remaining control characters a `\u00XX` form, and everything else stands
/// unchanged.
pub open spec fn escape_char(c: char) -> Seq<char> {
    if c == '"' {
        seq!['\\', '"']
    } else if c == '\\' {
        seq!['\\', '\\']
    } else if c == '\u{8}' {
        seq!['\\', 'b']
    } else if c == '\t' {
        seq!['\\', 't']
    } else if c == '\n' {
        seq!['\\', 'n']
    } else if c == '\u{c}' {
        seq!['\\', 'f']
    } else if c == '\r' {
        seq!['\\', 'r']
    } else if (c as u32) < 0x20 {
        seq!['\\', 'u', '0', '0', hex_digit((c as u32) as nat / 16), hex_digit(
            (c as u32) as nat % 16,
        )]
    } else {
        seq![c]
    }
}

/// Escaping of the first `i` characters of `s`, in order.
pub open spec fn escape_prefix(s: Seq<char>, i: int) -> Seq<char>
    decreases i,
{
    if i <= 0 {
        Seq::empty()
    } else {
        escape_prefix(s, i - 1) + escape_char(s[i - 1])
    }
}

/// Canonical JSON escaping of a whole string.
pub open spec fn escape(s: Seq<char>) -> Seq<char> {
    escape_prefix(s, s.len() as int)
}

/// A JSON string token: the escaped text between double quotes.
#[verifier::opaque]
pub open spec fn quote(s: Seq<char>) -> Seq<char> {
    seq!['"'] + escape(s) + seq!['"']
}

/// A JSON document.  Object member keys are kept unescaped: every key this
/// library emits consists of plain characters only.
pub enum Json {
    Null,
    Str(Seq<char>),
    Num(nat),
    Arr(Seq<Json>),
    Obj(Seq<(Seq<char>, Json)>),
}

/// The canonical text of a JSON document.
pub open spec fn render(j: Json) -> Seq<char>
    decreases j, 0int,
{
    match j {
        Json::Null => "null"@,
        Json::Str(s) => quote(s),
        Json::Num(n) => dec_digits(n),
        Json::Arr(es) => seq!['['] + render_items(es, es.len() as int) + seq![']'],
        Json::Obj(ms) => seq!['{'] + render_members(ms, ms.len() as int) + seq!['}'],
    }
}

/// Comma-separated renderings of the first `i` elements of an array.
pub open spec fn render_items(es: Seq<Json>, i: int) -> Seq<char>
    decreases es, i,
    when i <= es.len()
{
    if i <= 0 {
        Seq::empty()
    } else if i == 1 {
        render(es[0])
    } else {
        render_items(es, i - 1) + seq![','] + render(es[i - 1])
    }
}

/// Comma-separated renderings of the first `i` members of an object.
pub open spec fn render_members(ms: Seq<(Seq<char>, Json)>, i: int) -> Seq<char>
    decreases ms, i,
    when i <= ms.len()
{
    if i <= 0 {
        Seq::empty()
    } else if i == 1 {
        render_member(ms[0])
    } else {
        render_members(ms, i - 1) + seq![','] + render_member(ms[i - 1])
    }
}

/// One `"key":value` object member.
pub open spec fn render_member(m: (Seq<char>, Json)) -> Seq<char>
    decreases m,
{
    seq!['"'] + m.0 + seq!['"', ':'] + render(m.1)
}

/// The keys of an object's member list, in order.
pub open spec fn member_keys(ms: Seq<(Seq<char>, Json)>) -> Seq<Seq<char>> {
    ms.map_values(|m: (Seq<char>, Json)| m.0)
}

/// Concatenation of character sequences is associative.
pub broadcast proof fn lemma_concat_assoc(a: Seq<char>, b: Seq<char>, c: Seq<char>)
    ensures
        #[trigger] ((a + b) + c) == a + (b + c),
{
    assert((a + b) + c =~= a + (b + c));
}

/// Escaping leaves a string of plain characters unchanged.
pub proof fn lemma_escape_prefix_plain(s: Seq<char>, i: int)
    requires
        0 <= i <= s.len(),
        forall|j: int| 0 <= j < s.len() ==> is_plain_char(#[trigger] s[j]),
    ensures
        escape_prefix(s, i) == s.take(i),
    decreases i,
{
    if i <= 0 {
        assert(escape_prefix(s, i) =~= s.take(i));
    } else {
        lemma_escape_prefix_plain(s, i - 1);
        assert(escape_char(s[i - 1]) =~= seq![s[i - 1]]);
        assert(escape_prefix(s, i) =~= s.take(i));
    }
}

/// Escaping leaves a string of plain characters unchanged.
pub proof fn lemma_escape_plain(s: Seq<char>)
    requires
        forall|j: int| 0 <= j < s.len() ==> is_plain_char(#[trigger] s[j]),
    ensures
        escape(s) == s,
{
    lemma_escape_prefix_plain(s, s.len() as int);
    assert(s.take(s.len() as int) =~= s);
}

fn hex_digit_exec(d: u32) -> (c: char)
    requires
        d < 16,
    ensures
        c == hex_digit(d as nat),
{
    if d == 0 {
        '0'
    } else if d == 1 {
        '1'
    } else if d == 2 {
        '2'
    } else if d == 3 {
        '3'
    } else if d == 4 {
        '4'
    } else if d == 5 {
        '5'
    } else if d == 6 {
        '6'
    } else if d == 7 {
        '7'
    } else if d == 8 {
        '8'
    } else if d == 9 {
        '9'
    } else if d == 10 {
        'a'
    } else if d == 11 {
        'b'
    } else if d == 12 {
        'c'
    } else if d == 13 {
        'd'
    } else if d == 14 {
        'e'
    } else {
        'f'
    }
}

fn append_escaped_char(out: &mut String, c: char)
    ensures
        final(out)@ == old(out)@ + escape_char(c),
{
    if c == '"' {
        push_char(out, '\\');
        push_char(out, '"');
    } else if c == '\\' {
        push_char(out, '\\');
        push_char(out, '\\');
    } else if c == '\u{8}' {
        push_char(out, '\\');
        push_char(out, 'b');
    } else if c == '\t' {
        push_char(out, '\\');
        push_char(out, 't');
    } else if c == '\n' {
        push_char(out, '\\');
        push_char(out, 'n');
    } else if c == '\u{c}' {
        push_char(out, '\\');
        push_char(out, 'f');
    } else if c == '\r' {
        push_char(out, '\\');
        push_char(out, 'r');
    } else {
        let v: u32 = c as u32;
        if v < 0x20 {
            push_char(out, '\\');
            push_char(out, 'u');
            push_char(out, '0');
            push_char(out, '0');
            push_char(out, hex_digit_exec(v / 16));
            push_char(out, hex_digit_exec(v % 16));
        } else {
            push_char(out, c);
        }
    }
    proof {
        assert(out@ =~= old(out)@ + escape_char(c));
    }
}

/// Appends the JSON string token for `s` (escaped, between double quotes).
pub fn append_quoted(out: &mut String, s: &str)
    ensures
        final(out)@ == old(out)@ + quote(s@),
{
    let ghost orig: Seq<char> = out@;
    push_char(out, '"');
    let n = s.unicode_len();
    let mut i: usize = 0;
    while i < n
        invariant
            n == s@.len(),
            i <= n,
            out@ == orig.push('"') + escape_prefix(s@, i as int),
        decreases n - i,
    {
        append_escaped_char(out, s.get_char(i));
        i = i + 1;
    }
    push_char(out, '"');
    proof {
        reveal(quote);
        assert(out@ =~= orig + quote(s@));
    }
}

} // verus!
