//! Severity levels and their string vocabulary.

use crate::text::str_eq;
use vstd::prelude::*;
use vstd::string::StringExecFns;

verus! {

/// Severity attached to a report.  Unrecognized text parses to `ERROR`, the
/// documented fallback; it is also the default for error and panic reports,
/// while plain message reports default to `INFO`.
#[derive(Clone, Copy, Debug, PartialEq, Eq, Structural)]
pub enum Level {
    CRITICAL,
    ERROR,
    WARNING,
    INFO,
    DEBUG,
}

/// The canonical lowercase rendering of a level.
pub open spec fn level_text(l: Level) -> Seq<char> {
    match l {
        Level::CRITICAL => "critical"@,
        Level::ERROR => "error"@,
        Level::WARNING => "warning"@,
        Level::INFO => "info"@,
        Level::DEBUG => "debug"@,
    }
}

/// What `Level::parse` yields: the matching variant for the four strings that
/// name one, and `ERROR` for everything else (including `"error"` itself).
pub open spec fn parse_level(s: Seq<char>) -> Level {
    if s == "critical"@ {
        Level::CRITICAL
    } else if s == "warning"@ {
        Level::WARNING
    } else if s == "info"@ {
        Level::INFO
    } else if s == "debug"@ {
        Level::DEBUG
    } else {
        Level::ERROR
    }
}

impl Level {
    /// Total parse of a severity string; any unrecognized input degrades to
    /// `ERROR` rather than failing.
    pub fn parse(s: &str) -> (r: Level)
        ensures
            r == parse_level(s@),
    {
        if str_eq(s, "critical") {
            Level::CRITICAL
        } else if str_eq(s, "warning") {
            Level::WARNING
        } else if str_eq(s, "info") {
            Level::INFO
        } else if str_eq(s, "debug") {
            Level::DEBUG
        } else {
            Level::ERROR
        }
    }

    /// The canonical lowercase string for this level.
    pub fn to_text(&self) -> (r: String)
        ensures
            r@ == level_text(*self),
    {
        match self {
            Level::CRITICAL => String::from_str("critical"),
            Level::ERROR => String::from_str("error"),
            Level::WARNING => String::from_str("warning"),
            Level::INFO => String::from_str("info"),
            Level::DEBUG => String::from_str("debug"),
        }
    }
}

/// Law: rendering after parsing gives back exactly the input on the five
/// canonical lowercase strings, and on no other input.  (`"error"` round-trips
/// through the fallback branch of `parse_level`.)
pub proof fn lemma_level_round_trip(s: Seq<char>)
    ensures
        level_text(parse_level(s)) == s <==> (s == "critical"@ || s == "warning"@ || s == "info"@
            || s == "debug"@ || s == "error"@),
{
    reveal_strlit("critical");
    reveal_strlit("warning");
    reveal_strlit("info");
    reveal_strlit("debug");
    reveal_strlit("error");
    assert("critical"@.len() == 8);
    assert("warning"@.len() == 7);
    assert("info"@.len() == 4);
    assert("debug"@.len() == 5);
    assert("error"@.len() == 5);
    assert("debug"@[0] == 'd');
    assert("error"@[0] == 'e');
}

} // verus!
