//! Stack frames: a builder for one frame, and the frame's canonical JSON text.
//! A collection of frames identifies a stack trace.

use crate::json::{append_quoted, quote};
use crate::text::{append_u32_dec, dec_digits};
use vstd::prelude::*;
use vstd::string::StringExecFns;

verus! {

/// The frames this library makes without an explicit file name are attributed
/// to the library's own root source file.
pub const DEFAULT_FRAME_FILE: &'static str = "src/lib.rs";

/// Builder for a frame.  Omitted optional fields stay absent from the
/// serialized form.
pub struct FrameBuilder {
    /// The name of the file in which the error had origin.
    pub file_name: String,
    /// The line of code in which the error had origin.
    pub line_number: Option<u32>,
    /// The column in which the error had origin.
    pub column_number: Option<u32>,
    /// The method or function name which caused the error.
    pub function_name: Option<String>,
}

/// The mathematical contents of a frame.
pub struct FrameView {
    pub file_name: Seq<char>,
    pub line_number: Option<u32>,
    pub column_number: Option<u32>,
    pub function_name: Option<Seq<char>>,
}

impl View for FrameBuilder {
    type V = FrameView;

    open spec fn view(&self) -> FrameView {
        FrameView {
            file_name: self.file_name@,
            line_number: self.line_number,
            column_number: self.column_number,
            function_name: match self.function_name {
                Some(s) => Some(s@),
                None => None,
            },
        }
    }
}

impl FrameBuilder {
    /// Create a new frame builder, attributed to the default file.
    pub fn new() -> (r: FrameBuilder)
        ensures
            r@ == (FrameView {
                file_name: DEFAULT_FRAME_FILE@,
                line_number: None,
                column_number: None,
                function_name: None,
            }),
    {
        FrameBuilder {
            file_name: String::from_str(DEFAULT_FRAME_FILE),
            line_number: None,
            column_number: None,
            function_name: None,
        }
    }

    /// Tell the origin of the error by setting the frame's file name.
    pub fn with_file_name(self, file_name: &str) -> (r: FrameBuilder)
        ensures
            r@ == (FrameView { file_name: file_name@, ..self@ }),
    {
        FrameBuilder { file_name: String::from_str(file_name), ..self }
    }

    /// Set the number of the line in which an error occurred.
    pub fn with_line_number(self, line_number: u32) -> (r: FrameBuilder)
        ensures
            r@ == (FrameView { line_number: Some(line_number), ..self@ }),
    {
        FrameBuilder { line_number: Some(line_number), ..self }
    }

    /// Set the number of the column in which an error occurred.
    pub fn with_column_number(self, column_number: u32) -> (r: FrameBuilder)
        ensures
            r@ == (FrameView { column_number: Some(column_number), ..self@ }),
    {
        FrameBuilder { column_number: Some(column_number), ..self }
    }

    /// Set the method or function name which caused the error.
    pub fn with_function_name(self, function_name: &str) -> (r: FrameBuilder)
        ensures
            r@ == (FrameView { function_name: Some(function_name@), ..self@ }),
    {
        FrameBuilder { function_name: Some(String::from_str(function_name)), ..self }
    }

    /// Conclude the creation of the frame with an immutable copy.
    pub fn build(&self) -> (r: FrameBuilder)
        ensures
            r@ == self@,
    {
        FrameBuilder {
            file_name: self.file_name.clone(),
            line_number: self.line_number,
            column_number: self.column_number,
            function_name: match &self.function_name {
                Some(s) => Some(s.clone()),
                None => None,
            },
        }
    }
}

/// The `lineno` member of a frame's JSON object, absent when unset.
pub open spec fn lineno_text(f: FrameView) -> Seq<char> {
    match f.line_number {
        Some(n) => ",\"lineno\":"@ + dec_digits(n as nat),
        None => Seq::empty(),
    }
}

/// The `colno` member of a frame's JSON object, absent when unset.
pub open spec fn colno_text(f: FrameView) -> Seq<char> {
    match f.column_number {
        Some(n) => ",\"colno\":"@ + dec_digits(n as nat),
        None => Seq::empty(),
    }
}

/// The `method` member of a frame's JSON object, absent when unset.
pub open spec fn method_text(f: FrameView) -> Seq<char> {
    match f.function_name {
        Some(m) => ",\"method\":"@ + quote(m),
        None => Seq::empty(),
    }
}

/// The canonical JSON text of one frame.
#[verifier::opaque]
pub open spec fn frame_payload(f: FrameView) -> Seq<char> {
    "{\"filename\":"@ + quote(f.file_name) + lineno_text(f) + colno_text(f) + method_text(f)
        + "}"@
}

/// Appends the canonical JSON text of `f` to `out`.
pub fn append_frame(out: &mut String, f: &FrameBuilder)
    ensures
        final(out)@ == old(out)@ + frame_payload(f@),
{
    out.append("{\"filename\":");
    append_quoted(out, f.file_name.as_str());
    match f.line_number {
        Some(n) => {
            out.append(",\"lineno\":");
            append_u32_dec(out, n);
        },
        None => {},
    }
    match f.column_number {
        Some(n) => {
            out.append(",\"colno\":");
            append_u32_dec(out, n);
        },
        None => {},
    }
    match &f.function_name {
        Some(m) => {
            out.append(",\"method\":");
            append_quoted(out, m.as_str());
        },
        None => {},
    }
    out.append("}");
    proof {
        reveal(frame_payload);
        assert(out@ =~= old(out)@ + frame_payload(f@));
    }
}

} // verus!
