//! Track and report errors, panics and messages from a Rust application to a
//! remote error-tracking service.
//!
//! A `Client` owns the HTTPS transport and the service credentials.  From it,
//! `Client::build_report` yields a report factory whose origin selectors
//! (`from_panic`, `from_error`, `from_error_message`, `from_message`) produce
//! specialized builders.  A builder accumulates stack frames, a severity level
//! and a title, serializes itself to the canonical JSON payload, and hands the
//! payload to a delivery strategy that runs off the calling thread.
//!
//! The payload serialization is verified: each builder's `to_string` is proved
//! to emit exactly the canonical JSON text for the builder's contents.

mod client;
mod frame;
mod json;
mod laws;
mod level;
mod report;
mod status;
mod text;

pub use client::{
    opt_code, Client, DefaultDispatch, DeliveryHandle, DeliveryView, SendStrategy, Transport,
    ITEMS_URL, SUCCESS_STATUS,
};
pub use frame::{
    colno_text, frame_payload, lineno_text, method_text, FrameBuilder, FrameView,
    DEFAULT_FRAME_FILE,
};
pub use json::{
    escape, escape_char, is_plain_char, member_keys, quote, render, render_items, render_member,
    render_members, Json,
};
pub use laws::{
    error_data_ast, error_payload_ast, exception_ast, frame_ast, frame_members, frames_ast,
    lemma_error_payload_renders, lemma_exception_renders, lemma_frame_fields_absent_not_null,
    lemma_frame_payload_renders, lemma_frames_payload_renders, lemma_message_payload_renders,
    lemma_trace_payload_renders, message_data_ast, message_payload_ast, title_ast, trace_ast,
};
pub use level::{lemma_level_round_trip, level_text, parse_level, Level};
pub use report::{
    effective_error_level, effective_message_level, error_data_text, error_payload,
    exception_text, frames_payload, message_data_text, message_payload, panic_text, symbol_frame,
    title_text, trace_payload, Exception, ExceptionView, PanicEvent, PanicLocation, ReportBuilder,
    ReportErrorBuilder, ReportErrorView, ReportMessageBuilder, ReportMessageView, SourceError,
    Trace, TraceView, PANIC_CLASS, UNKNOWN_PANIC_TEXT,
};
pub use status::{canonical_text, reason_phrase, status_description, status_line, ResponseStatus};
pub use text::{dec_digits, digit_char, str_eq};
