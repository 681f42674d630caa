//! Numeric HTTP status codes received from the transport, with the
//! service's documented diagnostics.

use crate::text::{append_u32_dec, dec_digits, push_char};
use vstd::prelude::*;
use vstd::string::StringExecFns;

verus! {

/// Wraps the numeric HTTP status of a transport response.  It is only ever
/// derived from a received response, never constructed by application code.
#[derive(Debug)]
pub struct ResponseStatus {
    code: u16,
}

impl View for ResponseStatus {
    type V = u16;

    closed spec fn view(&self) -> u16 {
        self.code
    }
}

/// The service's documented explanation for each status code it returns;
/// every other code maps to the generic fallback.
pub open spec fn status_description(code: u16) -> Seq<char> {
    if code == 200 {
        "The item was accepted for processing."@
    } else if code == 400 {
        "No JSON payload was found, or it could not be decoded."@
    } else if code == 401 {
        "No access token was found in the request."@
    } else if code == 403 {
        "Check that your `access_token` is valid, enabled, and has the correct scope. The response will contain a `message` key explaining the problem."@
    } else if code == 413 {
        "Max payload size is 128kb. Try removing or truncating unnecessary large data included in the payload, like whole binary files or long strings."@
    } else if code == 422 {
        "A syntactically valid JSON payload was found, but it had one or more semantic errors. The response will contain a `message` key describing the errors."@
    } else if code == 429 {
        "Request dropped because the rate limit has been reached for this access token, or the account is on the Free plan and the plan limit has been reached."@
    } else if code == 500 {
        "There was an error on Rollbar's end"@
    } else {
        "An undefined error occurred."@
    }
}

/// The standard reason phrase for the status codes the service documents.
pub open spec fn reason_phrase(code: u16) -> Seq<char> {
    if code == 200 {
        "OK"@
    } else if code == 400 {
        "Bad Request"@
    } else if code == 401 {
        "Unauthorized"@
    } else if code == 403 {
        "Forbidden"@
    } else if code == 413 {
        "Payload Too Large"@
    } else if code == 422 {
        "Unprocessable Entity"@
    } else if code == 429 {
        "Too Many Requests"@
    } else if code == 500 {
        "Internal Server Error"@
    } else {
        "<unknown status code>"@
    }
}

/// The canonical rendering of a status: the code, a space, and its phrase.
pub open spec fn canonical_text(code: u16) -> Seq<char> {
    dec_digits(code as nat) + seq![' '] + reason_phrase(code)
}

/// The full diagnostic line for a status.
pub open spec fn status_line(code: u16) -> Seq<char> {
    "Error "@ + canonical_text(code) + ": "@ + status_description(code)
}

impl ResponseStatus {
    /// Wraps a numeric status code, with no validation.
    pub fn from(code: u16) -> (r: ResponseStatus)
        ensures
            r@ == code,
    {
        ResponseStatus { code }
    }

    /// The numeric status code.
    pub fn code(&self) -> (c: u16)
        ensures
            c == self@,
    {
        self.code
    }

    /// The explanation the service documents for this status code.
    pub fn description(&self) -> (r: &str)
        ensures
            r@ == status_description(self@),
    {
        if self.code == 200 {
            "The item was accepted for processing."
        } else if self.code == 400 {
            "No JSON payload was found, or it could not be decoded."
        } else if self.code == 401 {
            "No access token was found in the request."
        } else if self.code == 403 {
            "Check that your `access_token` is valid, enabled, and has the correct scope. The response will contain a `message` key explaining the problem."
        } else if self.code == 413 {
            "Max payload size is 128kb. Try removing or truncating unnecessary large data included in the payload, like whole binary files or long strings."
        } else if self.code == 422 {
            "A syntactically valid JSON payload was found, but it had one or more semantic errors. The response will contain a `message` key describing the errors."
        } else if self.code == 429 {
            "Request dropped because the rate limit has been reached for this access token, or the account is on the Free plan and the plan limit has been reached."
        } else if self.code == 500 {
            "There was an error on Rollbar's end"
        } else {
            "An undefined error occurred."
        }
    }

    /// The canonical rendering of the status code with its reason phrase.
    pub fn canonical_reason(&self) -> (r: String)
        ensures
            r@ == canonical_text(self@),
    {
        let mut out = String::new();
        append_u32_dec(&mut out, self.code as u32);
        push_char(&mut out, ' ');
        let phrase: &str = if self.code == 200 {
            "OK"
        } else if self.code == 400 {
            "Bad Request"
        } else if self.code == 401 {
            "Unauthorized"
        } else if self.code == 403 {
            "Forbidden"
        } else if self.code == 413 {
            "Payload Too Large"
        } else if self.code == 422 {
            "Unprocessable Entity"
        } else if self.code == 429 {
            "Too Many Requests"
        } else if self.code == 500 {
            "Internal Server Error"
        } else {
            "<unknown status code>"
        };
        out.append(phrase);
        proof {
            assert(out@ =~= canonical_text(self@));
        }
        out
    }

    /// The full diagnostic line: `Error <code> <phrase>: <description>`.
    pub fn to_text(&self) -> (r: String)
        ensures
            r@ == status_line(self@),
    {
        let mut out = String::from_str("Error ");
        let reason = self.canonical_reason();
        out.append(reason.as_str());
        out.append(": ");
        out.append(self.description());
        out
    }
}

} // verus!
