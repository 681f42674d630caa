use rollbar::{Level, ResponseStatus};

#[test]
fn level_parse_canonical_strings() {
    assert_eq!(Level::parse("critical"), Level::CRITICAL);
    assert_eq!(Level::parse("warning"), Level::WARNING);
    assert_eq!(Level::parse("info"), Level::INFO);
    assert_eq!(Level::parse("debug"), Level::DEBUG);
}

#[test]
fn level_parse_falls_back_to_error() {
    assert_eq!(Level::parse("error"), Level::ERROR);
    assert_eq!(Level::parse(""), Level::ERROR);
    assert_eq!(Level::parse("Critical"), Level::ERROR);
    assert_eq!(Level::parse("INFO"), Level::ERROR);
    assert_eq!(Level::parse("warn"), Level::ERROR);
}

#[test]
fn level_round_trip_holds_for_canonical_strings() {
    for s in ["critical", "warning", "info", "debug", "error"] {
        assert_eq!(Level::parse(s).to_text(), s);
    }
    assert_eq!(Level::parse("fatal").to_text(), "error");
}

#[test]
fn level_text_is_lowercase_vocabulary() {
    assert_eq!(Level::CRITICAL.to_text(), "critical");
    assert_eq!(Level::ERROR.to_text(), "error");
    assert_eq!(Level::WARNING.to_text(), "warning");
    assert_eq!(Level::INFO.to_text(), "info");
    assert_eq!(Level::DEBUG.to_text(), "debug");
}

#[test]
fn response_status_documented_descriptions() {
    assert_eq!(
        ResponseStatus::from(401).description(),
        "No access token was found in the request."
    );
    assert_eq!(
        ResponseStatus::from(200).description(),
        "The item was accepted for processing."
    );
    assert_eq!(ResponseStatus::from(999).description(), "An undefined error occurred.");
}

#[test]
fn response_status_diagnostic_line() {
    assert_eq!(
        ResponseStatus::from(401).to_text(),
        "Error 401 Unauthorized: No access token was found in the request."
    );
    assert_eq!(ResponseStatus::from(401).canonical_reason(), "401 Unauthorized");
    assert_eq!(ResponseStatus::from(999).canonical_reason(), "999 <unknown status code>");
    assert_eq!(
        ResponseStatus::from(999).to_text(),
        "Error 999 <unknown status code>: An undefined error occurred."
    );
}

#[test]
fn response_status_keeps_its_code() {
    assert_eq!(ResponseStatus::from(429).code(), 429);
    assert_eq!(ResponseStatus::from(0).code(), 0);
}
