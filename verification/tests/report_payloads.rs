use rollbar::{Client, FrameBuilder, Level, PanicEvent, PanicLocation, SourceError};
use serde_json::Value;
use std::num::ParseIntError;

struct TestError<'a>(&'a ParseIntError);

impl SourceError for TestError<'_> {
    fn class_name(&self) -> String {
        "core::num::ParseIntError".to_string()
    }

    fn short_description(&self) -> String {
        self.0.to_string()
    }

    fn cause_rendering(&self) -> Option<String> {
        None
    }

    fn debug_rendering(&self) -> String {
        format!("{:?}", self.0)
    }

    fn display_rendering(&self) -> String {
        self.0.to_string()
    }
}

struct PlainMessage(&'static str);

impl SourceError for PlainMessage {
    fn class_name(&self) -> String {
        "PlainMessage".to_string()
    }

    fn short_description(&self) -> String {
        self.0.to_string()
    }

    fn cause_rendering(&self) -> Option<String> {
        None
    }

    fn debug_rendering(&self) -> String {
        format!("{:?}", self.0)
    }

    fn display_rendering(&self) -> String {
        self.0.to_string()
    }
}

#[test]
fn test_report_error() {
    let client = Client::new("ACCESS_TOKEN", "ENVIRONMENT");

    match "笑".parse::<i32>() {
        Ok(_) => {
            assert!(false);
        }
        Err(e) => {
            let payload = client
                .build_report()
                .from_error_message(&TestError(&e))
                .with_level(Level::WARNING)
                .with_frame(FrameBuilder::new().with_column_number(42).build())
                .with_frame(FrameBuilder::new().with_column_number(24).build())
                .with_title("w")
                .to_string();

            let expected_payload: Value = serde_json::from_str(
                "{\"access_token\":\"ACCESS_TOKEN\",\"data\":{\"environment\":\"ENVIRONMENT\",\
                 \"body\":{\"trace\":{\"frames\":[{\"filename\":\"src/lib.rs\",\"colno\":42},\
                 {\"filename\":\"src/lib.rs\",\"colno\":24}],\"exception\":{\
                 \"class\":\"core::num::ParseIntError\",\"message\":\"invalid digit found in string\",\
                 \"description\":\"invalid digit found in string\"}}},\"level\":\"warning\",\
                 \"language\":\"rust\",\"title\":\"w\"}}",
            )
            .unwrap();

            let payload: Value = serde_json::from_str(&payload).unwrap();
            let description = payload["data"]["body"]["trace"]["exception"]["description"]
                .as_str()
                .unwrap();
            let message = payload["data"]["body"]["trace"]["exception"]["message"].as_str().unwrap();
            assert!(!description.is_empty());
            assert!(!message.is_empty());
            assert_eq!(expected_payload, payload);
        }
    }
}

#[test]
fn test_report_message() {
    let client = Client::new("ACCESS_TOKEN", "ENVIRONMENT");

    let payload = client
        .build_report()
        .from_message("hai")
        .with_level_text("warning")
        .to_string();

    let expected_payload: Value = serde_json::from_str(
        "{\"access_token\":\"ACCESS_TOKEN\",\"data\":{\"environment\":\"ENVIRONMENT\",\
         \"body\":{\"message\":{\"body\":\"hai\"}},\"level\":\"warning\"}}",
    )
    .unwrap();

    let payload: Value = serde_json::from_str(&payload).unwrap();
    assert_eq!(payload, expected_payload);
}

#[test]
fn report_panic_event_payload() {
    let client = Client::new("ACCESS_TOKEN", "ENVIRONMENT");

    let event = PanicEvent {
        message: Some("attempt to divide by zero".to_string()),
        location: Some(PanicLocation { file: "src/lib.rs".to_string(), line: 268 }),
    };
    let payload = client
        .build_report()
        .from_panic(&event)
        .with_level_text("info")
        .to_string();

    assert_eq!(
        payload,
        "{\"access_token\":\"ACCESS_TOKEN\",\"data\":{\"environment\":\"ENVIRONMENT\",\
         \"body\":{\"trace\":{\"frames\":[{\"filename\":\"src/lib.rs\",\"lineno\":268}],\
         \"exception\":{\"class\":\"<panic>\",\"message\":\"attempt to divide by zero\",\
         \"description\":\"attempt to divide by zero\"}}},\"level\":\"info\",\
         \"language\":\"rust\",\"title\":\"attempt to divide by zero\"}}"
    );
}

#[test]
fn panic_without_string_payload_uses_placeholder() {
    let client = Client::new("ACCESS_TOKEN", "ENVIRONMENT");

    let event = PanicEvent { message: None, location: None };
    let payload = client.build_report().from_panic(&event).to_string();

    let payload: Value = serde_json::from_str(&payload).unwrap();
    assert_eq!(payload["data"]["body"]["trace"]["exception"]["message"], "Box<Any>");
    assert_eq!(payload["data"]["title"], "Box<Any>");
    assert_eq!(payload["data"]["body"]["trace"]["frames"].as_array().unwrap().len(), 0);
}

#[test]
fn empty_frames_serialize_to_empty_array() {
    let client = Client::new("ACCESS_TOKEN", "ENVIRONMENT");

    let payload = client.build_report().from_error_message(&PlainMessage("boom")).to_string();

    assert!(payload.contains("\"frames\":[]"));
    let payload: Value = serde_json::from_str(&payload).unwrap();
    assert_eq!(payload["data"]["body"]["trace"]["frames"].as_array().unwrap().len(), 0);
}

#[test]
fn frame_order_follows_call_order() {
    let client = Client::new("ACCESS_TOKEN", "ENVIRONMENT");
    let backtrace = backtrace::Backtrace::new();

    let payload = client
        .build_report()
        .from_error_message(&PlainMessage("boom"))
        .with_frame(FrameBuilder::new().with_function_name("first").build())
        .with_backtrace(&backtrace)
        .with_frame(FrameBuilder::new().with_function_name("last").build())
        .to_string();

    let payload: Value = serde_json::from_str(&payload).unwrap();
    let frames = payload["data"]["body"]["trace"]["frames"].as_array().unwrap();
    assert!(frames.len() >= 2);
    assert_eq!(frames[0]["method"], "first");
    assert_eq!(frames[frames.len() - 1]["method"], "last");
}

#[test]
fn omitted_frame_fields_are_absent_not_null() {
    let client = Client::new("ACCESS_TOKEN", "ENVIRONMENT");

    let payload = client
        .build_report()
        .from_error_message(&PlainMessage("boom"))
        .with_frame(FrameBuilder::new().with_line_number(5).build())
        .to_string();

    let payload: Value = serde_json::from_str(&payload).unwrap();
    let frame = &payload["data"]["body"]["trace"]["frames"][0];
    assert_eq!(frame["filename"], "src/lib.rs");
    assert_eq!(frame["lineno"], 5);
    let frame = frame.as_object().unwrap();
    assert!(frame.get("colno").is_none());
    assert!(frame.get("method").is_none());
    assert!(frame.values().all(|v| !v.is_null()));
}

#[test]
fn message_report_has_no_trace_key() {
    let client = Client::new("ACCESS_TOKEN", "ENVIRONMENT");

    let message_payload = client.build_report().from_message("hai").to_string();
    let message_payload: Value = serde_json::from_str(&message_payload).unwrap();
    let body = message_payload["data"]["body"].as_object().unwrap();
    assert!(body.get("trace").is_none());
    assert!(body.get("message").is_some());

    let error_payload = client.build_report().from_error_message(&PlainMessage("x")).to_string();
    let error_payload: Value = serde_json::from_str(&error_payload).unwrap();
    let body = error_payload["data"]["body"].as_object().unwrap();
    assert!(body.get("trace").is_some());
    assert!(body.get("message").is_none());
}

#[test]
fn string_escaping_round_trips_through_a_json_parser() {
    let client = Client::new("ACCESS_TOKEN", "ENVIRONMENT");

    let tricky = "a\"b\\c\nd\te\u{1}f\u{1f}g笑";
    let payload = client.build_report().from_message(tricky).to_string();

    assert!(payload.contains("\"body\":\"a\\\"b\\\\c\\nd\\te\\u0001f\\u001fg笑\""));
    let payload: Value = serde_json::from_str(&payload).unwrap();
    assert_eq!(payload["data"]["body"]["message"]["body"].as_str().unwrap(), tricky);
}

#[test]
fn frame_builder_setters_reach_the_payload() {
    let client = Client::new("ACCESS_TOKEN", "ENVIRONMENT");

    let frame = FrameBuilder::new()
        .with_file_name("main.rs")
        .with_line_number(0)
        .with_column_number(4294967295)
        .with_function_name("run")
        .build();
    let payload =
        client.build_report().from_error_message(&PlainMessage("x")).with_frame(frame).to_string();

    assert!(payload.contains(
        "{\"filename\":\"main.rs\",\"lineno\":0,\"colno\":4294967295,\"method\":\"run\"}"
    ));
}

#[test]
fn title_reaches_the_payload_and_is_null_when_unset() {
    let client = Client::new("ACCESS_TOKEN", "ENVIRONMENT");

    let payload = client.build_report().from_message("hai").to_string();
    assert!(!payload.contains("title"));

    let payload = client.build_report().from_error_message(&PlainMessage("t")).to_string();
    let payload: Value = serde_json::from_str(&payload).unwrap();
    assert_eq!(payload["data"]["title"], "t");

    let factory = client.build_report();
    let untitled = rollbar::ReportErrorBuilder {
        report_builder: factory,
        trace: rollbar::Trace { frames: Vec::new(), exception: rollbar::Exception::default() },
        level: None,
        title: None,
    };
    let payload = untitled.to_string();
    assert!(payload.contains("\"title\":null"));
    assert!(payload.contains("\"class\":\"Generic\""));
    let payload: Value = serde_json::from_str(&payload).unwrap();
    assert!(payload["data"]["title"].is_null());
}
