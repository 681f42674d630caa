use rollbar::{Client, DeliveryHandle, ResponseStatus, SendStrategy, Transport};
use std::sync::{Arc, Mutex};

struct Capture(Arc<Mutex<Option<String>>>);

impl SendStrategy for Capture {
    fn dispatch(&self, _transport: &Transport, payload: String) -> DeliveryHandle {
        *self.0.lock().unwrap() = Some(payload);
        DeliveryHandle::ready(None)
    }
}

struct Accept(u16);

impl SendStrategy for Accept {
    fn dispatch(&self, _transport: &Transport, _payload: String) -> DeliveryHandle {
        DeliveryHandle::ready(Some(ResponseStatus::from(self.0)))
    }
}

#[test]
fn send_hands_the_exact_message_payload_to_the_strategy() {
    let client = Client::new("ACCESS_TOKEN", "ENVIRONMENT");
    let captured = Arc::new(Mutex::new(None));

    let handle = client
        .build_report()
        .with_send_strategy(Capture(captured.clone()))
        .from_message("hai")
        .send();
    assert!(handle.join().is_none());

    assert_eq!(
        captured.lock().unwrap().as_deref(),
        Some(
            "{\"access_token\":\"ACCESS_TOKEN\",\"data\":{\"environment\":\"ENVIRONMENT\",\
             \"body\":{\"message\":{\"body\":\"hai\"}},\"level\":\"info\"}}"
        )
    );
}

#[test]
fn default_level_is_error_for_error_reports() {
    let client = Client::new("ACCESS_TOKEN", "ENVIRONMENT");
    let captured = Arc::new(Mutex::new(None));

    let event = rollbar::PanicEvent { message: Some("boom".to_string()), location: None };
    let handle = client
        .build_report()
        .with_send_strategy(Capture(captured.clone()))
        .from_panic(&event)
        .send();
    assert!(handle.join().is_none());

    let payload: serde_json::Value =
        serde_json::from_str(captured.lock().unwrap().as_deref().unwrap()).unwrap();
    assert_eq!(payload["data"]["level"], "error");
}

#[test]
fn default_level_is_info_for_message_reports() {
    let client = Client::new("ACCESS_TOKEN", "ENVIRONMENT");
    let captured = Arc::new(Mutex::new(None));

    let handle = client
        .build_report()
        .with_send_strategy(Capture(captured.clone()))
        .from_message("just saying")
        .send();
    assert!(handle.join().is_none());

    let payload: serde_json::Value =
        serde_json::from_str(captured.lock().unwrap().as_deref().unwrap()).unwrap();
    assert_eq!(payload["data"]["level"], "info");
}

#[test]
fn joining_a_resolved_handle_yields_its_status() {
    let client = Client::new("ACCESS_TOKEN", "ENVIRONMENT");

    let handle = client
        .build_report()
        .with_send_strategy(Accept(200))
        .from_message("hai")
        .send();
    let status = handle.join().unwrap();
    assert_eq!(status.code(), 200);
    assert_eq!(status.description(), "The item was accepted for processing.");

    assert!(DeliveryHandle::ready(None).join().is_none());
}
