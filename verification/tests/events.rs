use jsonrpc_usecase::error::last_path_segment;
use jsonrpc_usecase::config::{Config, DEFAULT_ENDPOINT};
use jsonrpc_usecase::event::{consumer_positions, EventRequest, UseCaseEvent};
use jsonrpc_usecase::guard::{GuardContext, RequestHeaders};
use jsonrpc_usecase::json::JsonValue;

fn request() -> EventRequest {
    EventRequest::new(
        "AddNumbers".to_owned(),
        Some(JsonValue::Object(vec![(
            "leftOperand".to_owned(),
            JsonValue::Number(serde_json::Number::from(2)),
        )])),
        Some(JsonValue::Number(serde_json::Number::from(1))),
    )
}

#[test]
fn request_snapshot_keeps_its_parts() {
    let snapshot = request();
    assert_eq!(snapshot.jsonrpc(), "2.0");
    assert_eq!(snapshot.method(), "AddNumbers");
    assert!(snapshot.params().is_some());
    assert_eq!(snapshot.id(), Some(&JsonValue::Number(serde_json::Number::from(1))));
    let notification = EventRequest::new("Ping".to_owned(), None, None);
    assert_eq!(notification.params(), None);
    assert_eq!(notification.id(), None);
}

#[test]
fn will_events_have_no_output_and_did_events_do() {
    let will = UseCaseEvent::will("WillAddNumbers", request(), JsonValue::Null);
    assert_eq!(will.name(), "WillAddNumbers");
    assert_eq!(will.output(), None);
    assert_eq!(will.input(), &JsonValue::Null);
    assert_eq!(will.request().method(), "AddNumbers");

    let did = UseCaseEvent::did("DidAddNumbers", request(), JsonValue::Null, JsonValue::Bool(true));
    assert_eq!(did.name(), "DidAddNumbers");
    assert_eq!(did.output(), Some(&JsonValue::Bool(true)));
}

#[test]
fn guard_context_exposes_headers_and_request() {
    let headers = RequestHeaders::new(vec![("X-Access-Token".to_owned(), "allowed".to_owned())]);
    let context = GuardContext::new(headers, request());
    assert_eq!(context.headers().get("x-access-token"), Some("allowed"));
    assert_eq!(context.request().method(), "AddNumbers");
}

#[test]
fn last_path_segment_takes_the_unqualified_name() {
    assert_eq!(last_path_segment("my_crate::errors::AddNumbersError"), "AddNumbersError");
    assert_eq!(last_path_segment("AddNumbersError"), "AddNumbersError");
    assert_eq!(last_path_segment("a:::b"), "b");
    assert_eq!(last_path_segment("trailing::"), "");
    assert_eq!(last_path_segment("x"), "x");
    assert_eq!(last_path_segment(""), "");
}

#[test]
fn consumers_are_picked_by_event_name_in_registration_order() {
    let registered = vec!["DidAddNumbers", "WillAddNumbers", "DidAddNumbers", "didaddnumbers"];
    assert_eq!(consumer_positions(&registered, "DidAddNumbers"), vec![0, 2]);
    assert_eq!(consumer_positions(&registered, "WillAddNumbers"), vec![1]);
    assert!(consumer_positions(&registered, "WillSubtract").is_empty());
    assert!(consumer_positions(&vec![], "DidAddNumbers").is_empty());
}

#[test]
fn configuration_defaults_to_the_rpc_endpoint() {
    let config = Config::with_default_endpoint(7u8);
    assert_eq!(DEFAULT_ENDPOINT, "/rpc");
    assert_eq!(config.endpoint(), "/rpc");
    assert_eq!(*config.context_builder(), 7);
    let mut config = Config::new("/api".to_owned(), 1u8);
    config.set_endpoint("/v2".to_owned());
    config.set_context_builder(2);
    assert_eq!(config.endpoint(), "/v2");
    assert_eq!(*config.context_builder(), 2);
}
