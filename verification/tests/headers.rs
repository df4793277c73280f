use jsonrpc_usecase::config::Config;
use jsonrpc_usecase::context::{ContextBuilderRequest, ContextStack};
use jsonrpc_usecase::guard::RequestHeaders;

fn headers(pairs: &[(&str, &str)]) -> RequestHeaders {
    RequestHeaders::new(
        pairs
            .iter()
            .map(|(name, value)| (name.to_string(), value.to_string()))
            .collect(),
    )
}

#[test]
fn header_lookup_ignores_ascii_case() {
    let h = headers(&[("X-Access-Token", "allowed"), ("x-role", "admin"), ("X-ROLE", "auditor")]);
    assert_eq!(h.get("x-access-token"), Some("allowed"));
    assert_eq!(h.get("X-ACCESS-TOKEN"), Some("allowed"));
    assert_eq!(h.get("x-role"), Some("admin"));
    assert_eq!(h.values("X-Role"), vec!["admin", "auditor"]);
    assert_eq!(h.get("missing"), None);
    assert!(h.values("missing").is_empty());
    assert_eq!(h.get("x-access-toke"), None);
}

#[test]
fn headers_keep_their_order() {
    let h = headers(&[("a", "1"), ("b", "2")]);
    assert_eq!(h.iter(), vec![("a", "1"), ("b", "2")]);
    assert!(!h.is_empty());
    assert!(headers(&[]).is_empty());
    assert!(RequestHeaders::default().is_empty());
    assert_eq!(h, headers(&[("a", "1"), ("b", "2")]));
    assert_ne!(h, headers(&[("a", "1"), ("b", "3")]));
}

#[test]
fn context_builder_request_exposes_headers() {
    let request = ContextBuilderRequest::new(headers(&[("x-user-id", "7")]));
    assert_eq!(request.headers().get("X-User-Id"), Some("7"));
    assert_eq!(request, ContextBuilderRequest::new(headers(&[("x-user-id", "7")])));
}

#[test]
fn context_stack_tracks_the_innermost_context() {
    let mut stack = ContextStack::new();
    assert_eq!(stack.current(), None);
    stack.push("outer");
    stack.push("inner");
    assert_eq!(stack.current(), Some(&"inner"));
    assert_eq!(stack.pop(), "inner");
    assert_eq!(stack.current(), Some(&"outer"));
    assert_eq!(stack.pop(), "outer");
    assert_eq!(stack.current(), None);
}

#[test]
fn config_keeps_endpoint_and_builder() {
    let mut config = Config::new("/rpc".to_owned(), 1u8);
    assert_eq!(config.endpoint(), "/rpc");
    config.set_endpoint("/api".to_owned());
    assert_eq!(config.endpoint(), "/api");
    assert_eq!(*config.context_builder(), 1);
    config.set_context_builder(2);
    assert_eq!(*config.context_builder(), 2);
    assert_eq!(config.endpoint(), "/api");
}
