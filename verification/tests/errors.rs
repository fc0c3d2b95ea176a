use altertable_lakehouse::error::method_to_static;
use altertable_lakehouse::requests::ensure_non_empty;
use altertable_lakehouse::text::{decimal_string, trimmed};
use altertable_lakehouse::{AltertableClient, AltertableError, EnvCredentials, ErrorContext, ResponseMeta};

fn context() -> ErrorContext {
    ErrorContext {
        operation: "append",
        method: "POST",
        path: "/append".into(),
        status: Some(400),
        retriable: false,
        request_id: None,
        correlation_id: None,
    }
}

#[test]
fn status_401_and_403_are_auth_errors() {
    for status in [401u16, 403] {
        let error = AltertableError::from_status(context(), status, "nope".into());
        assert!(matches!(error, AltertableError::AuthError { .. }));
        assert_eq!(error.to_string(), "nope");
    }
}

#[test]
fn status_400_is_a_bad_request() {
    let error = AltertableError::from_status(context(), 400, String::new());
    assert!(matches!(error, AltertableError::BadRequestError { .. }));
    assert_eq!(error.to_string(), "request failed with status 400 Bad Request");
}

#[test]
fn other_statuses_are_api_errors_keeping_the_body() {
    let error = AltertableError::from_status(context(), 404, "Catalog \"demo\" does not exist".into());
    match &error {
        AltertableError::ApiError { body, message, .. } => {
            assert_eq!(body.as_deref(), Some("Catalog \"demo\" does not exist"));
            assert_eq!(message, "Catalog \"demo\" does not exist");
        }
        _ => panic!("expected an API error"),
    }
    let error = AltertableError::from_status(context(), 599, String::new());
    match &error {
        AltertableError::ApiError { body, .. } => assert!(body.is_none()),
        _ => panic!("expected an API error"),
    }
    assert_eq!(error.to_string(), "request failed with status 599 <unknown status code>");
}

#[test]
fn context_is_absent_only_for_configuration_errors() {
    let error = AltertableError::ConfigurationError { message: "m".into() };
    assert!(error.context().is_none());
    let error = AltertableError::from_status(context(), 500, "x".into());
    assert_eq!(error.context().unwrap().path, "/append");
}

#[test]
fn parse_error_shows_its_line() {
    let error = AltertableError::ParseError {
        context: context(),
        message: "bad".into(),
        line: Some(12),
        source: None,
    };
    assert_eq!(error.to_string(), "bad (line 12)");
    let error = AltertableError::ParseError { context: context(), message: "bad".into(), line: None, source: None };
    assert_eq!(error.to_string(), "bad");
}

#[test]
fn methods_map_to_static_names() {
    assert_eq!(method_to_static("GET"), "GET");
    assert_eq!(method_to_static("POST"), "POST");
    assert_eq!(method_to_static("DELETE"), "DELETE");
    assert_eq!(method_to_static("PATCH"), "UNKNOWN");
    assert_eq!(method_to_static("get"), "UNKNOWN");
}

#[test]
fn blank_values_are_rejected() {
    assert!(ensure_non_empty("table", "t").is_ok());
    let error = ensure_non_empty("table", " \t\u{a0}\u{3000}").unwrap_err();
    assert_eq!(error.to_string(), "table must not be empty");
}

#[test]
fn text_helpers() {
    assert_eq!(decimal_string(0), "0");
    assert_eq!(decimal_string(1200), "1200");
    assert_eq!(decimal_string(u64::MAX), u64::MAX.to_string());
    assert_eq!(trimmed("\u{2028} a b\r\n"), "a b");
}

#[test]
fn response_status_checks() {
    let client = AltertableClient::builder()
        .credentials("u", "p")
        .base_url("http://localhost:15000")
        .build(EnvCredentials { basic_auth_token: None, username: None, password: None })
        .unwrap();
    let plan = client.append("c", "s", "t").unwrap();
    let meta = ResponseMeta { status: 200, request_id: None, correlation_id: Some("c-9".into()) };
    assert_eq!(plan.check_status(meta, "{}".into()).unwrap(), "{}");
    let meta = ResponseMeta { status: 502, request_id: Some("r".into()), correlation_id: None };
    let error = plan.check_status(meta, String::new()).unwrap_err();
    let context = error.context().unwrap();
    assert_eq!(context.operation, "append");
    assert_eq!(context.method, "POST");
    assert_eq!(context.status, Some(502));
    assert!(context.retriable);
    assert_eq!(context.request_id.as_deref(), Some("r"));
    assert_eq!(error.to_string(), "request failed with status 502 Bad Gateway");
    let bad = serde_json::from_str::<serde_json::Value>("nope").unwrap_err();
    let meta = ResponseMeta { status: 200, request_id: None, correlation_id: None };
    let error = plan.decode_error(meta, bad);
    assert_eq!(error.to_string(), "failed to decode JSON response for append");
    assert!(!error.context().unwrap().retriable);
}

#[test]
fn response_headers_give_the_ids() {
    let mut headers = reqwest::header::HeaderMap::new();
    headers.insert("x-request-id", reqwest::header::HeaderValue::from_static("req-7"));
    headers.insert(
        "x-correlation-id",
        reqwest::header::HeaderValue::from_bytes(b"caf\xc3\xa9").unwrap(),
    );
    let meta = ResponseMeta::from_headers(404, &headers);
    assert_eq!(meta.status, 404);
    assert_eq!(meta.request_id.as_deref(), Some("req-7"));
    assert_eq!(meta.correlation_id, None);
    let meta = ResponseMeta::from_headers(200, &reqwest::header::HeaderMap::new());
    assert!(meta.request_id.is_none());
}

#[test]
fn only_transport_and_decoding_errors_have_a_source() {
    let bad = serde_json::from_str::<serde_json::Value>("{").unwrap_err();
    let parse = AltertableError::ParseError {
        context: ErrorContext::default(),
        message: "x".into(),
        line: None,
        source: Some(altertable_lakehouse::error::ErrorSource::Json(bad)),
    };
    assert!(matches!(parse.source(), Some(altertable_lakehouse::error::ErrorSource::Json(_))));
    let api = AltertableError::ApiError { context: ErrorContext::default(), message: "x".into(), body: None };
    assert!(api.source().is_none());
    let config = AltertableError::ConfigurationError { message: "x".into() };
    assert!(config.source().is_none());
    let network = AltertableError::NetworkError { context: ErrorContext::default(), message: "x".into(), source: None };
    assert!(network.source().is_none());
}
