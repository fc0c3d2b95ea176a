use altertable_lakehouse::query::{
    columns_payload, decode_query_body, finish_query, is_columns_line, parse_metadata,
    query_failure, query_read, scan_lines, scan_value, QueryRead,
};
use altertable_lakehouse::{AltertableError, ErrorContext, QueryColumn, ResponseMeta};
use serde_json::Value;
use std::collections::HashMap;

fn json(text: &str) -> Value {
    serde_json::from_str(text).unwrap()
}

fn meta(status: u16) -> ResponseMeta {
    ResponseMeta { status, request_id: Some("req-1".into()), correlation_id: None }
}

#[test]
fn parses_query_lines() {
    let metadata = parse_metadata(&json(r#"{"query_id":"123"}"#));
    assert_eq!(metadata.values["query_id"], json(r#""123""#));

    let payload = columns_payload(&json(r#"[{"name":"value","data_type":"Int32","nullable":false}]"#));
    let columns: Vec<Value> = serde_json::from_value(payload).unwrap();
    assert_eq!(columns[0]["name"], json(r#""value""#));
}

#[test]
fn metadata_of_a_non_object_is_kept_under_value() {
    let metadata = parse_metadata(&json("[1,2]"));
    assert_eq!(metadata.values.len(), 1);
    assert_eq!(metadata.values["value"], json("[1,2]"));
}

#[test]
fn recognises_column_lines() {
    assert!(is_columns_line(&json(r#"[{"name":"a"},{"name":"b"}]"#)));
    assert!(is_columns_line(&json("[]")));
    assert!(!is_columns_line(&json(r#"[{"name":"a"},1]"#)));
    assert!(is_columns_line(&json(r#"{"columns":[]}"#)));
    assert!(!is_columns_line(&json(r#"{"columns":{}}"#)));
    assert!(!is_columns_line(&json(r#""columns""#)));
    assert_eq!(columns_payload(&json(r#"{"columns":[{"name":"x"}]}"#)), json(r#"[{"name":"x"}]"#));
    assert_eq!(columns_payload(&json("3")), Value::Null);
}

#[test]
fn scans_metadata_columns_and_rows() {
    let body = "{\"query_id\":\"q\",\"session_id\":\"s\"}\r\n\n[{\"name\":\"value\"}]\n[\"1\"]\n  \n[1]\n";
    let scanned = scan_lines(body, ErrorContext::default());
    assert!(scanned.failure.is_none());
    assert_eq!(scanned.metadata.values["query_id"], json(r#""q""#));
    assert_eq!(scanned.columns, Some(json(r#"[{"name":"value"}]"#)));
    assert_eq!(scanned.rows, vec![json(r#"["1"]"#), json("[1]")]);
}

#[test]
fn only_the_first_column_line_is_taken() {
    let body = "{}\n[]\n[]\n{\"columns\":[]}";
    let scanned = scan_lines(body, ErrorContext::default());
    assert_eq!(scanned.columns, Some(json("[]")));
    assert_eq!(scanned.rows, vec![json("[]"), json(r#"{"columns":[]}"#)]);
}

#[test]
fn empty_body_gives_empty_result() {
    let scanned = scan_lines(" \n\n\t", ErrorContext::default());
    assert!(scanned.failure.is_none());
    assert!(scanned.metadata.values.is_empty());
    assert!(scanned.columns.is_none());
    assert!(scanned.rows.is_empty());
}

#[test]
fn bad_line_reports_its_number() {
    let scanned = decode_query_body(meta(200), b"{\"a\":1}\n\n not json \n[2]".to_vec()).unwrap();
    let error = scanned.failure.unwrap();
    assert_eq!(error.to_string(), "failed to parse NDJSON line: not json (line 3)");
    match &error {
        AltertableError::ParseError { context, line, .. } => {
            assert_eq!(*line, Some(3));
            assert_eq!(context.operation, "query");
            assert_eq!(context.method, "POST");
            assert_eq!(context.path, "/query");
            assert_eq!(context.status, Some(200));
            assert!(!context.retriable);
            assert_eq!(context.request_id.as_deref(), Some("req-1"));
        }
        _ => panic!("expected a parse error"),
    }
}

#[test]
fn invalid_utf8_is_a_parse_error() {
    let error = match decode_query_body(meta(200), vec![0x7b, 0xff, 0x7d]) {
        Ok(_) => panic!("expected an error"),
        Err(error) => error,
    };
    assert_eq!(error.to_string(), "query response was not valid UTF-8");
    assert!(matches!(error, AltertableError::ParseError { line: None, .. }));
}

#[test]
fn finish_collects_all_rows() {
    let scanned = scan_lines("{\"q\":1}\n[{\"name\":\"v\"}]\n[1]\n[2]", ErrorContext::default());
    let columns = vec![QueryColumn {
        name: "v".into(),
        data_type: None,
        nullable: None,
        extra: HashMap::new(),
    }];
    let result = finish_query(scanned, Some(Ok(columns.clone()))).unwrap();
    assert_eq!(result.columns, columns);
    assert_eq!(result.rows, vec![json("[1]"), json("[2]")]);
    assert_eq!(result.metadata.values["q"], json("1"));
}

#[test]
fn column_error_comes_before_a_later_bad_line() {
    let scanned = scan_lines("{}\n[{\"name\":1}]\nbad", ErrorContext::default());
    assert!(scanned.failure.is_some());
    let bad_columns = serde_json::from_str::<Value>("{").unwrap_err();
    let error = finish_query(scanned, Some(Err(bad_columns))).unwrap_err();
    assert_eq!(error.to_string(), "failed to parse query columns");
    let scanned = scan_lines("{}\n[{\"name\":\"x\"}]\nbad", ErrorContext::default());
    let error = finish_query(scanned, Some(Ok(vec![]))).unwrap_err();
    assert_eq!(error.to_string(), "failed to parse NDJSON line: bad (line 3)");
}

#[test]
fn failed_query_status_maps_to_error() {
    let error = query_failure(meta(403), "denied".into());
    assert!(matches!(error, AltertableError::AuthError { .. }));
    assert_eq!(error.to_string(), "denied");
    let error = query_failure(meta(503), String::new());
    assert_eq!(error.to_string(), "request failed with status 503 Service Unavailable");
    assert!(error.context().unwrap().retriable);
}

#[test]
fn carriage_returns_do_not_change_lines() {
    let a = scan_lines("{\"m\":1}\r\n[3]\r\n", ErrorContext::default());
    let b = scan_lines("{\"m\":1}\n[3]\n", ErrorContext::default());
    assert_eq!(a.rows, b.rows);
    assert_eq!(a.metadata, b.metadata);
}

#[test]
fn scan_value_fills_metadata_then_columns_then_rows() {
    let mut metadata = None;
    let mut columns = None;
    let mut rows = Vec::new();
    scan_value(&mut metadata, &mut columns, &mut rows, json("{\"k\":1}"));
    scan_value(&mut metadata, &mut columns, &mut rows, json("[{\"name\":\"a\"}]"));
    scan_value(&mut metadata, &mut columns, &mut rows, json("[{\"name\":\"b\"}]"));
    scan_value(&mut metadata, &mut columns, &mut rows, json("[1]"));
    assert_eq!(metadata, Some(json("{\"k\":1}")));
    assert_eq!(columns, Some(json("[{\"name\":\"a\"}]")));
    assert_eq!(rows, vec![json("[{\"name\":\"b\"}]"), json("[1]")]);
}

#[test]
fn query_status_decides_how_the_body_is_read() {
    let ok = ResponseMeta { status: 200, request_id: None, correlation_id: None };
    assert!(matches!(query_read(&ok), QueryRead::Ndjson));
    let failed = ResponseMeta { status: 503, request_id: None, correlation_id: None };
    assert!(matches!(query_read(&failed), QueryRead::FailureText));
    let redirect = ResponseMeta { status: 302, request_id: None, correlation_id: None };
    assert!(matches!(query_read(&redirect), QueryRead::FailureText));
}
