use altertable_lakehouse::client::{build_auth_header, resolve_auth};
use altertable_lakehouse::query::scan_lines;
use altertable_lakehouse::{AltertableClient, AuthConfig, EnvCredentials, ErrorContext};

fn env_with_user() -> EnvCredentials {
    EnvCredentials {
        basic_auth_token: None,
        username: Some("env-user".into()),
        password: Some("env-pass".into()),
    }
}

#[test]
fn given_credentials_win_over_the_environment() {
    match resolve_auth(Some("me".into()), Some("secret".into()), None, env_with_user()).unwrap() {
        AuthConfig::Basic { username, password } => {
            assert_eq!(username, "me");
            assert_eq!(password, "secret");
        }
        AuthConfig::BasicToken(_) => panic!("expected basic auth"),
    }
}

#[test]
fn given_token_ignores_the_environment() {
    let with_env = resolve_auth(None, None, Some("tok".into()), env_with_user()).unwrap();
    let without = resolve_auth(
        None,
        None,
        Some("tok".into()),
        EnvCredentials { basic_auth_token: Some("other".into()), username: None, password: None },
    )
    .unwrap();
    match (with_env, without) {
        (AuthConfig::BasicToken(a), AuthConfig::BasicToken(b)) => assert_eq!(a, b),
        _ => panic!("expected tokens"),
    }
}

#[test]
fn header_reused_as_token_is_unchanged() {
    let auth = AuthConfig::Basic { username: "user".into(), password: "pass".into() };
    let header = build_auth_header(&auth).unwrap();
    let text = header.to_str().unwrap().to_string();
    let again = build_auth_header(&AuthConfig::BasicToken(text.clone())).unwrap();
    assert_eq!(again.to_str().unwrap(), text);
}

#[test]
fn first_bad_line_is_reported() {
    let scanned = scan_lines("{}\nbad one\n[1]\nbad two", ErrorContext::default());
    assert_eq!(
        scanned.failure.unwrap().to_string(),
        "failed to parse NDJSON line: bad one (line 2)"
    );
}

#[test]
fn later_lines_only_add_rows() {
    let short = scan_lines("{}\n[1]\n[2]", ErrorContext::default());
    let long = scan_lines("{}\n[1]\n[2]\n[3]\n[]", ErrorContext::default());
    assert_eq!(long.rows[..short.rows.len()], short.rows[..]);
    assert_eq!(long.metadata, short.metadata);
    assert_eq!(long.rows.len(), 3);
    assert!(short.columns.is_none());
    assert_eq!(long.columns, Some(serde_json::Value::Array(vec![])));
}

#[test]
fn trailing_blank_line_changes_nothing() {
    let a = scan_lines("{\"k\":1}\n[1]", ErrorContext::default());
    let b = scan_lines("{\"k\":1}\n[1]\n \t ", ErrorContext::default());
    assert_eq!(a.rows, b.rows);
    assert_eq!(a.metadata, b.metadata);
    assert!(b.failure.is_none());
}

#[test]
fn transport_error_keeps_message_and_source() {
    let client = AltertableClient::builder()
        .credentials("u", "p")
        .base_url("http://localhost:15000")
        .build(EnvCredentials { basic_auth_token: None, username: None, password: None })
        .unwrap();
    let plan = client.get_query("q1").unwrap();
    let failing = || reqwest::Client::new().get("not a url").build().unwrap_err();
    let expected = failing().to_string();
    let error = plan.transport_error(failing());
    assert_eq!(error.to_string(), expected);
    match &error {
        altertable_lakehouse::AltertableError::NetworkError { context, source, .. } => {
            assert_eq!(context.operation, "get_query");
            assert_eq!(context.method, "GET");
            assert_eq!(context.path, "/query/q1");
            assert_eq!(context.status, None);
            assert!(source.is_some());
        }
        _ => panic!("expected a network error"),
    }
}

#[test]
fn blank_line_between_lines_changes_nothing() {
    let a = scan_lines("{\"k\":1}\n[1]\n[2]", ErrorContext::default());
    let b = scan_lines("{\"k\":1}\n[1]\n \t\n[2]", ErrorContext::default());
    assert_eq!(a.rows, b.rows);
    assert_eq!(a.metadata, b.metadata);
    assert_eq!(b.rows.len(), 2);
    assert!(b.failure.is_none());
}

#[test]
fn leading_blank_line_changes_nothing() {
    let a = scan_lines("{\"k\":1}\n[1]", ErrorContext::default());
    let b = scan_lines("  \n{\"k\":1}\n[1]", ErrorContext::default());
    assert_eq!(a.rows, b.rows);
    assert_eq!(a.metadata, b.metadata);
    assert!(b.failure.is_none());
}

#[test]
fn blank_line_only_renumbers_a_bad_line() {
    let a = scan_lines("{}\nbad", ErrorContext::default());
    let b = scan_lines("{}\n \nbad", ErrorContext::default());
    assert_eq!(a.failure.unwrap().to_string(), "failed to parse NDJSON line: bad (line 2)");
    assert_eq!(b.failure.unwrap().to_string(), "failed to parse NDJSON line: bad (line 3)");
}

#[test]
fn white_space_around_a_line_changes_nothing() {
    let a = scan_lines("{\"k\":1}\n[1]\n[2]", ErrorContext::default());
    let b = scan_lines("{\"k\":1}\n \t[1]\r\n[2]", ErrorContext::default());
    assert_eq!(a.rows, b.rows);
    assert_eq!(a.metadata, b.metadata);
    assert!(b.failure.is_none());
}

#[test]
fn layout_of_a_body_changes_nothing() {
    let a = scan_lines("{\"k\":1}\n[{\"name\":\"x\"}]\n[1]\n[2]", ErrorContext::default());
    let b = scan_lines(
        "\n {\"k\":1}\r\n\n\t[{\"name\":\"x\"}] \r\n  \n[1]\r\n[2]\r\n\n",
        ErrorContext::default(),
    );
    assert_eq!(a.metadata, b.metadata);
    assert_eq!(a.columns, b.columns);
    assert_eq!(a.rows, b.rows);
    assert!(a.failure.is_none() && b.failure.is_none());
}
