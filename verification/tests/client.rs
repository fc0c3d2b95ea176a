use altertable_lakehouse::client::{build_auth_header, resolve_auth};
use altertable_lakehouse::{
    AltertableClient, AuthConfig, EnvCredentials, HttpMethod, QueryRequest, RequestBody,
    RetryConfig, UploadFormat, UploadMode, ValidateRequest,
};
use std::time::Duration;

fn no_env() -> EnvCredentials {
    EnvCredentials { basic_auth_token: None, username: None, password: None }
}

fn client() -> AltertableClient {
    AltertableClient::builder()
        .credentials("user", "pass")
        .base_url("http://localhost:15000")
        .build(no_env())
        .unwrap()
}

#[test]
fn resolves_direct_credentials() {
    let auth = resolve_auth(Some("user".into()), Some("pass".into()), None, no_env()).unwrap();
    match auth {
        AuthConfig::Basic { username, password } => {
            assert_eq!(username, "user");
            assert_eq!(password, "pass");
        }
        AuthConfig::BasicToken(_) => panic!("expected basic auth"),
    }
}

#[test]
fn resolves_basic_token() {
    let auth = resolve_auth(None, None, Some("abc123".into()), no_env()).unwrap();
    let header = build_auth_header(&auth).unwrap();
    assert_eq!(header.to_str().unwrap(), "Basic abc123");
}

#[test]
fn upload_mode_upsert_requires_primary_key() {
    let client = client();
    let error = client
        .upload(
            "catalog",
            "schema",
            "table",
            UploadFormat::Json,
            UploadMode::Upsert,
            None,
            br#"{"id":1}"#.to_vec(),
        )
        .unwrap_err();
    assert!(error.to_string().contains("primary_key is required"));
}

#[test]
fn validate_request_requires_statement() {
    let client = client();
    let error = client.validate(&ValidateRequest::default()).unwrap_err();
    assert!(error.to_string().contains("statement must not be empty"));
}

#[test]
fn query_stream_can_be_consumed_from_manual_result() {
    let client = client();
    let error = match client.query(&QueryRequest::default()) {
        Ok(_) => panic!("expected empty statement to fail"),
        Err(error) => error,
    };
    assert!(error.to_string().contains("statement must not be empty"));

    let rows: Vec<serde_json::Value> = vec![
        serde_json::from_str(r#"{"value": 1}"#).unwrap(),
        serde_json::from_str(r#"{"value": 2}"#).unwrap(),
    ];
    let mut seen = Vec::new();
    for row in rows {
        seen.push(row);
    }
    assert_eq!(seen.len(), 2);
}

#[test]
fn basic_credentials_encode_to_base64() {
    let auth = resolve_auth(Some("user".into()), Some("pass".into()), None, no_env()).unwrap();
    let header = build_auth_header(&auth).unwrap();
    assert_eq!(header.to_str().unwrap(), "Basic dXNlcjpwYXNz");
    assert!(header.is_sensitive());
}

#[test]
fn short_credentials_are_padded() {
    let one = AuthConfig::Basic { username: "ab".into(), password: "c".into() };
    assert_eq!(build_auth_header(&one).unwrap().to_str().unwrap(), "Basic YWI6Yw==");
    let two = AuthConfig::Basic { username: "a".into(), password: "bcd".into() };
    assert_eq!(build_auth_header(&two).unwrap().to_str().unwrap(), "Basic YTpiY2Q=");
}

#[test]
fn token_with_basic_prefix_is_kept() {
    let auth = AuthConfig::BasicToken("Basic xyz".into());
    let header = build_auth_header(&auth).unwrap();
    assert_eq!(header.to_str().unwrap(), "Basic xyz");
    let again = build_auth_header(&AuthConfig::BasicToken("Basic xyz".into())).unwrap();
    assert_eq!(again.to_str().unwrap(), header.to_str().unwrap());
}

#[test]
fn token_with_newline_is_rejected() {
    let error = build_auth_header(&AuthConfig::BasicToken("a\nb".into())).unwrap_err();
    assert_eq!(
        error.to_string(),
        "invalid authorization header value: failed to parse header value"
    );
}

#[test]
fn token_is_trimmed_and_wins_over_credentials() {
    let env = EnvCredentials {
        basic_auth_token: Some("  envtoken \n".into()),
        username: Some("u".into()),
        password: Some("p".into()),
    };
    let auth = resolve_auth(Some("user".into()), Some("pass".into()), None, env).unwrap();
    match auth {
        AuthConfig::BasicToken(token) => assert_eq!(token, "envtoken"),
        AuthConfig::Basic { .. } => panic!("expected a token"),
    }
}

#[test]
fn blank_token_is_an_error() {
    let error = resolve_auth(None, None, Some("   ".into()), no_env()).unwrap_err();
    assert_eq!(error.to_string(), "ALTERTABLE_BASIC_AUTH_TOKEN must not be empty");
    assert!(error.context().is_none());
}

#[test]
fn credentials_come_from_the_environment() {
    let env = EnvCredentials {
        basic_auth_token: None,
        username: Some("envuser".into()),
        password: Some("envpass".into()),
    };
    match resolve_auth(None, Some("given".into()), None, env).unwrap() {
        AuthConfig::Basic { username, password } => {
            assert_eq!(username, "envuser");
            assert_eq!(password, "given");
        }
        AuthConfig::BasicToken(_) => panic!("expected basic auth"),
    }
}

#[test]
fn missing_or_empty_credentials_are_an_error() {
    let message = "no Altertable credentials configured; set username/password or ALTERTABLE_BASIC_AUTH_TOKEN";
    let error = resolve_auth(Some("user".into()), None, None, no_env()).unwrap_err();
    assert_eq!(error.to_string(), message);
    let error = resolve_auth(Some("".into()), Some("pass".into()), None, no_env()).unwrap_err();
    assert_eq!(error.to_string(), message);
}

#[test]
fn builder_applies_defaults() {
    let client = AltertableClient::from_env(EnvCredentials {
        basic_auth_token: Some("tok".into()),
        username: None,
        password: None,
    })
    .unwrap();
    let config = client.config();
    assert_eq!(config.base_url, "https://api.altertable.ai");
    assert_eq!(config.connect_timeout, Duration::from_secs(5));
    assert_eq!(config.request_timeout, Duration::from_secs(60));
    assert_eq!(config.retry, RetryConfig { max_retries: 0, retry_on_timeout: true, retry_on_5xx: false });
    assert_eq!(config.user_agent_suffix, None);
    assert_eq!(client.user_agent(), "altertable-lakehouse/0.2.0");
    assert_eq!(client.auth_header().to_str().unwrap(), "Basic tok");
}

#[test]
fn builder_keeps_settings() {
    let retry = RetryConfig { max_retries: 3, retry_on_timeout: false, retry_on_5xx: true };
    let client = AltertableClient::builder()
        .basic_token("t")
        .base_url("http://example.test/")
        .connect_timeout(Duration::from_secs(1))
        .request_timeout(Duration::from_secs(2))
        .retry(retry.clone())
        .user_agent_suffix("tests")
        .build(no_env())
        .unwrap();
    let config = client.config();
    assert_eq!(config.base_url, "http://example.test/");
    assert_eq!(config.connect_timeout, Duration::from_secs(1));
    assert_eq!(config.request_timeout, Duration::from_secs(2));
    assert_eq!(config.retry, retry);
    assert_eq!(client.user_agent(), "altertable-lakehouse/0.2.0 tests");
}

#[test]
fn build_without_credentials_fails() {
    let error = AltertableClient::builder().build(no_env()).unwrap_err();
    assert!(error.to_string().starts_with("no Altertable credentials configured"));
}

#[test]
fn retry_config_default() {
    let retry = RetryConfig::default();
    assert_eq!(retry.max_retries, 0);
    assert!(retry.retry_on_timeout);
    assert!(!retry.retry_on_5xx);
}

#[test]
fn url_drops_trailing_slashes_of_base() {
    let client = AltertableClient::builder()
        .credentials("u", "p")
        .base_url("http://localhost:15000///")
        .build(no_env())
        .unwrap();
    assert_eq!(client.request_url("/query"), "http://localhost:15000/query");
    let plain = client_at("http://localhost:15000");
    assert_eq!(plain.request_url("/query"), client.request_url("/query"));
}

fn client_at(base: &str) -> AltertableClient {
    AltertableClient::builder().credentials("u", "p").base_url(base).build(no_env()).unwrap()
}

#[test]
fn append_plan() {
    let plan = client().append("demo", "public", "events").unwrap();
    assert_eq!(plan.operation, "append");
    assert_eq!(plan.method, HttpMethod::Post);
    assert_eq!(plan.url, "http://localhost:15000/append");
    assert_eq!(
        plan.query,
        vec![
            ("catalog".to_string(), "demo".to_string()),
            ("schema".to_string(), "public".to_string()),
            ("table".to_string(), "events".to_string()),
        ]
    );
    assert!(matches!(plan.body, RequestBody::Json));
}

#[test]
fn append_checks_fields_in_order() {
    let error = client().append("demo", " ", "").unwrap_err();
    assert_eq!(error.to_string(), "schema must not be empty");
    let error = client().append("\t", " ", "").unwrap_err();
    assert_eq!(error.to_string(), "catalog must not be empty");
}

#[test]
fn upload_plan() {
    let plan = client()
        .upload("demo", "public", "users", UploadFormat::Csv, UploadMode::Upsert, Some("id"), b"id\n1\n".to_vec())
        .unwrap();
    assert_eq!(plan.url, "http://localhost:15000/upload");
    assert_eq!(plan.content_type, Some("application/octet-stream"));
    let query: Vec<(&str, &str)> = plan.query.iter().map(|(k, v)| (k.as_str(), v.as_str())).collect();
    assert_eq!(
        query,
        vec![
            ("catalog", "demo"),
            ("schema", "public"),
            ("table", "users"),
            ("format", "csv"),
            ("mode", "upsert"),
            ("primary_key", "id"),
        ]
    );
    match plan.body {
        RequestBody::Bytes(bytes) => assert_eq!(bytes, b"id\n1\n".to_vec()),
        _ => panic!("expected bytes"),
    }
    let plan = client()
        .upload("demo", "public", "users", UploadFormat::Parquet, UploadMode::Overwrite, None, vec![])
        .unwrap();
    assert_eq!(plan.query.len(), 5);
    assert_eq!(plan.query[3].1, "parquet");
    assert_eq!(plan.query[4].1, "overwrite");
}

#[test]
fn query_log_and_cancel_plans() {
    let plan = client().get_query("abc").unwrap();
    assert_eq!(plan.method, HttpMethod::Get);
    assert_eq!(plan.path, "/query/abc");
    assert!(plan.query.is_empty());
    let plan = client().cancel_query("abc", "s1").unwrap();
    assert_eq!(plan.method, HttpMethod::Delete);
    assert_eq!(plan.method.as_str(), "DELETE");
    assert_eq!(plan.url, "http://localhost:15000/query/abc");
    assert_eq!(plan.query, vec![("session_id".to_string(), "s1".to_string())]);
    let error = client().cancel_query("abc", "").unwrap_err();
    assert_eq!(error.to_string(), "session_id must not be empty");
    let error = client().get_query(" ").unwrap_err();
    assert_eq!(error.to_string(), "query_id must not be empty");
}

#[test]
fn query_plan_asks_for_ndjson() {
    let request = QueryRequest { statement: "select 1".into(), ..Default::default() };
    let plan = client().query(&request).unwrap();
    assert_eq!(plan.accept, Some("application/x-ndjson"));
    assert_eq!(plan.path, "/query");
    let plan = client()
        .validate(&ValidateRequest { statement: "select 1".into(), ..Default::default() })
        .unwrap();
    assert_eq!(plan.path, "/validate");
    assert_eq!(plan.accept, None);
}
