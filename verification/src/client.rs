//! The client: its configuration, its builder and its credentials, and
//! the `Authorization` header built from them.
use crate::error::{http_error_message, http_error_text, opt_text, AltertableError, ErrorView};
use crate::text::{starts_with, trim};
use crate::transport::{
    base64_encode, base64_standard, build_http_client, duration_of_secs, header_byte_ok,
    http_client_settings,
    header_bytes_ok, header_value_contents, header_value_from_str, header_value_set_sensitive,
    invalid_header_value_message, is_base64_char, lemma_base64_alphabet,
};
use reqwest::header::HeaderValue;
use std::time::Duration;
use vstd::prelude::*;
use vstd::string::StringExecFns;
use vstd::utf8::{encode_utf8, is_ascii_chars, is_ascii_chars_encode_utf8};

verus! {

/// The API that a client talks to unless told otherwise.
pub const DEFAULT_BASE_URL: &'static str = "https://api.altertable.ai";

/// The user agent of every request, before any suffix.
pub const DEFAULT_USER_AGENT: &'static str = "altertable-lakehouse/0.2.0";

/// Seconds allowed for connecting, unless configured.
pub const DEFAULT_CONNECT_TIMEOUT_SECS: u64 = 5;

/// Seconds allowed for a whole request, unless configured.
pub const DEFAULT_REQUEST_TIMEOUT_SECS: u64 = 60;

/// Idle connections kept per host.
pub const POOL_MAX_IDLE_PER_HOST: usize = 8;

/// Seconds between TCP keep-alive probes.
pub const TCP_KEEPALIVE_SECS: u64 = 60;

/// When to retry a failed call.
#[derive(Debug, Clone, PartialEq, Eq)]
pub struct RetryConfig {
    pub max_retries: u32,
    pub retry_on_timeout: bool,
    pub retry_on_5xx: bool,
}

impl Default for RetryConfig {
    /// No retries; a timeout counts as retriable, a server error does not.
    fn default() -> (r: Self)
        ensures
            r.max_retries == 0,
            r.retry_on_timeout,
            !r.retry_on_5xx,
    {
        RetryConfig { max_retries: 0, retry_on_timeout: true, retry_on_5xx: false }
    }
}

/// How the client authenticates: a user name and password, or a ready
/// Basic token.
#[derive(Debug, Clone)]
pub enum AuthConfig {
    Basic { username: String, password: String },
    BasicToken(String),
}

/// An `AuthConfig` as text.
pub enum AuthView {
    Basic { username: Seq<char>, password: Seq<char> },
    BasicToken(Seq<char>),
}

impl View for AuthConfig {
    type V = AuthView;

    open spec fn view(&self) -> AuthView {
        match self {
            AuthConfig::Basic { username, password } => AuthView::Basic {
                username: username@,
                password: password@,
            },
            AuthConfig::BasicToken(token) => AuthView::BasicToken(token@),
        }
    }
}

/// Everything a client is built from.
#[derive(Debug, Clone)]
pub struct ClientConfig {
    pub base_url: String,
    pub auth: AuthConfig,
    pub connect_timeout: Duration,
    pub request_timeout: Duration,
    pub retry: RetryConfig,
    pub user_agent_suffix: Option<String>,
}

/// The credentials that the process environment holds
/// (`ALTERTABLE_BASIC_AUTH_TOKEN`, `ALTERTABLE_USERNAME`,
/// `ALTERTABLE_PASSWORD`), each `None` where unset.
#[derive(Debug, Clone)]
pub struct EnvCredentials {
    pub basic_auth_token: Option<String>,
    pub username: Option<String>,
    pub password: Option<String>,
}

/// `EnvCredentials` as text.
pub struct EnvView {
    pub basic_auth_token: Option<Seq<char>>,
    pub username: Option<Seq<char>>,
    pub password: Option<Seq<char>>,
}

impl View for EnvCredentials {
    type V = EnvView;

    open spec fn view(&self) -> EnvView {
        EnvView {
            basic_auth_token: opt_text(self.basic_auth_token),
            username: opt_text(self.username),
            password: opt_text(self.password),
        }
    }
}

/// `a` if it is set, else `b`.
pub open spec fn first_set(a: Option<Seq<char>>, b: Option<Seq<char>>) -> Option<Seq<char>> {
    if a is Some {
        a
    } else {
        b
    }
}

/// How credentials resolve: a token (given, else from the environment)
/// wins and is trimmed, and must not be blank; otherwise a user name and a
/// password (each given, else from the environment) must both be there and
/// non-empty. An error is the message of a configuration error.
pub open spec fn auth_outcome(
    username: Option<Seq<char>>,
    password: Option<Seq<char>>,
    basic_token: Option<Seq<char>>,
    env: EnvView,
) -> Result<AuthView, Seq<char>> {
    match first_set(basic_token, env.basic_auth_token) {
        Some(token) => if trim(token).len() == 0 {
            Err("ALTERTABLE_BASIC_AUTH_TOKEN must not be empty"@)
        } else {
            Ok(AuthView::BasicToken(trim(token)))
        },
        None => {
            let user = first_set(username, env.username);
            let pass = first_set(password, env.password);
            if user is Some && pass is Some && user->0.len() > 0 && pass->0.len() > 0 {
                Ok(AuthView::Basic { username: user->0, password: pass->0 })
            } else {
                Err(
                    "no Altertable credentials configured; set username/password or ALTERTABLE_BASIC_AUTH_TOKEN"@,
                )
            }
        },
    }
}

/// Resolves the credentials of a client from what was given and what the
/// environment holds.
pub fn resolve_auth(
    username: Option<String>,
    password: Option<String>,
    basic_token: Option<String>,
    env: EnvCredentials,
) -> (r: Result<AuthConfig, AltertableError>)
    ensures
        match auth_outcome(opt_text(username), opt_text(password), opt_text(basic_token), env@) {
            Ok(a) => r matches Ok(c) && c@ == a,
            Err(m) => r matches Err(e) && e@ == (ErrorView::Configuration { message: m }),
        },
{
    let token = match basic_token {
        Some(t) => Some(t),
        None => env.basic_auth_token,
    };
    if let Some(token) = token {
        let token = crate::text::trimmed(token.as_str());
        if token.as_str().is_empty() {
            return Err(
                AltertableError::ConfigurationError {
                    message: "ALTERTABLE_BASIC_AUTH_TOKEN must not be empty".to_owned(),
                },
            );
        }
        return Ok(AuthConfig::BasicToken(token));
    }
    let username = match username {
        Some(u) => Some(u),
        None => env.username,
    };
    let password = match password {
        Some(p) => Some(p),
        None => env.password,
    };
    match (username, password) {
        (Some(username), Some(password)) => {
            if !username.as_str().is_empty() && !password.as_str().is_empty() {
                return Ok(AuthConfig::Basic { username, password });
            }
        },
        _ => {},
    }
    Err(
        AltertableError::ConfigurationError {
            message: "no Altertable credentials configured; set username/password or ALTERTABLE_BASIC_AUTH_TOKEN".to_owned(),
        },
    )
}

/// The text of the `Authorization` header for a configuration: `Basic `
/// and the base64 of `user:password`, or the token, with `Basic ` put in
/// front unless it is there already.
pub open spec fn auth_header_text(auth: AuthView) -> Seq<char> {
    match auth {
        AuthView::Basic { username, password } => "Basic "@ + base64_standard(
            encode_utf8(username + ":"@ + password),
        ),
        AuthView::BasicToken(token) => if "Basic "@.len() <= token.len() && token.take(
            "Basic "@.len() as int,
        ) == "Basic "@ {
            token
        } else {
            "Basic "@ + token
        },
    }
}

/// Whether the credentials fit in memory once joined (any string does:
/// no allocation exceeds `isize::MAX` bytes).
pub open spec fn auth_fits(auth: AuthView) -> bool {
    match auth {
        AuthView::Basic { username, password } => encode_utf8(username + ":"@ + password).len()
            <= isize::MAX,
        AuthView::BasicToken(_) => true,
    }
}

/// The message of the error for an authorization header that cannot be built.
pub open spec fn invalid_header_message() -> Seq<char> {
    "invalid authorization header value: "@ + "failed to parse header value"@
}

/// `Basic ` followed by base64 text is visible ASCII, so its bytes may
/// stand in a header.
proof fn lemma_visible_ascii_header(raw: Seq<char>, encoded: Seq<char>)
    requires
        raw == "Basic "@ + encoded,
        forall|i: int| 0 <= i < encoded.len() ==> is_base64_char(#[trigger] encoded[i]),
    ensures
        header_bytes_ok(encode_utf8(raw)),
{
    reveal_strlit("Basic ");
    assert forall|i: int| 0 <= i < raw.len() implies ' ' <= #[trigger] raw[i] <= '~' by {
        if i >= 6 {
            assert(raw[i] == encoded[i - 6]);
        }
    }
    assert(is_ascii_chars(raw));
    is_ascii_chars_encode_utf8(raw);
    assert forall|i: int| 0 <= i < encode_utf8(raw).len() implies header_byte_ok(
        #[trigger] encode_utf8(raw)[i],
    ) by {
        let c = raw[i];
        assert(' ' <= c <= '~');
        assert(encode_utf8(raw)[i] == c as u8);
    }
}

/// Builds the `Authorization` header, marked sensitive.
pub fn build_auth_header(auth: &AuthConfig) -> (r: Result<HeaderValue, AltertableError>)
    requires
        auth_fits(auth@),
    ensures
        (r is Ok) == header_bytes_ok(encode_utf8(auth_header_text(auth@))),
        r matches Ok(v) ==> header_value_contents(v) == (encode_utf8(auth_header_text(auth@)), true),
        r matches Err(e) ==> e@ == (ErrorView::Configuration { message: invalid_header_message() }),
        auth@ is Basic ==> r is Ok,
{
    let raw = match auth {
        AuthConfig::Basic { username, password } => {
            let mut credentials = username.clone();
            credentials.append(":");
            credentials.append(password.as_str());
            let bytes = credentials.as_str().as_bytes();
            let encoded = base64_encode(bytes);
            let mut raw = "Basic ".to_owned();
            raw.append(encoded.as_str());
            proof {
                lemma_base64_alphabet(bytes@);
                lemma_visible_ascii_header(raw@, encoded@);
            }
            raw
        },
        AuthConfig::BasicToken(token) => {
            if starts_with(token.as_str(), "Basic ") {
                token.clone()
            } else {
                let mut raw = "Basic ".to_owned();
                raw.append(token.as_str());
                raw
            }
        },
    };
    assert(raw@ == auth_header_text(auth@));
    match header_value_from_str(raw.as_str()) {
        Ok(value) => {
            let mut value = value;
            header_value_set_sensitive(&mut value, true);
            Ok(value)
        },
        Err(error) => {
            let mut message = "invalid authorization header value: ".to_owned();
            message.append(invalid_header_value_message(&error).as_str());
            Err(AltertableError::ConfigurationError { message })
        },
    }
}


/// The builder of a client. Anything left unset falls back to the
/// environment (credentials) or to the defaults.
#[derive(Debug, Clone)]
pub struct ClientBuilder {
    base_url: Option<String>,
    username: Option<String>,
    password: Option<String>,
    basic_token: Option<String>,
    connect_timeout: Option<Duration>,
    request_timeout: Option<Duration>,
    retry: Option<RetryConfig>,
    user_agent_suffix: Option<String>,
}

/// What a `ClientBuilder` has been given.
pub struct BuilderView {
    pub base_url: Option<Seq<char>>,
    pub username: Option<Seq<char>>,
    pub password: Option<Seq<char>>,
    pub basic_token: Option<Seq<char>>,
    pub connect_timeout: Option<Duration>,
    pub request_timeout: Option<Duration>,
    pub retry: Option<RetryConfig>,
    pub user_agent_suffix: Option<Seq<char>>,
}

impl View for ClientBuilder {
    type V = BuilderView;

    closed spec fn view(&self) -> BuilderView {
        BuilderView {
            base_url: opt_text(self.base_url),
            username: opt_text(self.username),
            password: opt_text(self.password),
            basic_token: opt_text(self.basic_token),
            connect_timeout: self.connect_timeout,
            request_timeout: self.request_timeout,
            retry: self.retry,
            user_agent_suffix: opt_text(self.user_agent_suffix),
        }
    }
}

/// A builder with nothing set.
pub open spec fn empty_builder() -> BuilderView {
    BuilderView {
        base_url: None,
        username: None,
        password: None,
        basic_token: None,
        connect_timeout: None,
        request_timeout: None,
        retry: None,
        user_agent_suffix: None,
    }
}

impl Default for ClientBuilder {
    fn default() -> (r: Self)
        ensures
            r@ == empty_builder(),
    {
        ClientBuilder {
            base_url: None,
            username: None,
            password: None,
            basic_token: None,
            connect_timeout: None,
            request_timeout: None,
            retry: None,
            user_agent_suffix: None,
        }
    }
}

/// A view of a client configuration.
pub struct ConfigView {
    pub base_url: Seq<char>,
    pub auth: AuthView,
    pub connect_timeout: Duration,
    pub request_timeout: Duration,
    pub retry: RetryConfig,
    pub user_agent_suffix: Option<Seq<char>>,
}

impl View for ClientConfig {
    type V = ConfigView;

    open spec fn view(&self) -> ConfigView {
        ConfigView {
            base_url: self.base_url@,
            auth: self.auth@,
            connect_timeout: self.connect_timeout,
            request_timeout: self.request_timeout,
            retry: self.retry,
            user_agent_suffix: opt_text(self.user_agent_suffix),
        }
    }
}

/// `value` if set, else `default`.
pub open spec fn or_default<T>(value: Option<T>, default: T) -> T {
    match value {
        Some(v) => v,
        None => default,
    }
}

/// The configuration that a builder resolves to, once its credentials have
/// resolved to `auth`: every unset setting takes its default.
pub open spec fn builder_config(b: BuilderView, auth: AuthView) -> ConfigView {
    ConfigView {
        base_url: or_default(b.base_url, DEFAULT_BASE_URL@),
        auth,
        connect_timeout: or_default(b.connect_timeout, duration_of_secs(DEFAULT_CONNECT_TIMEOUT_SECS)),
        request_timeout: or_default(b.request_timeout, duration_of_secs(DEFAULT_REQUEST_TIMEOUT_SECS)),
        retry: or_default(b.retry, RetryConfig { max_retries: 0, retry_on_timeout: true, retry_on_5xx: false }),
        user_agent_suffix: b.user_agent_suffix,
    }
}

/// The credentials that a builder resolves to in an environment.
pub open spec fn builder_auth(b: BuilderView, env: EnvView) -> Result<AuthView, Seq<char>> {
    auth_outcome(b.username, b.password, b.basic_token, env)
}

/// Whether the credentials that a builder resolves to fit in memory.
pub open spec fn builder_fits(b: BuilderView, env: EnvView) -> bool {
    builder_auth(b, env) matches Ok(a) ==> auth_fits(a)
}

impl ClientBuilder {
    /// A builder with nothing set.
    pub fn new() -> (r: Self)
        ensures
            r@ == empty_builder(),
    {
        Self::default()
    }

    /// Sets the base URL of the API.
    pub fn base_url(self, base_url: &str) -> (r: Self)
        ensures
            r@ == (BuilderView { base_url: Some(base_url@), ..self@ }),
    {
        ClientBuilder { base_url: Some(base_url.to_owned()), ..self }
    }

    /// Sets the user name and the password.
    pub fn credentials(self, username: &str, password: &str) -> (r: Self)
        ensures
            r@ == (BuilderView { username: Some(username@), password: Some(password@), ..self@ }),
    {
        ClientBuilder { username: Some(username.to_owned()), password: Some(password.to_owned()), ..self }
    }

    /// Sets a ready Basic token.
    pub fn basic_token(self, token: &str) -> (r: Self)
        ensures
            r@ == (BuilderView { basic_token: Some(token@), ..self@ }),
    {
        ClientBuilder { basic_token: Some(token.to_owned()), ..self }
    }

    /// Sets the connect timeout.
    pub fn connect_timeout(self, timeout: Duration) -> (r: Self)
        ensures
            r@ == (BuilderView { connect_timeout: Some(timeout), ..self@ }),
    {
        ClientBuilder { connect_timeout: Some(timeout), ..self }
    }

    /// Sets the timeout of a whole request.
    pub fn request_timeout(self, timeout: Duration) -> (r: Self)
        ensures
            r@ == (BuilderView { request_timeout: Some(timeout), ..self@ }),
    {
        ClientBuilder { request_timeout: Some(timeout), ..self }
    }

    /// Sets the retry policy.
    pub fn retry(self, retry: RetryConfig) -> (r: Self)
        ensures
            r@ == (BuilderView { retry: Some(retry), ..self@ }),
    {
        ClientBuilder { retry: Some(retry), ..self }
    }

    /// Sets a suffix for the user agent.
    pub fn user_agent_suffix(self, suffix: &str) -> (r: Self)
        ensures
            r@ == (BuilderView { user_agent_suffix: Some(suffix@), ..self@ }),
    {
        ClientBuilder { user_agent_suffix: Some(suffix.to_owned()), ..self }
    }

    /// Builds the client, taking credentials that were not set from `env`.
    pub fn build(self, env: EnvCredentials) -> (r: Result<AltertableClient, AltertableError>)
        requires
            builder_fits(self@, env@),
        ensures
            match builder_auth(self@, env@) {
                Err(m) => r matches Err(e) && e@ == (ErrorView::Configuration { message: m }),
                Ok(a) => client_result(r, builder_config(self@, a)),
            },
            r matches Ok(c) ==> http_client_settings(c.http_view()).0 == match self@.connect_timeout {
                Some(t) => t,
                None => duration_of_secs(5),
            },
            r matches Ok(c) ==> http_client_settings(c.http_view()).1 == match self@.request_timeout {
                Some(t) => t,
                None => duration_of_secs(60),
            },
    {
        let ghost b = self@;
        let auth = resolve_auth(self.username, self.password, self.basic_token, env)?;
        let base_url = match self.base_url {
            Some(url) => url,
            None => DEFAULT_BASE_URL.to_owned(),
        };
        let connect_timeout = match self.connect_timeout {
            Some(t) => t,
            None => Duration::from_secs(DEFAULT_CONNECT_TIMEOUT_SECS),
        };
        let request_timeout = match self.request_timeout {
            Some(t) => t,
            None => Duration::from_secs(DEFAULT_REQUEST_TIMEOUT_SECS),
        };
        let retry = match self.retry {
            Some(r) => r,
            None => RetryConfig::default(),
        };
        let config = ClientConfig {
            base_url,
            auth,
            connect_timeout,
            request_timeout,
            retry,
            user_agent_suffix: self.user_agent_suffix,
        };
        assert(config@ == builder_config(b, config.auth@));
        AltertableClient::from_config(config)
    }
}

/// A client of the Lakehouse API.
#[derive(Debug, Clone)]
pub struct AltertableClient {
    http: reqwest::Client,
    config: ClientConfig,
    auth_header: HeaderValue,
    user_agent: String,
}

/// The user agent for a configured suffix.
pub open spec fn user_agent_text(suffix: Option<Seq<char>>) -> Seq<char> {
    match suffix {
        Some(s) => DEFAULT_USER_AGENT@ + " "@ + s,
        None => DEFAULT_USER_AGENT@,
    }
}

impl AltertableClient {
    /// The configuration the client was built from.
    pub closed spec fn config_view(&self) -> ConfigView {
        self.config@
    }

    /// What the client's `Authorization` header holds.
    pub closed spec fn auth_header_view(&self) -> (Seq<u8>, bool) {
        header_value_contents(self.auth_header)
    }

    /// The client's user agent.
    pub closed spec fn user_agent_view(&self) -> Seq<char> {
        self.user_agent@
    }

    /// The HTTP client that the client was built over.
    pub closed spec fn http_view(&self) -> reqwest::Client {
        self.http
    }
}

/// Whether `client` is what a configuration builds: the configuration
/// kept, the `Authorization` header of its credentials, marked sensitive,
/// and the user agent with its suffix.
pub open spec fn client_from(client: AltertableClient, config: ConfigView) -> bool {
    &&& client.config_view() == config
    &&& client.auth_header_view() == (encode_utf8(auth_header_text(config.auth)), true)
    &&& client.user_agent_view() == user_agent_text(config.user_agent_suffix)
}

/// What building a client from `config` may give: an error only where the
/// HTTP client cannot be built, or the `Authorization` header cannot (never
/// for a user name and password), the error of the header only in that
/// case; otherwise the client of that
/// configuration, over an HTTP client set up with the configured connect and
/// request timeouts, the idle pool size and the TCP keep-alive.
pub open spec fn client_result(
    r: Result<AltertableClient, AltertableError>,
    config: ConfigView,
) -> bool {
    &&& r matches Ok(c) ==> client_from(c, config)
    &&& r matches Ok(c) ==> http_client_settings(c.http_view()) == (
        config.connect_timeout,
        config.request_timeout,
        POOL_MAX_IDLE_PER_HOST,
        duration_of_secs(TCP_KEEPALIVE_SECS),
    )
    &&& !header_bytes_ok(encode_utf8(auth_header_text(config.auth))) ==> r is Err
    &&& r matches Err(e) ==> {
        ||| !header_bytes_ok(encode_utf8(auth_header_text(config.auth))) && e@
            == (ErrorView::Configuration { message: invalid_header_message() })
        ||| exists|error: reqwest::Error| e@ == http_build_error_view(error)
    }
}

/// The error for an HTTP client that cannot be built.
pub open spec fn http_build_error_view(error: reqwest::Error) -> ErrorView {
    ErrorView::Configuration { message: "failed to build HTTP client: "@ + http_error_text(error) }
}

/// The error for an HTTP client that cannot be built.
pub fn http_build_error(error: reqwest::Error) -> (r: AltertableError)
    ensures
        r@ == http_build_error_view(error),
{
    let mut message = "failed to build HTTP client: ".to_owned();
    message.append(http_error_message(&error).as_str());
    AltertableError::ConfigurationError { message }
}

impl AltertableClient {
    /// A builder with nothing set.
    pub fn builder() -> (r: ClientBuilder)
        ensures
            r@ == empty_builder(),
    {
        ClientBuilder::new()
    }

    /// Builds a client from credentials in the environment and defaults.
    pub fn from_env(env: EnvCredentials) -> (r: Result<AltertableClient, AltertableError>)
        requires
            builder_fits(empty_builder(), env@),
        ensures
            match builder_auth(empty_builder(), env@) {
                Err(m) => r matches Err(e) && e@ == (ErrorView::Configuration { message: m }),
                Ok(a) => client_result(r, builder_config(empty_builder(), a)),
            },
    {
        ClientBuilder::new().build(env)
    }

    /// Builds a client: first the HTTP client (whose failure is a
    /// configuration error), then the rest from `with_http`.
    pub fn from_config(config: ClientConfig) -> (r: Result<AltertableClient, AltertableError>)
        requires
            auth_fits(config.auth@),
        ensures
            client_result(r, config@),
            r matches Ok(c) ==> http_client_settings(c.http_view()).0 == config.connect_timeout,
            r matches Ok(c) ==> http_client_settings(c.http_view()).1 == config.request_timeout,
    {
        let keepalive = Duration::from_secs(TCP_KEEPALIVE_SECS);
        match build_http_client(
            config.connect_timeout,
            config.request_timeout,
            POOL_MAX_IDLE_PER_HOST,
            keepalive,
        ) {
            Ok(http) => Self::with_http(http, config),
            Err(error) => Err(http_build_error(error)),
        }
    }

    /// The client of `config` over a built HTTP client: fails exactly when
    /// the `Authorization` header cannot be built.
    pub fn with_http(http: reqwest::Client, config: ClientConfig) -> (r: Result<
        AltertableClient,
        AltertableError,
    >)
        requires
            auth_fits(config.auth@),
        ensures
            (r is Ok) == header_bytes_ok(encode_utf8(auth_header_text(config.auth@))),
            r matches Ok(c) ==> client_from(c, config@) && c.http_view() == http,
            r matches Err(e) ==> e@ == (ErrorView::Configuration { message: invalid_header_message() }),
    {
        let auth_header = build_auth_header(&config.auth)?;
        let user_agent = match &config.user_agent_suffix {
            Some(suffix) => {
                let mut agent = DEFAULT_USER_AGENT.to_owned();
                agent.append(" ");
                agent.append(suffix.as_str());
                agent
            },
            None => DEFAULT_USER_AGENT.to_owned(),
        };
        Ok(AltertableClient { http, config, auth_header, user_agent })
    }

    /// The configuration the client was built from.
    pub fn config(&self) -> (r: &ClientConfig)
        ensures
            r@ == self.config_view(),
    {
        &self.config
    }

    /// The HTTP client that requests go through.
    pub fn http_client(&self) -> (r: &reqwest::Client)
        ensures
            *r == self.http_view(),
    {
        &self.http
    }

    /// The `Authorization` header of every request.
    pub fn auth_header(&self) -> (r: &HeaderValue)
        ensures
            header_value_contents(*r) == self.auth_header_view(),
    {
        &self.auth_header
    }

    /// The user agent of every request.
    pub fn user_agent(&self) -> (r: &str)
        ensures
            r@ == self.user_agent_view(),
    {
        self.user_agent.as_str()
    }
}

} // verus!
