//! The errors of the library, the context they carry, and how transport
//! failures and HTTP statuses map onto them.
use crate::text::{decimal, decimal_string, same_text};
use vstd::prelude::*;
use vstd::string::StringExecFns;

verus! {

#[verifier::external_type_specification]
#[verifier::external_body]
pub struct ExHttpError(reqwest::Error);

#[verifier::external_type_specification]
#[verifier::external_body]
pub struct ExFromUtf8Error(std::string::FromUtf8Error);

/// Where a failed call was going: its operation, method and path, the HTTP
/// status if one came back, whether a retry may help, and the request and
/// correlation ids that the server sent.
#[derive(Debug, Clone, PartialEq, Eq)]
pub struct ErrorContext {
    pub operation: &'static str,
    pub method: &'static str,
    pub path: String,
    pub status: Option<u16>,
    pub retriable: bool,
    pub request_id: Option<String>,
    pub correlation_id: Option<String>,
}

/// The text of an optional string.
pub open spec fn opt_text(s: Option<String>) -> Option<Seq<char>> {
    match s {
        Some(t) => Some(t@),
        None => None,
    }
}

/// An `ErrorContext` as text and numbers.
pub struct ContextView {
    pub operation: Seq<char>,
    pub method: Seq<char>,
    pub path: Seq<char>,
    pub status: Option<u16>,
    pub retriable: bool,
    pub request_id: Option<Seq<char>>,
    pub correlation_id: Option<Seq<char>>,
}

impl View for ErrorContext {
    type V = ContextView;

    open spec fn view(&self) -> ContextView {
        ContextView {
            operation: self.operation@,
            method: self.method@,
            path: self.path@,
            status: self.status,
            retriable: self.retriable,
            request_id: opt_text(self.request_id),
            correlation_id: opt_text(self.correlation_id),
        }
    }
}

impl Default for ErrorContext {
    fn default() -> (r: Self)
        ensures
            r@ == (ContextView {
                operation: ""@,
                method: ""@,
                path: Seq::empty(),
                status: None,
                retriable: false,
                request_id: None,
                correlation_id: None,
            }),
    {
        ErrorContext {
            operation: "",
            method: "",
            path: String::new(),
            status: None,
            retriable: false,
            request_id: None,
            correlation_id: None,
        }
    }
}

/// The lower-level error behind an `AltertableError`.
#[derive(Debug)]
pub enum ErrorSource {
    Http(reqwest::Error),
    Json(serde_json::Error),
    Utf8(std::string::FromUtf8Error),
}

#[derive(Debug)]
pub enum AltertableError {
    AuthError { context: ErrorContext, message: String },
    BadRequestError { context: ErrorContext, message: String },
    NetworkError { context: ErrorContext, message: String, source: Option<ErrorSource> },
    TimeoutError { context: ErrorContext, message: String, source: Option<ErrorSource> },
    SerializationError { context: ErrorContext, message: String, source: Option<ErrorSource> },
    ParseError {
        context: ErrorContext,
        message: String,
        line: Option<usize>,
        source: Option<ErrorSource>,
    },
    ApiError { context: ErrorContext, message: String, body: Option<String> },
    ConfigurationError { message: String },
}

/// An `AltertableError` as text and numbers.
pub enum ErrorView {
    Auth { context: ContextView, message: Seq<char> },
    BadRequest { context: ContextView, message: Seq<char> },
    Network { context: ContextView, message: Seq<char>, source: Option<ErrorSource> },
    Timeout { context: ContextView, message: Seq<char>, source: Option<ErrorSource> },
    Serialization { context: ContextView, message: Seq<char>, source: Option<ErrorSource> },
    Parse {
        context: ContextView,
        message: Seq<char>,
        line: Option<usize>,
        source: Option<ErrorSource>,
    },
    Api { context: ContextView, message: Seq<char>, body: Option<Seq<char>> },
    Configuration { message: Seq<char> },
}

impl View for AltertableError {
    type V = ErrorView;

    open spec fn view(&self) -> ErrorView {
        match self {
            AltertableError::AuthError { context, message } => ErrorView::Auth {
                context: context@,
                message: message@,
            },
            AltertableError::BadRequestError { context, message } => ErrorView::BadRequest {
                context: context@,
                message: message@,
            },
            AltertableError::NetworkError { context, message, source } => ErrorView::Network {
                context: context@,
                message: message@,
                source: *source,
            },
            AltertableError::TimeoutError { context, message, source } => ErrorView::Timeout {
                context: context@,
                message: message@,
                source: *source,
            },
            AltertableError::SerializationError { context, message, source } =>
                ErrorView::Serialization { context: context@, message: message@, source: *source },
            AltertableError::ParseError { context, message, line, source } => ErrorView::Parse {
                context: context@,
                message: message@,
                line: *line,
                source: *source,
            },
            AltertableError::ApiError { context, message, body } => ErrorView::Api {
                context: context@,
                message: message@,
                body: opt_text(*body),
            },
            AltertableError::ConfigurationError { message } => ErrorView::Configuration {
                message: message@,
            },
        }
    }
}

/// The context of an error; a configuration error has none.
pub open spec fn context_of(e: AltertableError) -> Option<ErrorContext> {
    match e {
        AltertableError::AuthError { context, .. } => Some(context),
        AltertableError::BadRequestError { context, .. } => Some(context),
        AltertableError::NetworkError { context, .. } => Some(context),
        AltertableError::TimeoutError { context, .. } => Some(context),
        AltertableError::SerializationError { context, .. } => Some(context),
        AltertableError::ParseError { context, .. } => Some(context),
        AltertableError::ApiError { context, .. } => Some(context),
        AltertableError::ConfigurationError { .. } => None,
    }
}

/// The message of an error view.
pub open spec fn message_of(e: ErrorView) -> Seq<char> {
    match e {
        ErrorView::Auth { message, .. } => message,
        ErrorView::BadRequest { message, .. } => message,
        ErrorView::Network { message, .. } => message,
        ErrorView::Timeout { message, .. } => message,
        ErrorView::Serialization { message, .. } => message,
        ErrorView::Parse { message, .. } => message,
        ErrorView::Api { message, .. } => message,
        ErrorView::Configuration { message } => message,
    }
}

/// How an error reads: its message, and for a parse error that knows its
/// line, the line number after it.
pub open spec fn error_text(e: ErrorView) -> Seq<char> {
    match e {
        ErrorView::Parse { message, line: Some(n), .. } => message + " (line "@ + decimal(
            n as nat,
        ) + ")"@,
        _ => message_of(e),
    }
}

/// The text of a status line: the code and its canonical reason.
pub open spec fn status_text(code: u16) -> Seq<char> {
    decimal(code as nat) + " "@ + match status_reason(code) {
        Some(reason) => reason,
        None => "<unknown status code>"@,
    }
}

/// The message of an error built from a status and a body.
pub open spec fn status_message(code: u16, body: Seq<char>) -> Seq<char> {
    if body.len() == 0 {
        "request failed with status "@ + status_text(code)
    } else {
        body
    }
}

/// The error that a non-success status gives: 401 and 403 are
/// authentication errors, 400 a bad request, anything else an API error that
/// keeps a non-empty body.
pub open spec fn status_error(context: ContextView, code: u16, body: Seq<char>) -> ErrorView {
    let message = status_message(code, body);
    if code == 401 || code == 403 {
        ErrorView::Auth { context, message }
    } else if code == 400 {
        ErrorView::BadRequest { context, message }
    } else {
        ErrorView::Api {
            context,
            message,
            body: if body.len() == 0 {
                None
            } else {
                Some(body)
            },
        }
    }
}

/// The error for a transport failure.
pub open spec fn transport_error_view(context: ContextView, error: reqwest::Error) -> ErrorView {
    if http_error_is_timeout(error) {
        ErrorView::Timeout {
            context,
            message: http_error_text(error),
            source: Some(ErrorSource::Http(error)),
        }
    } else {
        ErrorView::Network {
            context,
            message: http_error_text(error),
            source: Some(ErrorSource::Http(error)),
        }
    }
}

/// What `reqwest::Error`'s `Display` writes for an error.
pub uninterp spec fn http_error_text(error: reqwest::Error) -> Seq<char>;

/// What `reqwest::Error::is_timeout` answers for an error.
pub uninterp spec fn http_error_is_timeout(error: reqwest::Error) -> bool;

/// The canonical reason phrase of a status code, as `http` lists it.
pub uninterp spec fn status_reason(code: u16) -> Option<Seq<char>>;

/// Calls `ToString::to_string` on a `reqwest::Error`.
#[verifier::external_body]
pub(crate) fn http_error_message(error: &reqwest::Error) -> (r: String)
    ensures
        r@ == http_error_text(*error),
{
    error.to_string()
}

/// Calls `reqwest::Error::is_timeout`.
#[verifier::external_body]
pub(crate) fn http_error_timed_out(error: &reqwest::Error) -> (r: bool)
    ensures
        r == http_error_is_timeout(*error),
{
    error.is_timeout()
}

/// Calls `StatusCode::from_u16`, which accepts every code from 100 to 999,
/// and then `StatusCode::canonical_reason`.
#[verifier::external_body]
fn canonical_reason(code: u16) -> (r: Option<&'static str>)
    requires
        100 <= code <= 999,
    ensures
        match r {
            Some(s) => status_reason(code) == Some(s@),
            None => status_reason(code) is None,
        },
{
    match reqwest::StatusCode::from_u16(code) {
        Ok(status) => status.canonical_reason(),
        Err(_) => None,
    }
}

/// The method names that an error context keeps; anything else is `UNKNOWN`.
pub open spec fn static_method(method: Seq<char>) -> Seq<char> {
    if method == "GET"@ {
        "GET"@
    } else if method == "POST"@ {
        "POST"@
    } else if method == "DELETE"@ {
        "DELETE"@
    } else {
        "UNKNOWN"@
    }
}

/// Maps a method name onto the static name kept in an error context.
pub fn method_to_static(method: &str) -> (r: &'static str)
    ensures
        r@ == static_method(method@),
{
    if same_text(method, "GET") {
        "GET"
    } else if same_text(method, "POST") {
        "POST"
    } else if same_text(method, "DELETE") {
        "DELETE"
    } else {
        "UNKNOWN"
    }
}

/// The context that an error of a call carries.
pub open spec fn context_view(
    operation: Seq<char>,
    method: Seq<char>,
    path: Seq<char>,
    status: Option<u16>,
    retriable: bool,
    request_id: Option<Seq<char>>,
    correlation_id: Option<Seq<char>>,
) -> ContextView {
    ContextView {
        operation,
        method: static_method(method),
        path,
        status,
        retriable,
        request_id,
        correlation_id,
    }
}

/// Builds the context of an error of a call.
pub fn error_context(
    operation: &'static str,
    method: &str,
    path: &str,
    status: Option<u16>,
    retriable: bool,
    request_id: Option<String>,
    correlation_id: Option<String>,
) -> (r: ErrorContext)
    ensures
        r@ == context_view(
            operation@,
            method@,
            path@,
            status,
            retriable,
            opt_text(request_id),
            opt_text(correlation_id),
        ),
{
    ErrorContext {
        operation,
        method: method_to_static(method),
        path: path.to_owned(),
        status,
        retriable,
        request_id,
        correlation_id,
    }
}

/// The lower-level error behind an error: held by network, timeout,
/// serialization and parse errors, where there is one; never by the others.
pub open spec fn source_view(e: ErrorView) -> Option<ErrorSource> {
    match e {
        ErrorView::Network { source, .. } => source,
        ErrorView::Timeout { source, .. } => source,
        ErrorView::Serialization { source, .. } => source,
        ErrorView::Parse { source, .. } => source,
        _ => None,
    }
}

impl AltertableError {
    /// The lower-level error behind this one, if it has one.
    pub fn source(&self) -> (r: Option<&ErrorSource>)
        ensures
            match source_view(self@) {
                Some(s) => r matches Some(x) && *x == s,
                None => r is None,
            },
    {
        match self {
            AltertableError::NetworkError { source, .. } => source.as_ref(),
            AltertableError::TimeoutError { source, .. } => source.as_ref(),
            AltertableError::SerializationError { source, .. } => source.as_ref(),
            AltertableError::ParseError { source, .. } => source.as_ref(),
            _ => None,
        }
    }

    /// The context of the error, for every kind but a configuration error.
    pub fn context(&self) -> (r: Option<&ErrorContext>)
        ensures
            match context_of(*self) {
                Some(c) => r matches Some(x) && *x == c,
                None => r is None,
            },
    {
        match self {
            AltertableError::AuthError { context, .. } => Some(context),
            AltertableError::BadRequestError { context, .. } => Some(context),
            AltertableError::NetworkError { context, .. } => Some(context),
            AltertableError::TimeoutError { context, .. } => Some(context),
            AltertableError::SerializationError { context, .. } => Some(context),
            AltertableError::ParseError { context, .. } => Some(context),
            AltertableError::ApiError { context, .. } => Some(context),
            AltertableError::ConfigurationError { .. } => None,
        }
    }

    /// The error for a request that failed in transport: a timeout error if
    /// the transport reports one, else a network error; either keeps the
    /// transport error as its source.
    pub fn from_reqwest(error: reqwest::Error, context: ErrorContext) -> (r: AltertableError)
        ensures
            r@ == transport_error_view(context@, error),
    {
        let message = http_error_message(&error);
        if http_error_timed_out(&error) {
            return AltertableError::TimeoutError {
                context,
                message,
                source: Some(ErrorSource::Http(error)),
            };
        }
        AltertableError::NetworkError { context, message, source: Some(ErrorSource::Http(error)) }
    }

    /// The error for a response with a non-success status.
    pub fn from_status(context: ErrorContext, status: u16, body: String) -> (r: AltertableError)
        requires
            100 <= status <= 999,
        ensures
            r@ == status_error(context@, status, body@),
            (r@ is BadRequest) == (status == 400),
            (r@ is Auth) == (status == 401 || status == 403),
            (r@ is Api) == (status != 400 && status != 401 && status != 403),
            r@ matches ErrorView::Api { body: kept, .. } ==> kept == (if body@.len() == 0 {
                None
            } else {
                Some(body@)
            }),
    {
        let message = if body.as_str().is_empty() {
            let mut m = "request failed with status ".to_owned();
            m.append(decimal_string(status as u64).as_str());
            m.append(" ");
            match canonical_reason(status) {
                Some(reason) => m.append(reason),
                None => m.append("<unknown status code>"),
            }
            assert(m@ =~= status_message(status, body@));
            m
        } else {
            body.clone()
        };
        if status == 401 || status == 403 {
            AltertableError::AuthError { context, message }
        } else if status == 400 {
            AltertableError::BadRequestError { context, message }
        } else {
            let body = if body.as_str().is_empty() {
                None
            } else {
                Some(body)
            };
            AltertableError::ApiError { context, message, body }
        }
    }

    /// How the error reads: the message, followed by ` (line N)` for a parse
    /// error that knows its line.
    pub fn to_string(&self) -> (r: String)
        ensures
            r@ == error_text(self@),
    {
        match self {
            AltertableError::ParseError { message, line: Some(n), .. } => {
                let mut s = message.clone();
                s.append(" (line ");
                s.append(decimal_string(*n as u64).as_str());
                s.append(")");
                s
            },
            AltertableError::AuthError { message, .. } => message.clone(),
            AltertableError::BadRequestError { message, .. } => message.clone(),
            AltertableError::NetworkError { message, .. } => message.clone(),
            AltertableError::TimeoutError { message, .. } => message.clone(),
            AltertableError::SerializationError { message, .. } => message.clone(),
            AltertableError::ParseError { message, .. } => message.clone(),
            AltertableError::ApiError { message, .. } => message.clone(),
            AltertableError::ConfigurationError { message } => message.clone(),
        }
    }
}

} // verus!
