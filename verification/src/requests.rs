//! The request that each API call sends, checked before it goes out, and
//! how the response of a call that answers with JSON is read.
use crate::client::AltertableClient;
use crate::error::{
    context_view, error_context, opt_text, ErrorContext, status_error, transport_error_view, AltertableError,
    ContextView, ErrorSource, ErrorView,
};
use crate::models::{format_name, mode_name, QueryRequest, UploadFormat, UploadMode, ValidateRequest};
use crate::text::{chars_of, is_blank, string_of, trim};
use crate::transport::{header_lookup, header_map_get, header_value_contents, header_value_to_str, visible_ascii};
use vstd::utf8::encode_utf8;
use vstd::prelude::*;
use vstd::string::StringExecFns;

verus! {

/// `s` without the `/` characters at its end (what `trim_end_matches('/')`
/// leaves).
pub open spec fn strip_trailing_slashes(s: Seq<char>) -> Seq<char>
    decreases s.len(),
{
    if s.len() > 0 && s.last() == '/' {
        strip_trailing_slashes(s.drop_last())
    } else {
        s
    }
}

/// The URL of `path` under the base URL `base`.
pub open spec fn url_text(base: Seq<char>, path: Seq<char>) -> Seq<char> {
    strip_trailing_slashes(base) + path
}

/// The methods that the API calls use.
#[derive(Debug, Clone, Copy, PartialEq, Eq)]
pub enum HttpMethod {
    Get,
    Post,
    Delete,
}

/// The name of a method.
pub open spec fn method_name(method: HttpMethod) -> Seq<char> {
    match method {
        HttpMethod::Get => "GET"@,
        HttpMethod::Post => "POST"@,
        HttpMethod::Delete => "DELETE"@,
    }
}

impl HttpMethod {
    /// The name of the method.
    pub fn as_str(&self) -> (r: &'static str)
        ensures
            r@ == method_name(*self),
    {
        match self {
            HttpMethod::Get => "GET",
            HttpMethod::Post => "POST",
            HttpMethod::Delete => "DELETE",
        }
    }
}

/// What a request carries: nothing, the call's payload as JSON (which the
/// caller serialises), or raw bytes.
#[derive(Debug, Clone)]
pub enum RequestBody {
    Empty,
    Json,
    Bytes(Vec<u8>),
}

/// A `RequestBody` as bytes.
pub enum BodyView {
    Empty,
    Json,
    Bytes(Seq<u8>),
}

/// A request ready to send: which call it belongs to, its method, path and
/// full URL, its query parameters in order, the `Accept` and `Content-Type`
/// it asks for beyond the defaults, and its body. The client's
/// `Authorization` header and user agent go with every request.
#[derive(Debug, Clone)]
pub struct RequestPlan {
    pub operation: &'static str,
    pub method: HttpMethod,
    pub path: String,
    pub url: String,
    pub query: Vec<(String, String)>,
    pub accept: Option<&'static str>,
    pub content_type: Option<&'static str>,
    pub body: RequestBody,
}

/// A `RequestPlan` as text.
pub struct PlanView {
    pub operation: Seq<char>,
    pub method: HttpMethod,
    pub path: Seq<char>,
    pub url: Seq<char>,
    pub query: Seq<(Seq<char>, Seq<char>)>,
    pub accept: Option<Seq<char>>,
    pub content_type: Option<Seq<char>>,
    pub body: BodyView,
}

/// The text of query parameters.
pub open spec fn pairs_text(pairs: Seq<(String, String)>) -> Seq<(Seq<char>, Seq<char>)> {
    pairs.map_values(|p: (String, String)| (p.0@, p.1@))
}

/// The text of an optional static string.
pub open spec fn opt_str(s: Option<&'static str>) -> Option<Seq<char>> {
    match s {
        Some(t) => Some(t@),
        None => None,
    }
}

impl View for RequestPlan {
    type V = PlanView;

    open spec fn view(&self) -> PlanView {
        PlanView {
            operation: self.operation@,
            method: self.method,
            path: self.path@,
            url: self.url@,
            query: pairs_text(self.query@),
            accept: opt_str(self.accept),
            content_type: opt_str(self.content_type),
            body: match self.body {
                RequestBody::Empty => BodyView::Empty,
                RequestBody::Json => BodyView::Json,
                RequestBody::Bytes(b) => BodyView::Bytes(b@),
            },
        }
    }
}

/// Whether `s` is empty once trimmed.
pub open spec fn blank(s: Seq<char>) -> bool {
    trim(s).len() == 0
}

/// The error for a required argument that is blank.
pub open spec fn missing(field: Seq<char>) -> ErrorView {
    ErrorView::Configuration { message: field + " must not be empty"@ }
}

/// Fails with a configuration error when `value` is blank.
pub fn ensure_non_empty(field: &str, value: &str) -> (r: Result<(), AltertableError>)
    ensures
        (r is Err) == blank(value@),
        r matches Err(e) ==> e@ == missing(field@),
{
    if is_blank(value) {
        let mut message = field.to_owned();
        message.append(" must not be empty");
        return Err(AltertableError::ConfigurationError { message });
    }
    Ok(())
}

/// The plan of a call of `client`, going to `path`.
pub open spec fn plan_for(
    client: AltertableClient,
    operation: Seq<char>,
    method: HttpMethod,
    path: Seq<char>,
    query: Seq<(Seq<char>, Seq<char>)>,
    accept: Option<Seq<char>>,
    content_type: Option<Seq<char>>,
    body: BodyView,
) -> PlanView {
    PlanView {
        operation,
        method,
        path,
        url: url_text(client.config_view().base_url, path),
        query,
        accept,
        content_type,
        body,
    }
}

/// The message of an upsert upload without a primary key.
pub open spec fn upsert_without_key() -> ErrorView {
    ErrorView::Configuration { message: "primary_key is required when mode=upsert"@ }
}

/// The query parameters of an upload.
pub open spec fn upload_query(
    catalog: Seq<char>,
    schema: Seq<char>,
    table: Seq<char>,
    format: UploadFormat,
    mode: UploadMode,
    primary_key: Option<Seq<char>>,
) -> Seq<(Seq<char>, Seq<char>)> {
    let base = seq![
        ("catalog"@, catalog),
        ("schema"@, schema),
        ("table"@, table),
        ("format"@, format_name(format)),
        ("mode"@, mode_name(mode)),
    ];
    match primary_key {
        Some(k) => base.push(("primary_key"@, k)),
        None => base,
    }
}

/// The text of an optional string slice.
pub open spec fn opt_slice(s: Option<&str>) -> Option<Seq<char>> {
    match s {
        Some(t) => Some(t@),
        None => None,
    }
}

impl AltertableClient {
    /// The URL of `path`: the base URL without trailing slashes, then the path.
    pub fn request_url(&self, path: &str) -> (r: String)
        ensures
            r@ == url_text(self.config_view().base_url, path@),
    {
        let base = chars_of(self.config().base_url.as_str());
        let mut end = base.len();
        assert(base@.subrange(0, base@.len() as int) =~= base@);
        while end > 0 && base[end - 1] == '/'
            invariant
                end <= base@.len(),
                strip_trailing_slashes(base@) == strip_trailing_slashes(base@.subrange(0, end as int)),
            decreases end,
        {
            assert(base@.subrange(0, end as int).drop_last() =~= base@.subrange(0, end - 1));
            end = end - 1;
        }
        let mut url = string_of(&base, 0, end);
        url.append(path);
        url
    }

    fn plan(
        &self,
        operation: &'static str,
        method: HttpMethod,
        path: String,
        query: Vec<(String, String)>,
        accept: Option<&'static str>,
        content_type: Option<&'static str>,
        body: RequestBody,
    ) -> (r: RequestPlan)
        ensures
            r.operation == operation,
            r.method == method,
            r.path@ == path@,
            r.url@ == url_text(self.config_view().base_url, path@),
            r.query == query,
            r.accept == accept,
            r.content_type == content_type,
            r.body == body,
    {
        let url = self.request_url(path.as_str());
        RequestPlan { operation, method, path, url, query, accept, content_type, body }
    }

    /// Checks the arguments of an append and plans its request: `POST
    /// /append` with the catalog, schema and table as query parameters and
    /// the rows as JSON.
    pub fn append(&self, catalog: &str, schema: &str, table: &str) -> (r: Result<
        RequestPlan,
        AltertableError,
    >)
        ensures
            if blank(catalog@) {
                r matches Err(e) && e@ == missing("catalog"@)
            } else if blank(schema@) {
                r matches Err(e) && e@ == missing("schema"@)
            } else if blank(table@) {
                r matches Err(e) && e@ == missing("table"@)
            } else {
                r matches Ok(p) && p@ == plan_for(
                    *self,
                    "append"@,
                    HttpMethod::Post,
                    "/append"@,
                    seq![("catalog"@, catalog@), ("schema"@, schema@), ("table"@, table@)],
                    None,
                    None,
                    BodyView::Json,
                )
            },
    {
        ensure_non_empty("catalog", catalog)?;
        ensure_non_empty("schema", schema)?;
        ensure_non_empty("table", table)?;
        let mut query: Vec<(String, String)> = Vec::new();
        query.push(("catalog".to_owned(), catalog.to_owned()));
        query.push(("schema".to_owned(), schema.to_owned()));
        query.push(("table".to_owned(), table.to_owned()));
        let plan = self.plan(
            "append",
            HttpMethod::Post,
            "/append".to_owned(),
            query,
            None,
            None,
            RequestBody::Json,
        );
        assert(plan@.query =~= seq![("catalog"@, catalog@), ("schema"@, schema@), ("table"@, table@)]);
        Ok(plan)
    }

    /// Checks a validation request and plans it: `POST /validate` with the
    /// request as JSON.
    pub fn validate(&self, request: &ValidateRequest) -> (r: Result<RequestPlan, AltertableError>)
        ensures
            if blank(request.statement@) {
                r matches Err(e) && e@ == missing("statement"@)
            } else {
                r matches Ok(p) && p@ == plan_for(
                    *self,
                    "validate"@,
                    HttpMethod::Post,
                    "/validate"@,
                    Seq::empty(),
                    None,
                    None,
                    BodyView::Json,
                )
            },
            r matches Ok(p) ==> p@.body is Json && p@.method is Post && p@.path == "/validate"@,
    {
        ensure_non_empty("statement", request.statement.as_str())?;
        let plan = self.plan(
            "validate",
            HttpMethod::Post,
            "/validate".to_owned(),
            Vec::new(),
            None,
            None,
            RequestBody::Json,
        );
        assert(plan@.query =~= Seq::<(Seq<char>, Seq<char>)>::empty());
        Ok(plan)
    }

    /// Checks a query id and plans the request for that query's log: `GET
    /// /query/{id}`.
    pub fn get_query(&self, query_id: &str) -> (r: Result<RequestPlan, AltertableError>)
        ensures
            if blank(query_id@) {
                r matches Err(e) && e@ == missing("query_id"@)
            } else {
                r matches Ok(p) && p@ == plan_for(
                    *self,
                    "get_query"@,
                    HttpMethod::Get,
                    "/query/"@ + query_id@,
                    Seq::empty(),
                    None,
                    None,
                    BodyView::Empty,
                )
            },
    {
        ensure_non_empty("query_id", query_id)?;
        let mut path = "/query/".to_owned();
        path.append(query_id);
        let plan = self.plan(
            "get_query",
            HttpMethod::Get,
            path,
            Vec::new(),
            None,
            None,
            RequestBody::Empty,
        );
        assert(plan@.query =~= Seq::<(Seq<char>, Seq<char>)>::empty());
        Ok(plan)
    }

    /// Checks the ids and plans the cancellation of a query: `DELETE
    /// /query/{id}` with the session id as a query parameter.
    pub fn cancel_query(&self, query_id: &str, session_id: &str) -> (r: Result<
        RequestPlan,
        AltertableError,
    >)
        ensures
            if blank(query_id@) {
                r matches Err(e) && e@ == missing("query_id"@)
            } else if blank(session_id@) {
                r matches Err(e) && e@ == missing("session_id"@)
            } else {
                r matches Ok(p) && p@ == plan_for(
                    *self,
                    "cancel_query"@,
                    HttpMethod::Delete,
                    "/query/"@ + query_id@,
                    seq![("session_id"@, session_id@)],
                    None,
                    None,
                    BodyView::Empty,
                )
            },
    {
        ensure_non_empty("query_id", query_id)?;
        ensure_non_empty("session_id", session_id)?;
        let mut path = "/query/".to_owned();
        path.append(query_id);
        let mut query: Vec<(String, String)> = Vec::new();
        query.push(("session_id".to_owned(), session_id.to_owned()));
        let plan = self.plan(
            "cancel_query",
            HttpMethod::Delete,
            path,
            query,
            None,
            None,
            RequestBody::Empty,
        );
        assert(plan@.query =~= seq![("session_id"@, session_id@)]);
        Ok(plan)
    }

    /// Checks the arguments of an upload and plans it: `POST /upload` with
    /// the target, format, mode and primary key as query parameters and the
    /// bytes as an octet stream. An upsert needs a primary key.
    pub fn upload(
        &self,
        catalog: &str,
        schema: &str,
        table: &str,
        format: UploadFormat,
        mode: UploadMode,
        primary_key: Option<&str>,
        bytes: Vec<u8>,
    ) -> (r: Result<RequestPlan, AltertableError>)
        ensures
            if blank(catalog@) {
                r matches Err(e) && e@ == missing("catalog"@)
            } else if blank(schema@) {
                r matches Err(e) && e@ == missing("schema"@)
            } else if blank(table@) {
                r matches Err(e) && e@ == missing("table"@)
            } else if mode is Upsert && primary_key is None {
                r matches Err(e) && e@ == upsert_without_key()
            } else {
                r matches Ok(p) && p@ == plan_for(
                    *self,
                    "upload"@,
                    HttpMethod::Post,
                    "/upload"@,
                    upload_query(catalog@, schema@, table@, format, mode, opt_slice(primary_key)),
                    None,
                    Some("application/octet-stream"@),
                    BodyView::Bytes(bytes@),
                )
            },
    {
        ensure_non_empty("catalog", catalog)?;
        ensure_non_empty("schema", schema)?;
        ensure_non_empty("table", table)?;
        if matches!(mode, UploadMode::Upsert) && primary_key.is_none() {
            return Err(
                AltertableError::ConfigurationError {
                    message: "primary_key is required when mode=upsert".to_owned(),
                },
            );
        }
        let mut query: Vec<(String, String)> = Vec::new();
        query.push(("catalog".to_owned(), catalog.to_owned()));
        query.push(("schema".to_owned(), schema.to_owned()));
        query.push(("table".to_owned(), table.to_owned()));
        query.push(("format".to_owned(), format.wire_name().to_owned()));
        query.push(("mode".to_owned(), mode.wire_name().to_owned()));
        let ghost base = pairs_text(query@);
        if let Some(key) = primary_key {
            query.push(("primary_key".to_owned(), key.to_owned()));
        }
        let plan = self.plan(
            "upload",
            HttpMethod::Post,
            "/upload".to_owned(),
            query,
            None,
            Some("application/octet-stream"),
            RequestBody::Bytes(bytes),
        );
        assert(plan@.query =~= upload_query(
            catalog@,
            schema@,
            table@,
            format,
            mode,
            opt_slice(primary_key),
        ));
        Ok(plan)
    }

    /// Checks a query and plans it: `POST /query` asking for NDJSON, with
    /// the request as JSON.
    pub fn query(&self, request: &QueryRequest) -> (r: Result<RequestPlan, AltertableError>)
        ensures
            if blank(request.statement@) {
                r matches Err(e) && e@ == missing("statement"@)
            } else {
                r matches Ok(p) && p@ == plan_for(
                    *self,
                    "query"@,
                    HttpMethod::Post,
                    "/query"@,
                    Seq::empty(),
                    Some("application/x-ndjson"@),
                    None,
                    BodyView::Json,
                )
            },
    {
        ensure_non_empty("statement", request.statement.as_str())?;
        let plan = self.plan(
            "query",
            HttpMethod::Post,
            "/query".to_owned(),
            Vec::new(),
            Some("application/x-ndjson"),
            None,
            RequestBody::Json,
        );
        assert(plan@.query =~= Seq::<(Seq<char>, Seq<char>)>::empty());
        Ok(plan)
    }
}


/// What the client reads off a response before its body: the status code
/// and the `x-request-id` and `x-correlation-id` headers, where present.
#[derive(Debug, Clone)]
pub struct ResponseMeta {
    pub status: u16,
    pub request_id: Option<String>,
    pub correlation_id: Option<String>,
}

/// Whether `text` is what `header_value` gives for `name` in `headers`:
/// the text of the value found there, if every byte of it is visible
/// ASCII or tab; nothing otherwise.
pub open spec fn header_text_of(
    headers: reqwest::header::HeaderMap,
    name: Seq<char>,
    text: Option<Seq<char>>,
) -> bool {
    match header_lookup(headers, name) {
        Some(v) => {
            let bytes = header_value_contents(v).0;
            if forall|i: int| 0 <= i < bytes.len() ==> visible_ascii(#[trigger] bytes[i]) {
                text matches Some(t) && encode_utf8(t) == bytes
            } else {
                text is None
            }
        },
        None => text is None,
    }
}

/// The text of the header `name`, where it is there and readable.
pub fn header_value(headers: &reqwest::header::HeaderMap, name: &str) -> (r: Option<String>)
    ensures
        header_text_of(*headers, name@, opt_text(r)),
{
    match header_map_get(headers, name) {
        Some(value) => match header_value_to_str(value) {
            Some(text) => Some(text.to_owned()),
            None => None,
        },
        None => None,
    }
}

impl ResponseMeta {
    /// What a response with `status` and `headers` tells before its body.
    pub fn from_headers(status: u16, headers: &reqwest::header::HeaderMap) -> (r: ResponseMeta)
        ensures
            r.status == status,
            header_text_of(*headers, "x-request-id"@, opt_text(r.request_id)),
            header_text_of(*headers, "x-correlation-id"@, opt_text(r.correlation_id)),
    {
        ResponseMeta {
            status,
            request_id: header_value(headers, "x-request-id"),
            correlation_id: header_value(headers, "x-correlation-id"),
        }
    }
}

/// A 2xx status.
pub open spec fn is_success(status: u16) -> bool {
    200 <= status < 300
}

/// A 5xx status.
pub open spec fn is_server_error(status: u16) -> bool {
    500 <= status < 600
}

/// Whether `status` is a 2xx status.
pub fn status_is_success(status: u16) -> (r: bool)
    ensures
        r == is_success(status),
{
    200 <= status && status < 300
}

/// Whether `status` is a 5xx status.
pub fn status_is_server_error(status: u16) -> (r: bool)
    ensures
        r == is_server_error(status),
{
    500 <= status && status < 600
}

/// The message of an error for a JSON response that does not decode.
pub open spec fn decode_message(operation: Seq<char>) -> Seq<char> {
    "failed to decode JSON response for "@ + operation
}

impl RequestPlan {
    /// The context of an error of this request.
    pub open spec fn context_at(
        &self,
        status: Option<u16>,
        retriable: bool,
        request_id: Option<Seq<char>>,
        correlation_id: Option<Seq<char>>,
    ) -> ContextView {
        context_view(
            self.operation@,
            method_name(self.method),
            self.path@,
            status,
            retriable,
            request_id,
            correlation_id,
        )
    }

    /// The context of an error of this request that got a response.
    pub open spec fn context_for(&self, meta: ResponseMeta, retriable: bool) -> ContextView {
        self.context_at(
            Some(meta.status),
            retriable,
            opt_text(meta.request_id),
            opt_text(meta.correlation_id),
        )
    }

    fn context(
        &self,
        status: Option<u16>,
        retriable: bool,
        request_id: Option<String>,
        correlation_id: Option<String>,
    ) -> (r: ErrorContext)
        ensures
            r@ == self.context_at(status, retriable, opt_text(request_id), opt_text(correlation_id)),
    {
        error_context(
            self.operation,
            self.method.as_str(),
            self.path.as_str(),
            status,
            retriable,
            request_id,
            correlation_id,
        )
    }

    /// The error for this request failing before any response came back.
    pub fn transport_error(&self, error: reqwest::Error) -> (r: AltertableError)
        ensures
            r@ == transport_error_view(self.context_at(None, false, None, None), error),
    {
        AltertableError::from_reqwest(error, self.context(None, false, None, None))
    }

    /// The error for the body of a response that could not be read; a retry
    /// may help after a server error.
    pub fn read_error(&self, meta: ResponseMeta, error: reqwest::Error) -> (r: AltertableError)
        ensures
            r@ == transport_error_view(self.context_for(meta, is_server_error(meta.status)), error),
    {
        let retriable = status_is_server_error(meta.status);
        let context = self.context(
            Some(meta.status),
            retriable,
            meta.request_id,
            meta.correlation_id,
        );
        AltertableError::from_reqwest(error, context)
    }

    /// Checks the status of a response that was read to `body`: a 2xx
    /// status hands the body on to be decoded, any other status is the
    /// error for that status and body.
    pub fn check_status(&self, meta: ResponseMeta, body: String) -> (r: Result<
        String,
        AltertableError,
    >)
        requires
            100 <= meta.status <= 999,
        ensures
            if is_success(meta.status) {
                r matches Ok(b) && b@ == body@
            } else {
                r matches Err(e) && e@ == status_error(
                    self.context_for(meta, is_server_error(meta.status)),
                    meta.status,
                    body@,
                )
            },
    {
        if status_is_success(meta.status) {
            return Ok(body);
        }
        let retriable = status_is_server_error(meta.status);
        let status = meta.status;
        let context = self.context(Some(status), retriable, meta.request_id, meta.correlation_id);
        Err(AltertableError::from_status(context, status, body))
    }

    /// The error for a successful response whose body does not decode.
    pub fn decode_error(&self, meta: ResponseMeta, error: serde_json::Error) -> (r: AltertableError)
        ensures
            r@ == (ErrorView::Serialization {
                context: self.context_for(meta, false),
                message: decode_message(self.operation@),
                source: Some(ErrorSource::Json(error)),
            }),
    {
        let context = self.context(Some(meta.status), false, meta.request_id, meta.correlation_id);
        let mut message = "failed to decode JSON response for ".to_owned();
        message.append(self.operation);
        AltertableError::SerializationError { context, message, source: Some(ErrorSource::Json(error)) }
    }
}

} // verus!
