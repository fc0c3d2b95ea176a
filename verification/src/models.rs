//! The request and response data of the Lakehouse API.
use std::collections::HashMap;
use vstd::prelude::*;

verus! {

#[verifier::external_type_specification]
#[verifier::external_body]
pub struct ExUuid(uuid::Uuid);

/// `Uuid` is `Copy`: its `clone` returns the same value.
pub assume_specification[ <uuid::Uuid as Clone>::clone ](u: &uuid::Uuid) -> (r: uuid::Uuid)
    ensures
        r == *u,
;

/// One row of an append payload: column name to JSON value.
pub type AppendPayload = HashMap<String, serde_json::Value>;

/// One row of a query result.
pub type QueryRow = serde_json::Value;

/// The body of an append call: one row or a batch of rows.
#[derive(Debug, Clone, PartialEq)]
pub enum AppendRequest {
    Single(AppendPayload),
    Batch(Vec<AppendPayload>),
}

#[derive(Debug, Clone, PartialEq, Eq)]
pub enum AppendErrorCode {
    InvalidData,
}

#[derive(Debug, Clone, PartialEq)]
pub struct AppendResponse {
    pub ok: bool,
    pub error_code: Option<AppendErrorCode>,
    pub error_message: Option<String>,
    pub task_id: Option<uuid::Uuid>,
}

#[derive(Debug, Clone, PartialEq, Eq)]
pub enum ComputeSize {
    S,
    M,
    L,
}

#[derive(Debug, Clone, PartialEq, Eq)]
pub enum UploadFormat {
    Csv,
    Json,
    Parquet,
}

#[derive(Debug, Clone, PartialEq, Eq)]
pub enum UploadMode {
    Create,
    Append,
    Upsert,
    Overwrite,
}

/// The wire name of an upload format.
pub open spec fn format_name(format: UploadFormat) -> Seq<char> {
    match format {
        UploadFormat::Csv => "csv"@,
        UploadFormat::Json => "json"@,
        UploadFormat::Parquet => "parquet"@,
    }
}

/// The wire name of an upload mode.
pub open spec fn mode_name(mode: UploadMode) -> Seq<char> {
    match mode {
        UploadMode::Create => "create"@,
        UploadMode::Append => "append"@,
        UploadMode::Upsert => "upsert"@,
        UploadMode::Overwrite => "overwrite"@,
    }
}

impl UploadFormat {
    /// The name under which the API knows this format.
    pub fn wire_name(&self) -> (r: &'static str)
        ensures
            r@ == format_name(*self),
            *self is Csv ==> r@ == "csv"@,
            *self is Json ==> r@ == "json"@,
            *self is Parquet ==> r@ == "parquet"@,
    {
        match self {
            UploadFormat::Csv => "csv",
            UploadFormat::Json => "json",
            UploadFormat::Parquet => "parquet",
        }
    }
}

impl UploadMode {
    /// The name under which the API knows this mode.
    pub fn wire_name(&self) -> (r: &'static str)
        ensures
            r@ == mode_name(*self),
            *self is Create ==> r@ == "create"@,
            *self is Append ==> r@ == "append"@,
            *self is Upsert ==> r@ == "upsert"@,
            *self is Overwrite ==> r@ == "overwrite"@,
    {
        match self {
            UploadMode::Create => "create",
            UploadMode::Append => "append",
            UploadMode::Upsert => "upsert",
            UploadMode::Overwrite => "overwrite",
        }
    }
}

/// A query to run; only `statement` is required.
#[derive(Debug, Clone, PartialEq)]
pub struct QueryRequest {
    pub statement: String,
    pub cache: Option<bool>,
    pub catalog: Option<String>,
    pub compute_size: Option<ComputeSize>,
    pub ephemeral: Option<bool>,
    pub limit: Option<u64>,
    pub offset: Option<u64>,
    pub query_id: Option<String>,
    pub requested_by: Option<String>,
    pub sanitize: Option<bool>,
    pub schema: Option<String>,
    pub session_id: Option<String>,
    pub timezone: Option<String>,
    pub visible: Option<bool>,
}

impl Default for QueryRequest {
    fn default() -> (r: Self)
        ensures
            r.statement@ == Seq::<char>::empty(),
            r.cache is None && r.catalog is None && r.compute_size is None,
            r.ephemeral is None && r.limit is None && r.offset is None,
            r.query_id is None && r.requested_by is None && r.sanitize is None,
            r.schema is None && r.session_id is None && r.timezone is None,
            r.visible is None,
    {
        QueryRequest {
            statement: String::new(),
            cache: None,
            catalog: None,
            compute_size: None,
            ephemeral: None,
            limit: None,
            offset: None,
            query_id: None,
            requested_by: None,
            sanitize: None,
            schema: None,
            session_id: None,
            timezone: None,
            visible: None,
        }
    }
}

/// A statement to validate.
#[derive(Debug, Clone, PartialEq)]
pub struct ValidateRequest {
    pub statement: String,
    pub catalog: Option<String>,
    pub schema: Option<String>,
    pub session_id: Option<String>,
}

impl Default for ValidateRequest {
    fn default() -> (r: Self)
        ensures
            r.statement@ == Seq::<char>::empty(),
            r.catalog is None && r.schema is None && r.session_id is None,
    {
        ValidateRequest { statement: String::new(), catalog: None, schema: None, session_id: None }
    }
}

#[derive(Debug, Clone, PartialEq)]
pub struct ValidateResponse {
    pub valid: bool,
    pub statement: String,
    pub connections_errors: HashMap<String, String>,
    pub error: Option<String>,
}

#[derive(Debug, Clone, PartialEq)]
pub struct CancelQueryResponse {
    pub cancelled: bool,
    pub message: String,
}

#[derive(Debug, Clone, PartialEq)]
pub struct TaskResponse {
    pub task_id: uuid::Uuid,
    pub status: TaskStatus,
}

#[derive(Debug, Clone, PartialEq, Eq)]
pub enum TaskStatus {
    Pending,
    Completed,
}

#[derive(Debug, Clone, PartialEq, Eq)]
pub enum SessionKind {
    ArrowFlightSQL,
    HttpQuery,
    HttpCancel,
    HttpValidate,
    HttpExplain,
    HttpAutocomplete,
    Postgres,
}

#[derive(Debug, Clone, PartialEq)]
pub struct QueryLog {
    pub uuid: uuid::Uuid,
    pub start_time: String,
    pub end_time: Option<String>,
    pub duration_ms: Option<u64>,
    pub query: String,
    pub client_interface: SessionKind,
    pub visible: bool,
    pub session_id: String,
    pub error: Option<String>,
    pub requested_by: Option<String>,
    pub user_agent: Option<String>,
    pub stats: Option<QueryStats>,
}

#[derive(Debug, Clone, PartialEq)]
pub struct QueryStats {
    pub caching: Option<CachingStats>,
    pub memory: Option<MemoryStats>,
    pub scan: Option<ScanStats>,
}

#[derive(Debug, Clone, PartialEq)]
pub struct CachingStats {
    pub data_hits: u64,
    pub data_misses: u64,
    pub data_bytes_hits: u64,
    pub data_bytes_misses: u64,
    pub filehandle_hits: u64,
    pub filehandle_misses: u64,
    pub metadata_hits: u64,
    pub metadata_misses: u64,
}

#[derive(Debug, Clone, PartialEq)]
pub struct MemoryStats {
    pub total_usage_bytes: u64,
}

#[derive(Debug, Clone, PartialEq)]
pub struct ScanStats {
    pub estimated_result_rows: u64,
    pub estimated_scanned_rows: u64,
}

/// A column of a query result; keys other than the named ones stay in `extra`.
#[derive(Debug, Clone, PartialEq)]
pub struct QueryColumn {
    pub name: String,
    pub data_type: Option<String>,
    pub nullable: Option<bool>,
    pub extra: HashMap<String, serde_json::Value>,
}

/// The first line of a query result, key by key.
#[derive(Debug, Clone, PartialEq)]
pub struct QueryMetadata {
    pub values: HashMap<String, serde_json::Value>,
}

} // verus!
