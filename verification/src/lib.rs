//! A verified client library for the Altertable Lakehouse API: request
//! checking and planning, authentication, error mapping and NDJSON query
//! decoding. Sending requests is left to the caller.
pub mod client;
pub mod error;
pub mod json;
pub mod laws;
pub mod models;
pub mod query;
pub mod requests;
pub mod text;
pub mod transport;

pub use client::{
    AltertableClient, AuthConfig, ClientBuilder, ClientConfig, EnvCredentials, RetryConfig,
};
pub use error::{AltertableError, ErrorContext, ErrorSource};
pub use models::{
    AppendErrorCode, AppendPayload, AppendRequest, AppendResponse, CachingStats,
    CancelQueryResponse, ComputeSize, MemoryStats, QueryColumn, QueryLog, QueryMetadata,
    QueryRequest, QueryRow, QueryStats, ScanStats, SessionKind, TaskResponse, TaskStatus,
    UploadFormat, UploadMode, ValidateRequest, ValidateResponse,
};
pub use query::{QueryResultAll, ScannedQuery, StreamChunk};
pub use requests::{HttpMethod, RequestBody, RequestPlan, ResponseMeta};
