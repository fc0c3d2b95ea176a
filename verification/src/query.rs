//! Decoding the NDJSON body of a query: the first non-empty line is the
//! metadata, the first later line shaped like a column list gives the
//! columns, every other non-empty line is a row.
use crate::error::{
    context_view, error_context, opt_text, status_error, transport_error_view, AltertableError,
    ContextView, ErrorContext, ErrorSource, ErrorView,
};
use crate::json::{
    holds_entries, json_as_array, json_from_str, json_from_str_result, json_get, json_is_object,
    json_null, json_object_entries, json_shape, singleton_map, JsonShape,
};
use crate::models::{QueryColumn, QueryMetadata, QueryRow};
use crate::requests::{is_server_error, is_success, status_is_server_error, status_is_success, ResponseMeta};
use crate::text::{chars_of, lemma_split_lines_nonempty, split_lines, string_of, trim, trimmed_bounds};
use std::collections::HashMap;
use vstd::prelude::*;
use vstd::string::StringExecFns;
use vstd::utf8::{decode_utf8, valid_utf8};

verus! {

/// Whether a line's value lists columns: an array of objects, or an object
/// whose `columns` entry is an array.
pub open spec fn is_columns_shape(value: serde_json::Value) -> bool {
    match json_shape(value) {
        JsonShape::Array(items) => forall|i: int|
            0 <= i < items.len() ==> #[trigger] json_shape(items[i]) is Object,
        JsonShape::Object(m) => m.contains_key("columns"@) && json_shape(m["columns"@]) is Array,
        _ => false,
    }
}

/// Whether `value` lists columns.
pub fn is_columns_line(value: &serde_json::Value) -> (r: bool)
    ensures
        r == is_columns_shape(*value),
{
    if let Some(items) = json_as_array(value) {
        let mut i: usize = 0;
        while i < items.len()
            invariant
                i <= items@.len(),
                json_shape(*value) matches JsonShape::Array(s) && s == items@,
                forall|j: int| 0 <= j < i ==> #[trigger] json_shape(items@[j]) is Object,
            decreases items@.len() - i,
        {
            if !json_is_object(&items[i]) {
                return false;
            }
            i = i + 1;
        }
        true
    } else if json_is_object(value) {
        match json_get(value, "columns") {
            Some(columns) => json_as_array(columns).is_some(),
            None => false,
        }
    } else {
        false
    }
}

/// The entries that the metadata line gives: an object's own entries, or
/// any other value under the key `value`.
pub open spec fn metadata_entries(value: serde_json::Value) -> Map<Seq<char>, serde_json::Value> {
    match json_shape(value) {
        JsonShape::Object(m) => m,
        _ => map!["value"@ => value],
    }
}

/// The metadata of a query result, from its first line.
pub fn parse_metadata(value: &serde_json::Value) -> (r: QueryMetadata)
    ensures
        holds_entries(r.values@, metadata_entries(*value)),
{
    if json_is_object(value) {
        QueryMetadata { values: json_object_entries(value) }
    } else {
        let key = "value".to_owned();
        let values = singleton_map(key, value.clone());
        proof {
            let m = metadata_entries(*value);
            assert forall|k: String| #[trigger] values@.contains_key(k) implies m.contains_key(k@)
                && values@[k] == m[k@] by {
                assert(k == key);
            }
            assert forall|s: Seq<char>| #[trigger] m.contains_key(s) implies exists|k: String|
                k@ == s && #[trigger] values@.contains_key(k) by {
                assert(values@.contains_key(key));
            }
        }
        QueryMetadata { values }
    }
}

/// The value that holds the column list of a columns line: the line itself
/// when it is an array, its `columns` entry when it is an object, else null.
pub open spec fn is_columns_payload(value: serde_json::Value, payload: serde_json::Value) -> bool {
    match json_shape(value) {
        JsonShape::Array(_) => payload == value,
        JsonShape::Object(m) => if m.contains_key("columns"@) {
            payload == m["columns"@]
        } else {
            json_shape(payload) is Null
        },
        _ => json_shape(payload) is Null,
    }
}

/// Picks the value that holds the column list of a columns line; the
/// caller decodes it into `QueryColumn`s.
pub fn columns_payload(value: &serde_json::Value) -> (r: serde_json::Value)
    ensures
        is_columns_payload(*value, r),
{
    if json_as_array(value).is_some() {
        value.clone()
    } else if json_is_object(value) {
        match json_get(value, "columns") {
            Some(columns) => columns.clone(),
            None => json_null(),
        }
    } else {
        json_null()
    }
}

/// The context of every error of a query call.
pub open spec fn query_context(
    status: Option<u16>,
    retriable: bool,
    request_id: Option<Seq<char>>,
    correlation_id: Option<Seq<char>>,
) -> ContextView {
    context_view("query"@, "POST"@, "/query"@, status, retriable, request_id, correlation_id)
}

/// The context of an error of a query call that got the response `meta`.
pub open spec fn query_context_for(meta: ResponseMeta, retriable: bool) -> ContextView {
    query_context(Some(meta.status), retriable, opt_text(meta.request_id), opt_text(meta.correlation_id))
}

/// The error for a column list that does not decode.
pub open spec fn columns_error_view(error: serde_json::Error) -> ErrorView {
    ErrorView::Parse {
        context: query_context(None, false, None, None),
        message: "failed to parse query columns"@,
        line: None,
        source: Some(ErrorSource::Json(error)),
    }
}

/// The error for a column list that does not decode into `QueryColumn`s.
pub fn columns_error(error: serde_json::Error) -> (r: AltertableError)
    ensures
        r@ == columns_error_view(error),
{
    AltertableError::ParseError {
        context: error_context("query", "POST", "/query", None, false, None, None),
        message: "failed to parse query columns".to_owned(),
        line: None,
        source: Some(ErrorSource::Json(error)),
    }
}

/// Where a scan of the lines stands: stopped at a line that is no JSON,
/// or still going with what it has gathered.
pub enum ScanView {
    Failed { line: nat, text: Seq<char>, error: serde_json::Error, columns: Option<serde_json::Value> },
    Running {
        metadata: Option<serde_json::Value>,
        columns: Option<serde_json::Value>,
        rows: Seq<serde_json::Value>,
    },
}

/// A value read from a line, taken into a running scan: the first value is
/// the metadata; the first later columns-shaped value is the column list;
/// every other value is a row. A stopped scan stays as it is.
pub open spec fn accept_value(state: ScanView, value: serde_json::Value) -> ScanView {
    match state {
        ScanView::Failed { .. } => state,
        ScanView::Running { metadata, columns, rows } => if metadata is None {
            ScanView::Running { metadata: Some(value), columns, rows }
        } else if columns is None && is_columns_shape(value) {
            ScanView::Running { metadata, columns: Some(value), rows }
        } else {
            ScanView::Running { metadata, columns, rows: rows.push(value) }
        },
    }
}

/// Takes a value read from a line into the running scan that `metadata`,
/// `columns` and `rows` hold.
pub fn scan_value(
    metadata: &mut Option<serde_json::Value>,
    columns: &mut Option<serde_json::Value>,
    rows: &mut Vec<serde_json::Value>,
    value: serde_json::Value,
)
    ensures
        (ScanView::Running { metadata: *final(metadata), columns: *final(columns), rows: final(rows)@ })
            == accept_value(
            (ScanView::Running { metadata: *old(metadata), columns: *old(columns), rows: old(rows)@ }),
            value,
        ),
            *old(metadata) is Some && *old(columns) is Some ==> final(rows)@ == old(rows)@.push(value)
                && *final(metadata) == *old(metadata) && *final(columns) == *old(columns),
            *old(metadata) is None ==> *final(metadata) == Some(value) && final(rows)@ == old(rows)@,
{
    if metadata.is_none() {
        *metadata = Some(value);
    } else if columns.is_none() && is_columns_line(&value) {
        *columns = Some(value);
    } else {
        rows.push(value);
    }
}

/// One line of the scan: blank lines are skipped; a line that is no JSON
/// stops the scan; the first value is the metadata; the first later
/// columns-shaped value is the column list; every other value is a row.
pub open spec fn scan_step(state: ScanView, line: nat, piece: Seq<char>) -> ScanView {
    match state {
        ScanView::Failed { .. } => state,
        ScanView::Running { metadata, columns, rows } => {
            let text = trim(piece);
            if text.len() == 0 {
                state
            } else {
                match json_from_str_result(text) {
                    Err(error) => ScanView::Failed { line, text, error, columns },
                    Ok(value) => accept_value(state, value),
                }
            }
        },
    }
}

/// The scan of a sequence of lines, numbered from 1.
pub open spec fn scan_pieces(pieces: Seq<Seq<char>>) -> ScanView
    decreases pieces.len(),
{
    if pieces.len() == 0 {
        ScanView::Running { metadata: None, columns: None, rows: Seq::empty() }
    } else {
        scan_step(scan_pieces(pieces.drop_last()), pieces.len(), pieces.last())
    }
}

/// The scan of a query body.
pub open spec fn scan_text(text: Seq<char>) -> ScanView {
    scan_pieces(split_lines(text))
}

/// The scan state that the exec state of `scan_lines` stands for.
pub open spec fn state_view(
    metadata: Option<serde_json::Value>,
    columns: Option<serde_json::Value>,
    rows: Seq<serde_json::Value>,
    failure: Option<(usize, String, serde_json::Error)>,
) -> ScanView {
    match failure {
        Some((line, text, error)) => ScanView::Failed { line: line as nat, text: text@, error, columns },
        None => ScanView::Running { metadata, columns, rows },
    }
}

fn scan_piece(
    chars: &Vec<char>,
    start: usize,
    end: usize,
    index: usize,
    metadata: &mut Option<serde_json::Value>,
    columns: &mut Option<serde_json::Value>,
    rows: &mut Vec<serde_json::Value>,
    failure: &mut Option<(usize, String, serde_json::Error)>,
)
    requires
        index <= start <= end <= chars@.len(),
    ensures
        state_view(*final(metadata), *final(columns), final(rows)@, *final(failure)) == scan_step(
            state_view(*old(metadata), *old(columns), old(rows)@, *old(failure)),
            index as nat + 1,
            chars@.subrange(start as int, end as int),
        ),
{
    if failure.is_some() {
        return ;
    }
    let (a, b) = trimmed_bounds(chars, start, end);
    if a == b {
        return ;
    }
    let text = string_of(chars, a, b);
    match json_from_str(text.as_str()) {
        Err(error) => {
            *failure = Some((index + 1, text, error));
        },
        Ok(value) => {
            scan_value(metadata, columns, rows, value);
        },
    }
}

/// What a scan of a query body gathered: the metadata, the value that
/// holds the column list (to be decoded by the caller), the rows, and the
/// error of the first line that is no JSON, if any.
pub struct ScannedQuery {
    pub metadata: QueryMetadata,
    pub columns: Option<serde_json::Value>,
    pub rows: Vec<QueryRow>,
    pub failure: Option<AltertableError>,
}

/// The error for line `line` of a query body, holding `text`, that is no JSON.
pub open spec fn line_error_view(
    context: ContextView,
    line: nat,
    text: Seq<char>,
    error: serde_json::Error,
) -> ErrorView {
    ErrorView::Parse {
        context,
        message: "failed to parse NDJSON line: "@ + text,
        line: Some(line as usize),
        source: Some(ErrorSource::Json(error)),
    }
}

/// Whether `s` holds what the scan `v` gathered, with errors in `context`.
pub open spec fn scanned_as(s: ScannedQuery, v: ScanView, context: ContextView) -> bool {
    match v {
        ScanView::Failed { line, text, error, columns } => {
            &&& s.failure matches Some(e) && e@ == line_error_view(context, line, text, error)
            &&& payload_of(s.columns, columns)
        },
        ScanView::Running { metadata, columns, rows } => {
            &&& s.failure is None
            &&& holds_entries(
                s.metadata.values@,
                match metadata {
                    Some(m) => metadata_entries(m),
                    None => Map::empty(),
                },
            )
            &&& payload_of(s.columns, columns)
            &&& s.rows@ == rows
        },
    }
}

/// Whether `payload` is the column list held by the columns line `line`.
pub open spec fn payload_of(
    payload: Option<serde_json::Value>,
    line: Option<serde_json::Value>,
) -> bool {
    match line {
        Some(v) => payload matches Some(p) && is_columns_payload(v, p),
        None => payload is None,
    }
}

/// Scans the lines of a query body. An error carries `context`.
pub fn scan_lines(text: &str, context: ErrorContext) -> (r: ScannedQuery)
    ensures
        scanned_as(r, scan_text(text@), context@),
{
    let chars = chars_of(text);
    let mut metadata: Option<serde_json::Value> = None;
    let mut columns: Option<serde_json::Value> = None;
    let mut rows: Vec<serde_json::Value> = Vec::new();
    let mut failure: Option<(usize, String, serde_json::Error)> = None;
    let mut start: usize = 0;
    let mut index: usize = 0;
    let mut i: usize = 0;
    proof {
        assert(text@.take(0) =~= Seq::<char>::empty());
        reveal_with_fuel(split_lines, 1);
    }
    while i < chars.len()
        invariant
            chars@ == text@,
            index <= start <= i <= chars@.len(),
            split_lines(text@.take(i as int)).len() == index + 1,
            split_lines(text@.take(i as int)).last() == chars@.subrange(start as int, i as int),
            state_view(metadata, columns, rows@, failure) == scan_pieces(
                split_lines(text@.take(i as int)).drop_last(),
            ),
        decreases chars@.len() - i,
    {
        let ghost pieces = split_lines(text@.take(i as int));
        proof {
            assert(text@.take(i + 1).drop_last() =~= text@.take(i as int));
            assert(text@.take(i + 1).last() == chars@[i as int]);
            lemma_split_lines_nonempty(text@.take(i as int));
            assert(pieces =~= pieces.drop_last().push(pieces.last()));
        }
        if chars[i] == '\n' {
            scan_piece(&chars, start, i, index, &mut metadata, &mut columns, &mut rows, &mut failure);
            proof {
                assert(split_lines(text@.take(i + 1)) == pieces.push(Seq::<char>::empty()));
                assert(split_lines(text@.take(i + 1)).drop_last() =~= pieces);
                assert(chars@.subrange(i + 1, i + 1) =~= Seq::<char>::empty());
            }
            start = i + 1;
            index = index + 1;
        } else {
            proof {
                let next = split_lines(text@.take(i + 1));
                assert(next == pieces.update(pieces.len() - 1, pieces.last().push(chars@[i as int])));
                assert(next.drop_last() =~= pieces.drop_last());
                assert(next.last() =~= chars@.subrange(start as int, i + 1));
            }
        }
        i = i + 1;
    }
    scan_piece(&chars, start, i, index, &mut metadata, &mut columns, &mut rows, &mut failure);
    proof {
        let pieces = split_lines(text@.take(i as int));
        lemma_split_lines_nonempty(text@.take(i as int));
        assert(text@.take(i as int) =~= text@);
        assert(pieces =~= pieces.drop_last().push(pieces.last()));
        assert(pieces.drop_last().push(pieces.last()).drop_last() =~= pieces.drop_last());
    }
    let metadata = match &metadata {
        Some(value) => parse_metadata(value),
        None => QueryMetadata { values: HashMap::new() },
    };
    let payload = match &columns {
        Some(value) => Some(columns_payload(value)),
        None => None,
    };
    let failure = match failure {
        Some((line, text, error)) => {
            let mut message = "failed to parse NDJSON line: ".to_owned();
            message.append(text.as_str());
            Some(
                AltertableError::ParseError {
                    context,
                    message,
                    line: Some(line),
                    source: Some(ErrorSource::Json(error)),
                },
            )
        },
        None => None,
    };
    ScannedQuery { metadata, columns: payload, rows, failure }
}


/// Calls `String::from_utf8`, which takes the bytes exactly when they are
/// UTF-8, and then holds the characters they encode.
#[verifier::external_body]
pub(crate) fn utf8_string(bytes: Vec<u8>) -> (r: Result<String, std::string::FromUtf8Error>)
    ensures
        (r is Ok) == valid_utf8(bytes@),
        r matches Ok(s) ==> s@ == decode_utf8(bytes@),
{
    String::from_utf8(bytes)
}

fn query_error_context(meta: ResponseMeta, retriable: bool) -> (r: ErrorContext)
    ensures
        r@ == query_context_for(meta, retriable),
{
    error_context("query", "POST", "/query", Some(meta.status), retriable, meta.request_id, meta.correlation_id)
}

/// What a query response calls for next, by its status: for a 2xx status,
/// its body read as bytes and scanned as NDJSON (`decode_query_body`);
/// otherwise its body read as text, which `query_failure` turns into the
/// error for that status.
#[derive(Debug)]
pub enum QueryRead {
    Ndjson,
    FailureText,
}

/// Decides how the body of a query response is to be read.
pub fn query_read(meta: &ResponseMeta) -> (r: QueryRead)
    ensures
        (r is Ndjson) == is_success(meta.status),
        (r is FailureText) == !is_success(meta.status),
{
    if status_is_success(meta.status) {
        QueryRead::Ndjson
    } else {
        QueryRead::FailureText
    }
}

/// The error for a query answered with a non-success status and `body`.
pub fn query_failure(meta: ResponseMeta, body: String) -> (r: AltertableError)
    requires
        100 <= meta.status <= 999,
    ensures
        r@ == status_error(query_context_for(meta, is_server_error(meta.status)), meta.status, body@),
{
    let status = meta.status;
    let retriable = status_is_server_error(status);
    AltertableError::from_status(query_error_context(meta, retriable), status, body)
}

/// The error for a query response whose body could not be read.
pub fn query_read_error(meta: ResponseMeta, error: reqwest::Error) -> (r: AltertableError)
    ensures
        r@ == transport_error_view(query_context_for(meta, false), error),
{
    AltertableError::from_reqwest(error, query_error_context(meta, false))
}

/// Whether `e` is the error for a query body that is no UTF-8.
pub open spec fn is_utf8_error(e: ErrorView, context: ContextView) -> bool {
    e matches ErrorView::Parse { context: c, message, line: None, source: Some(ErrorSource::Utf8(_)) }
        && c == context && message == "query response was not valid UTF-8"@
}

/// Decodes the body of a successful query response: it must be UTF-8,
/// and its lines are then scanned.
pub fn decode_query_body(meta: ResponseMeta, bytes: Vec<u8>) -> (r: Result<
    ScannedQuery,
    AltertableError,
>)
    ensures
        if valid_utf8(bytes@) {
            r matches Ok(s) && scanned_as(
                s,
                scan_text(decode_utf8(bytes@)),
                query_context_for(meta, false),
            )
        } else {
            r matches Err(e) && is_utf8_error(e@, query_context_for(meta, false))
        },
{
    let context = query_error_context(meta, false);
    match utf8_string(bytes) {
        Ok(text) => Ok(scan_lines(text.as_str(), context)),
        Err(error) => Err(
            AltertableError::ParseError {
                context,
                message: "query response was not valid UTF-8".to_owned(),
                line: None,
                source: Some(ErrorSource::Utf8(error)),
            },
        ),
    }
}

/// A query result with all its rows.
#[derive(Debug, Clone, PartialEq)]
pub struct QueryResultAll {
    pub metadata: QueryMetadata,
    pub columns: Vec<QueryColumn>,
    pub rows: Vec<QueryRow>,
}

/// One piece of a query result.
#[derive(Debug, Clone, PartialEq)]
pub enum StreamChunk {
    Metadata(QueryMetadata),
    Columns(Vec<QueryColumn>),
    Row(QueryRow),
}

/// Completes a scanned query with the outcome of decoding its column list
/// (`None` where it has none). A column list that does not decode is the
/// error, since its line comes before any line that is no JSON; otherwise
/// the first such line is; otherwise the result holds the metadata, the
/// columns (none without a column list) and every row, in order.
pub fn finish_query(
    scanned: ScannedQuery,
    columns: Option<Result<Vec<QueryColumn>, serde_json::Error>>,
) -> (r: Result<QueryResultAll, AltertableError>)
    ensures
        match columns {
            Some(Err(error)) => r matches Err(e) && e@ == columns_error_view(error),
            _ => match scanned.failure {
                Some(f) => r matches Err(e) && e == f,
                None => r matches Ok(q) && q.metadata == scanned.metadata && q.rows == scanned.rows
                    && q.columns@ == match columns {
                    Some(Ok(c)) => c@,
                    _ => Seq::empty(),
                },
            },
        },
{
    let columns = match columns {
        Some(Err(error)) => {
            return Err(columns_error(error));
        },
        Some(Ok(c)) => c,
        None => Vec::new(),
    };
    match scanned.failure {
        Some(failure) => Err(failure),
        None => Ok(QueryResultAll { metadata: scanned.metadata, columns, rows: scanned.rows }),
    }
}

} // verus!
