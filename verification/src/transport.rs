//! The pieces of `reqwest` (and the `http` types it re-exports), `base64`
//! and `std::time` that the client is built from, and what the library
//! takes as given of each.
use base64::Engine;
use vstd::utf8::encode_utf8;
use vstd::prelude::*;

verus! {

#[verifier::external_type_specification]
#[verifier::external_body]
pub struct ExHttpClient(reqwest::Client);

#[verifier::external_type_specification]
#[verifier::external_body]
pub struct ExHeaderValue(reqwest::header::HeaderValue);

#[verifier::external_type_specification]
#[verifier::external_body]
pub struct ExInvalidHeaderValue(reqwest::header::InvalidHeaderValue);

#[verifier::external_type_specification]
#[verifier::external_body]
#[verifier::reject_recursive_types(T)]
pub struct ExHeaderMap<T>(reqwest::header::HeaderMap<T>);

/// The `Duration` that `Duration::from_secs(secs)` returns.
pub uninterp spec fn duration_of_secs(secs: u64) -> std::time::Duration;

/// `Duration::from_secs` is a plain constructor.
pub assume_specification[ core::time::Duration::from_secs ](secs: u64) -> (r: core::time::Duration)
    ensures
        r == duration_of_secs(secs),
;

/// `Duration` is `Copy`: its `clone` returns the same value.
pub assume_specification[ <core::time::Duration as Clone>::clone ](d: &core::time::Duration) -> (r: core::time::Duration)
    ensures
        r == *d,
;

/// What a header value holds: its bytes, and whether it is marked sensitive.
pub uninterp spec fn header_value_contents(value: reqwest::header::HeaderValue) -> (Seq<u8>, bool);

/// The value that `HeaderMap::get` finds in `headers` under the name
/// `name` (the first one, where a name has several).
pub uninterp spec fn header_lookup(headers: reqwest::header::HeaderMap, name: Seq<char>) -> Option<reqwest::header::HeaderValue>;

/// Calls `HeaderMap::get` with a name.
#[verifier::external_body]
pub(crate) fn header_map_get<'a>(headers: &'a reqwest::header::HeaderMap, name: &str) -> (r: Option<&'a reqwest::header::HeaderValue>)
    ensures
        match header_lookup(*headers, name@) {
            Some(v) => r matches Some(x) && *x == v,
            None => r is None,
        },
{
    headers.get(name)
}

/// The bytes that `HeaderValue::to_str` accepts: visible ASCII and tab.
pub open spec fn visible_ascii(b: u8) -> bool {
    (32 <= b < 127) || b == 9
}

/// Calls `HeaderValue::to_str`, which gives the text of a value exactly
/// when each of its bytes is visible ASCII or tab.
#[verifier::external_body]
pub(crate) fn header_value_to_str(value: &reqwest::header::HeaderValue) -> (r: Option<&str>)
    ensures
        (r is Some) == (forall|i: int| 0 <= i < header_value_contents(*value).0.len() ==> visible_ascii(#[trigger] header_value_contents(*value).0[i])),
        r matches Some(s) ==> encode_utf8(s@) == header_value_contents(*value).0,
{
    value.to_str().ok()
}

/// A cloned header value holds the same bytes and flag.
pub assume_specification[ <reqwest::header::HeaderValue as Clone>::clone ](v: &reqwest::header::HeaderValue) -> (r: reqwest::header::HeaderValue)
    ensures
        header_value_contents(r) == header_value_contents(*v),
;

/// Cloning a `reqwest::Client` gives a handle on the same client, with the
/// same settings.
pub assume_specification[ <reqwest::Client as Clone>::clone ](c: &reqwest::Client) -> (r: reqwest::Client)
    ensures
        http_client_settings(r) == http_client_settings(*c),
;

/// The bytes that a header value may hold: visible ASCII, tab, and any byte
/// from 0x80 up.
pub open spec fn header_byte_ok(b: u8) -> bool {
    (b >= 32 && b != 127) || b == 9
}

/// Whether every byte of `bytes` may stand in a header value.
pub open spec fn header_bytes_ok(bytes: Seq<u8>) -> bool {
    forall|i: int| 0 <= i < bytes.len() ==> header_byte_ok(#[trigger] bytes[i])
}

/// Calls `HeaderValue::from_str`, which accepts the text exactly when each
/// of its bytes is allowed, and then holds those bytes, not yet marked
/// sensitive.
#[verifier::external_body]
pub(crate) fn header_value_from_str(text: &str) -> (r: Result<
    reqwest::header::HeaderValue,
    reqwest::header::InvalidHeaderValue,
>)
    ensures
        (r is Ok) == header_bytes_ok(encode_utf8(text@)),
        r matches Ok(v) ==> header_value_contents(v) == (encode_utf8(text@), false),
{
    reqwest::header::HeaderValue::from_str(text)
}

/// Calls `HeaderValue::set_sensitive`, which changes the flag and nothing
/// else.
#[verifier::external_body]
pub(crate) fn header_value_set_sensitive(value: &mut reqwest::header::HeaderValue, sensitive: bool)
    ensures
        header_value_contents(*final(value)) == (header_value_contents(*old(value)).0, sensitive),
{
    value.set_sensitive(sensitive)
}

/// Calls `ToString::to_string` on an `InvalidHeaderValue`, whose `Display`
/// writes one fixed sentence.
#[verifier::external_body]
pub(crate) fn invalid_header_value_message(error: &reqwest::header::InvalidHeaderValue) -> (r: String)
    ensures
        r@ == "failed to parse header value"@,
{
    error.to_string()
}

/// The character of the standard base64 alphabet for a six-bit value:
/// `A`-`Z`, `a`-`z`, `0`-`9`, `+` and `/`.
pub open spec fn base64_digit(n: int) -> char {
    if n < 26 {
        (65 + n) as char
    } else if n < 52 {
        (97 + n - 26) as char
    } else if n < 62 {
        (48 + n - 52) as char
    } else if n == 62 {
        '+'
    } else {
        '/'
    }
}

/// The standard, padded base64 encoding of `data`: each group of three
/// bytes becomes four digits of six bits, and a last group of one or two
/// bytes is filled up with `=`.
pub open spec fn base64_standard(data: Seq<u8>) -> Seq<char>
    decreases data.len(),
{
    if data.len() == 0 {
        seq![]
    } else if data.len() == 1 {
        let b0 = data[0] as int;
        seq![base64_digit(b0 / 4), base64_digit((b0 % 4) * 16), '=', '=']
    } else if data.len() == 2 {
        let (b0, b1) = (data[0] as int, data[1] as int);
        seq![base64_digit(b0 / 4), base64_digit((b0 % 4) * 16 + b1 / 16), base64_digit((b1 % 16) * 4), '=']
    } else {
        let (b0, b1, b2) = (data[0] as int, data[1] as int, data[2] as int);
        seq![
            base64_digit(b0 / 4),
            base64_digit((b0 % 4) * 16 + b1 / 16),
            base64_digit((b1 % 16) * 4 + b2 / 64),
            base64_digit(b2 % 64),
        ] + base64_standard(data.skip(3))
    }
}

/// The characters of the standard base64 alphabet, and the padding `=`.
pub open spec fn is_base64_char(c: char) -> bool {
    ||| 'A' <= c <= 'Z'
    ||| 'a' <= c <= 'z'
    ||| '0' <= c <= '9'
    ||| c == '+'
    ||| c == '/'
    ||| c == '='
}

/// Every six-bit value has a digit of the alphabet.
pub proof fn lemma_base64_digit(n: int)
    requires
        0 <= n < 64,
    ensures
        is_base64_char(base64_digit(n)),
{
}

/// Base64 text is made of the alphabet and the padding alone.
pub proof fn lemma_base64_alphabet(data: Seq<u8>)
    ensures
        forall|i: int| 0 <= i < base64_standard(data).len() ==> is_base64_char(#[trigger] base64_standard(data)[i]),
    decreases data.len(),
{
    if data.len() == 0 {
    } else if data.len() <= 2 {
        let b0 = data[0] as int;
        lemma_base64_digit(b0 / 4);
        lemma_base64_digit((b0 % 4) * 16);
        if data.len() == 2 {
            let b1 = data[1] as int;
            lemma_base64_digit((b0 % 4) * 16 + b1 / 16);
            lemma_base64_digit((b1 % 16) * 4);
        }
    } else {
        let (b0, b1, b2) = (data[0] as int, data[1] as int, data[2] as int);
        lemma_base64_digit(b0 / 4);
        lemma_base64_digit((b0 % 4) * 16 + b1 / 16);
        lemma_base64_digit((b1 % 16) * 4 + b2 / 64);
        lemma_base64_digit(b2 % 64);
        lemma_base64_alphabet(data.skip(3));
        let head = seq![
            base64_digit(b0 / 4),
            base64_digit((b0 % 4) * 16 + b1 / 16),
            base64_digit((b1 % 16) * 4 + b2 / 64),
            base64_digit(b2 % 64),
        ];
        let tail = base64_standard(data.skip(3));
        assert forall|i: int| 0 <= i < base64_standard(data).len() implies is_base64_char(
            #[trigger] base64_standard(data)[i],
        ) by {
            if i >= 4 {
                assert(base64_standard(data)[i] == tail[i - 4]);
            } else {
                assert(base64_standard(data)[i] == head[i]);
            }
        }
    }
}

/// Calls `Engine::encode` of `base64::engine::general_purpose::STANDARD`,
/// which writes the standard, padded encoding; it panics only when the
/// output length overflows, which an input that fits in memory does not
/// reach.
#[verifier::external_body]
pub(crate) fn base64_encode(data: &[u8]) -> (r: String)
    requires
        data@.len() <= isize::MAX,
    ensures
        r@ == base64_standard(data@),
{
    base64::engine::general_purpose::STANDARD.encode(data)
}

/// What a built `reqwest::Client` was configured with: its connect
/// timeout, its request timeout, the idle connections it keeps per host and
/// its TCP keep-alive.
pub uninterp spec fn http_client_settings(client: reqwest::Client) -> (std::time::Duration, std::time::Duration, usize, std::time::Duration);

/// Calls `reqwest::Client::builder`, sets the timeouts, the idle pool size
/// and the TCP keep-alive, and builds the client from those settings.
/// Whether building succeeds depends on the system (TLS set-up), so success
/// is not promised.
#[verifier::external_body]
pub(crate) fn build_http_client(
    connect_timeout: std::time::Duration,
    request_timeout: std::time::Duration,
    max_idle_per_host: usize,
    keepalive: std::time::Duration,
) -> (r: Result<reqwest::Client, reqwest::Error>)
    ensures
        r matches Ok(c) ==> http_client_settings(c) == (connect_timeout, request_timeout, max_idle_per_host, keepalive),
{
    reqwest::Client::builder().connect_timeout(connect_timeout).timeout(request_timeout).pool_max_idle_per_host(max_idle_per_host).tcp_keepalive(keepalive).build()
}

} // verus!
