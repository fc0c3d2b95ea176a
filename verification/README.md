# altertable-lakehouse

A client library for the Altertable Lakehouse API whose logic is verified
with Verus.

- `src/` is the verified library. It checks the arguments of every API
  call and plans its request (method, URL, query parameters, headers,
  body), resolves credentials and builds the `Authorization` header, maps
  HTTP statuses and transport failures onto typed errors, and decodes the
  NDJSON body of a query into metadata, columns and rows. Each public
  function states its result in its `ensures`; `laws.rs` proves properties
  that relate several calls or inputs.
- The calls into `reqwest`, `serde_json`, `base64` and `std` that the
  library makes go through small trusted wrappers (`transport.rs`,
  `json.rs`, and a few in `error.rs` and `query.rs`), each documented with
  what it takes as given.
- `app/` is the asynchronous client around the library: it reads the
  environment, sends the planned requests with `reqwest`, and converts JSON
  to and from the library's types with `serde`.
- `tests/` runs the library on concrete inputs.
