# camelmailer-rs

Rust SDK for CamelMailer, the open-source transactional email platform,
with its decisions verified by Verus.

## Layout

- `src/` is the verified library. For every endpoint it states the
  request a call makes (method, URL under the base URL, the
  `X-Server-API-Key` and `Idempotency-Key` headers, query and JSON body),
  how a response envelope is judged (`Http::parse_envelope`), and the
  helpers around them: client configuration and its URL checks, address
  and attachment encoding, base64, the percent encoding of subscriber
  addresses in paths, message headers kept in name order, and error
  classification. Each function carries a contract, and the laws of the
  library (that the replay key is a header only, that escaping and
  base64 lose nothing, that setting a header twice keeps the last value,
  that a built base URL never ends in a slash, how a campaign schedule is
  sent) are proof functions beside the code they speak of.
- `app/` sends what the library prepares: the async calls of each
  service over reqwest, the blocking client on a private tokio runtime,
  serde copies of the response types, and the response types that carry
  floating-point numbers.
- `tests/` runs the library on concrete values.
