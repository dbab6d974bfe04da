//! The transport's decisions: what request a call makes (method, URL,
//! authentication header, replay key, query, body) and what a response
//! envelope means.
//!
//! Sending the request and reading the body are left to the caller; the
//! library says what to send and how to judge what came back.

use vstd::prelude::*;

use crate::error::Error;
use crate::json::{Json, JsonV};
use crate::pool::Pool;
use crate::text::{decimal, decimal_string, snippet, snippet_of};
use crate::types::pairs_view;

verus! {

/// An HTTP method.
#[derive(Debug, Clone, Copy, PartialEq, Eq)]
pub enum Method {
    /// `GET`
    Get,
    /// `POST`
    Post,
    /// `PATCH`
    Patch,
    /// `DELETE`
    Delete,
}

/// The headers every request carries: the server API key, and the
/// replay key when one was asked for.
pub open spec fn auth_headers(api_key: Seq<char>, idempotency_key: Option<Seq<char>>) -> Seq<
    (Seq<char>, Seq<char>),
> {
    seq![("X-Server-API-Key"@, api_key)] + match idempotency_key {
        Some(key) => seq![("Idempotency-Key"@, key)],
        None => seq![],
    }
}

/// The view of an optional borrowed string.
pub open spec fn opt_str_view(s: Option<&str>) -> Option<Seq<char>> {
    match s {
        Some(s) => Some(s@),
        None => None,
    }
}

/// The view of an optional body.
pub open spec fn opt_json_view(body: Option<Json>) -> Option<JsonV> {
    match body {
        Some(j) => Some(j@),
        None => None,
    }
}

/// A request ready to go out.
#[derive(Debug)]
pub struct PreparedRequest {
    /// The method.
    pub method: Method,
    /// The full URL, query excluded.
    pub url: String,
    /// Headers, in order.
    pub headers: Vec<(String, String)>,
    /// Query parameters, in order.
    pub query: Vec<(String, String)>,
    /// The JSON body, if any.
    pub body: Option<Json>,
}

/// The shared transport behind [`crate::CamelMailer`] and its services.
#[derive(Debug, Clone)]
pub struct Http {
    pool: Pool,
    base_url: String,
    api_key: String,
}

impl Http {
    /// The base URL (no trailing slash).
    pub closed spec fn spec_base_url(&self) -> Seq<char> {
        self.base_url@
    }

    /// The server API key.
    pub closed spec fn spec_api_key(&self) -> Seq<char> {
        self.api_key@
    }

    /// The connection pool the transport was made with.
    pub closed spec fn spec_pool(&self) -> Pool {
        self.pool
    }

    /// `r` is the request to `method` on `path` under this base URL, with
    /// the API key, the given replay key, query and body.
    pub open spec fn sends(
        &self,
        r: PreparedRequest,
        method: Method,
        path: Seq<char>,
        idempotency_key: Option<Seq<char>>,
        query: Seq<(Seq<char>, Seq<char>)>,
        body: Option<JsonV>,
    ) -> bool {
        &&& r.method == method
        &&& r.url@ == self.spec_base_url() + path
        &&& pairs_view(r.headers@) == auth_headers(self.spec_api_key(), idempotency_key)
        &&& pairs_view(r.query@) == query
        &&& opt_json_view(r.body) == body
    }

    /// The replay key is a header and nothing else: the request a call
    /// makes with a key and the one it makes without differ only by the
    /// `Idempotency-Key` header after the API key, so method, URL, query
    /// and the body the server hashes to recognise a replay are the same.
    pub proof fn lemma_replay_key_only_adds_a_header(
        &self,
        with_key: PreparedRequest,
        without_key: PreparedRequest,
        method: Method,
        path: Seq<char>,
        key: Seq<char>,
        query: Seq<(Seq<char>, Seq<char>)>,
        body: Option<JsonV>,
    )
        requires
            self.sends(with_key, method, path, Some(key), query, body),
            self.sends(without_key, method, path, None, query, body),
        ensures
            with_key.method == without_key.method,
            with_key.url@ == without_key.url@,
            pairs_view(with_key.query@) == pairs_view(without_key.query@),
            opt_json_view(with_key.body) == opt_json_view(without_key.body),
            pairs_view(with_key.headers@) == pairs_view(without_key.headers@).push(
                ("Idempotency-Key"@, key),
            ),
    {
        assert(auth_headers(self.spec_api_key(), Some(key)) =~= auth_headers(
            self.spec_api_key(),
            None,
        ).push(("Idempotency-Key"@, key)));
    }

    /// A transport over `pool` for the given base URL and key.
    pub fn new(pool: Pool, base_url: String, api_key: String) -> (h: Http)
        ensures
            h.spec_base_url() == base_url@,
            h.spec_api_key() == api_key@,
            h.spec_pool() == pool,
    {
        Http { pool, base_url, api_key }
    }

    /// The base URL requests go to.
    pub fn base_url(&self) -> (s: &str)
        ensures
            s@ == self.spec_base_url(),
    {
        self.base_url.as_str()
    }

    /// The connection pool requests go through.
    pub fn client(&self) -> (c: &reqwest::Client)
        ensures
            *c == self.spec_pool().spec_client(),
    {
        self.pool.client()
    }

    /// The pool requests go through, with the settings it was built from.
    pub fn pool(&self) -> (p: &Pool)
        ensures
            *p == self.spec_pool(),
    {
        &self.pool
    }

    /// The request for `method` on `path` (relative to the base URL).
    pub fn prepare(
        &self,
        method: Method,
        path: String,
        query: Vec<(String, String)>,
        body: Option<Json>,
        idempotency_key: Option<&str>,
    ) -> (r: PreparedRequest)
        ensures
            self.sends(r, method, path@, opt_str_view(idempotency_key), pairs_view(query@), opt_json_view(body)),
    {
        let mut url = self.base_url.clone();
        url.append(path.as_str());
        let mut headers: Vec<(String, String)> = Vec::new();
        headers.push(("X-Server-API-Key".to_owned(), self.api_key.clone()));
        match idempotency_key {
            Some(key) => {
                headers.push(("Idempotency-Key".to_owned(), key.to_owned()));
            },
            None => {},
        }
        assert(pairs_view(headers@) =~= auth_headers(self.api_key@, opt_str_view(idempotency_key)));
        PreparedRequest { method, url, headers, query, body }
    }

    /// Judge a response: its HTTP status, its body text, and the envelope
    /// that body holds (`None` when the body is not a CamelMailer
    /// envelope). Gives the envelope's `data` on success.
    ///
    /// A non-2xx status is never a success, whatever the body says.
    pub fn parse_envelope(status: u16, text: &str, envelope: Option<Envelope>) -> (res: Result<
        Option<serde_json::Value>,
        Error,
    >)
        ensures
            match envelope {
                None => res matches Err(Error::UnexpectedResponse { status: s, body }) && s
                    == status && body@ == snippet_of(text@),
                Some(env) => if env.status@ == "error"@ || !(200 <= status <= 299) {
                    res matches Err(Error::Api { code, message, status: s }) && s == status
                        && match env.error {
                        Some(e) => code@ == e.code@ && message@ == e.message@,
                        None => code@ == "Http"@ + decimal(status as nat) && message@
                            == snippet_of(text@),
                    }
                } else {
                    res == Ok::<Option<serde_json::Value>, Error>(env.data)
                },
            },
    {
        match envelope {
            None => Err(Error::UnexpectedResponse { status, body: snippet(text) }),
            Some(env) => {
                if env.status == "error".to_owned() || !(200 <= status && status <= 299) {
                    match env.error {
                        Some(e) => Err(Error::Api { code: e.code, message: e.message, status }),
                        None => {
                            let mut code = "Http".to_owned();
                            code.append(decimal_string(status as u64).as_str());
                            Err(Error::Api { code, message: snippet(text), status })
                        },
                    }
                } else {
                    Ok(env.data)
                }
            },
        }
    }
}

// ------------------------------------------------------------------ query

/// The query parameter `name=value` when a value is given, nothing
/// otherwise (a filter that is left out when unset).
pub open spec fn opt_param(name: Seq<char>, value: Option<Seq<char>>) -> Seq<(Seq<char>, Seq<char>)> {
    match value {
        Some(v) => seq![(name, v)],
        None => seq![],
    }
}

/// The view of an optional string parameter.
pub open spec fn opt_text(value: Option<String>) -> Option<Seq<char>> {
    match value {
        Some(s) => Some(s@),
        None => None,
    }
}

/// The decimal text of an optional number parameter.
pub open spec fn opt_number(value: Option<u64>) -> Option<Seq<char>> {
    match value {
        Some(n) => Some(decimal(n as nat)),
        None => None,
    }
}

/// An optional 32-bit number widened to 64 bits.
pub open spec fn widen_u32(value: Option<u32>) -> Option<u64> {
    match value {
        Some(n) => Some(n as u64),
        None => None,
    }
}

/// An optional 16-bit number widened to 64 bits.
pub open spec fn widen_u16(value: Option<u16>) -> Option<u64> {
    match value {
        Some(n) => Some(n as u64),
        None => None,
    }
}

/// Widen an optional 32-bit number.
pub fn widen_u32_exec(value: Option<u32>) -> (w: Option<u64>)
    ensures
        w == widen_u32(value),
{
    match value {
        Some(n) => Some(n as u64),
        None => None,
    }
}

/// Widen an optional 16-bit number.
pub fn widen_u16_exec(value: Option<u16>) -> (w: Option<u64>)
    ensures
        w == widen_u16(value),
{
    match value {
        Some(n) => Some(n as u64),
        None => None,
    }
}

/// No query parameters.
pub fn no_params() -> (q: Vec<(String, String)>)
    ensures
        pairs_view(q@) == Seq::<(Seq<char>, Seq<char>)>::empty(),
{
    let q: Vec<(String, String)> = Vec::new();
    assert(pairs_view(q@) =~= Seq::<(Seq<char>, Seq<char>)>::empty());
    q
}

/// Append `name=value` when a value is given.
pub fn push_text_param(params: &mut Vec<(String, String)>, name: &str, value: &Option<String>)
    ensures
        pairs_view(final(params)@) == pairs_view(old(params)@) + opt_param(name@, opt_text(*value)),
{
    match value {
        Some(v) => {
            params.push((name.to_owned(), v.clone()));
        },
        None => {},
    }
    assert(pairs_view(params@) =~= pairs_view(old(params)@) + opt_param(name@, opt_text(*value)));
}

/// Append `name=<decimal>` when a number is given.
pub fn push_number_param(params: &mut Vec<(String, String)>, name: &str, value: Option<u64>)
    ensures
        pairs_view(final(params)@) == pairs_view(old(params)@) + opt_param(
            name@,
            opt_number(value),
        ),
{
    match value {
        Some(n) => {
            params.push((name.to_owned(), decimal_string(n)));
        },
        None => {},
    }
    assert(pairs_view(params@) =~= pairs_view(old(params)@) + opt_param(
        name@,
        opt_number(value),
    ));
}

/// The error part of a response envelope.
#[derive(Debug)]
pub struct ErrorBody {
    /// The stable error code (empty when the server sent none).
    pub code: String,
    /// The description (empty when the server sent none).
    pub message: String,
}

/// A response envelope: `{ "status", "data"?, "error"? }`.
#[derive(Debug)]
pub struct Envelope {
    /// `success` or `error`.
    pub status: String,
    /// The payload of a successful call.
    pub data: Option<serde_json::Value>,
    /// The error of a failed call.
    pub error: Option<ErrorBody>,
}

} // verus!
