//! Inbound and held messages (`/api/v2/server/inbound`).

use vstd::prelude::*;

use crate::http::{no_params, opt_number, opt_param, opt_text, push_number_param, push_text_param, widen_u32, widen_u32_exec, Http, Method, PreparedRequest};
use crate::types::pairs_view;
use crate::json::is_text;
use crate::text::{signed_decimal, signed_decimal_string};

verus! {

/// Service for inbound and held messages. Obtain via [`CamelMailer::inbound`](crate::CamelMailer::inbound).
///
/// Each method gives the request that the call makes.
#[derive(Debug, Clone, Copy)]
pub struct Inbound<'a> {
    /// The transport.
    pub http: &'a Http,
}

impl crate::CamelMailer {
    /// Inbound and held messages.
    pub fn inbound(&self) -> (s: Inbound<'_>)
        ensures
            *s.http == self.spec_http(),
    {
        Inbound { http: self.http() }
    }
}

impl Inbound<'_> {
    /// Inbound messages, filtered and paginated (`GET /api/v2/server/inbound`).
    pub fn list_request(&self, params: &ListInboundParams) -> (r: PreparedRequest)
        ensures
            self.http.sends(r, Method::Get, "/api/v2/server/inbound"@, None, params.query_params(), None),
    {
        let path = "/api/v2/server/inbound".to_owned();
        self.http.prepare(Method::Get, path, params.to_query(), None, None)
    }

    /// One inbound message (`GET /api/v2/server/inbound/{id}`).
    pub fn get_request(&self, id: i64) -> (r: PreparedRequest)
        ensures
            self.http.sends(r, Method::Get, "/api/v2/server/inbound/"@ + signed_decimal(id as int), None, seq![], None),
    {
        let mut path = "/api/v2/server/inbound/".to_owned();
        path.append(signed_decimal_string(id).as_str());
        self.http.prepare(Method::Get, path, no_params(), None, None)
    }

    /// Retry a held inbound message (`POST /api/v2/server/inbound/{id}/retry`).
    pub fn retry_request(&self, id: i64) -> (r: PreparedRequest)
        ensures
            self.http.sends(r, Method::Post, "/api/v2/server/inbound/"@ + signed_decimal(id as int) + "/retry"@, None, seq![], None),
    {
        let mut path = "/api/v2/server/inbound/".to_owned();
        path.append(signed_decimal_string(id).as_str());
        path.append("/retry");
        self.http.prepare(Method::Post, path, no_params(), None, None)
    }

    /// Release a held inbound message past its hold (`POST /api/v2/server/inbound/{id}/bypass`).
    pub fn bypass_request(&self, id: i64) -> (r: PreparedRequest)
        ensures
            self.http.sends(r, Method::Post, "/api/v2/server/inbound/"@ + signed_decimal(id as int) + "/bypass"@, None, seq![], None),
    {
        let mut path = "/api/v2/server/inbound/".to_owned();
        path.append(signed_decimal_string(id).as_str());
        path.append("/bypass");
        self.http.prepare(Method::Post, path, no_params(), None, None)
    }
}

/// Filters for listing inbound messages. All optional.
#[derive(Debug, Clone, PartialEq, Eq)]
pub struct ListInboundParams {
    /// Page number (1-based).
    pub page: Option<u32>,
    /// Entries per page.
    pub per_page: Option<u32>,
    /// Message status, e.g. `held`.
    pub status: Option<String>,
    /// Restrict to one stream (by permalink).
    pub stream: Option<String>,
    /// Substring match.
    pub query: Option<String>,
}

impl ListInboundParams {
    /// No filters.
    pub fn new() -> (p: ListInboundParams)
        ensures
            p.page is None && p.per_page is None && p.status is None && p.stream is None && p.query is None,
    {
        ListInboundParams { page: None, per_page: None, status: None, stream: None, query: None }
    }

    /// Page number (1-based).
    pub fn page(self, page: u32) -> (r: ListInboundParams)
        ensures
            r == (ListInboundParams { page: Some(page), ..self }),
    {
        ListInboundParams { page: Some(page), ..self }
    }

    /// Entries per page.
    pub fn per_page(self, per_page: u32) -> (r: ListInboundParams)
        ensures
            r == (ListInboundParams { per_page: Some(per_page), ..self }),
    {
        ListInboundParams { per_page: Some(per_page), ..self }
    }

    /// Message status, e.g. `held`.
    pub fn status(self, status: &str) -> (r: ListInboundParams)
        ensures
            is_text(r.status, status@),
            r == (ListInboundParams { status: r.status, ..self }),
    {
        ListInboundParams { status: Some(status.to_owned()), ..self }
    }

    /// Restrict to one stream (by permalink).
    pub fn stream(self, stream: &str) -> (r: ListInboundParams)
        ensures
            is_text(r.stream, stream@),
            r == (ListInboundParams { stream: r.stream, ..self }),
    {
        ListInboundParams { stream: Some(stream.to_owned()), ..self }
    }

    /// Substring match.
    pub fn query(self, query: &str) -> (r: ListInboundParams)
        ensures
            is_text(r.query, query@),
            r == (ListInboundParams { query: r.query, ..self }),
    {
        ListInboundParams { query: Some(query.to_owned()), ..self }
    }

    /// The query parameters: the set filters, in field order.
    pub open spec fn query_params(self) -> Seq<(Seq<char>, Seq<char>)> {
        opt_param("page"@, opt_number(widen_u32(self.page)))
            + opt_param("per_page"@, opt_number(widen_u32(self.per_page)))
            + opt_param("status"@, opt_text(self.status))
            + opt_param("stream"@, opt_text(self.stream))
            + opt_param("query"@, opt_text(self.query))
    }

    /// The query parameters to send.
    pub fn to_query(&self) -> (q: Vec<(String, String)>)
        ensures
            pairs_view(q@) == self.query_params(),
    {
        let mut q: Vec<(String, String)> = Vec::new();
        push_number_param(&mut q, "page", widen_u32_exec(self.page));
        push_number_param(&mut q, "per_page", widen_u32_exec(self.per_page));
        push_text_param(&mut q, "status", &self.status);
        push_text_param(&mut q, "stream", &self.stream);
        push_text_param(&mut q, "query", &self.query);
        assert(pairs_view(q@) =~= opt_param("page"@, opt_number(widen_u32(self.page)))
            + opt_param("per_page"@, opt_number(widen_u32(self.per_page)))
            + opt_param("status"@, opt_text(self.status))
            + opt_param("stream"@, opt_text(self.stream))
            + opt_param("query"@, opt_text(self.query)));
        q
    }
}

/// What a retry or bypass did. The endpoint answers with `requeued`
/// and a `message`.
#[derive(Debug, Clone, PartialEq, Eq)]
pub struct RequeueResult {
    /// Whether the message went back on the delivery queue.
    pub requeued: bool,
    /// The server's description of what happened, when it gives one.
    pub message: Option<String>,
}

} // verus!
