//! The server's own request log and tag index
//! (`/api/v2/server/logs`, `/api/v2/server/tags`).

use vstd::prelude::*;

use crate::http::{
    no_params, opt_number, opt_param, opt_text, push_number_param, push_text_param, widen_u16,
    widen_u16_exec, widen_u32, widen_u32_exec, Http, Method, PreparedRequest,
};
use crate::types::pairs_view;
use crate::json::is_text;
use crate::types::Pagination;

verus! {

/// Service for the request log and tag index. Obtain via [`CamelMailer::logs`](crate::CamelMailer::logs).
///
/// Each method gives the request that the call makes.
#[derive(Debug, Clone, Copy)]
pub struct Logs<'a> {
    /// The transport.
    pub http: &'a Http,
}

impl crate::CamelMailer {
    /// The request log and tag index.
    pub fn logs(&self) -> (s: Logs<'_>)
        ensures
            *s.http == self.spec_http(),
    {
        Logs { http: self.http() }
    }
}

impl Logs<'_> {
    /// The API requests made against the server, filtered and paginated (`GET /api/v2/server/logs`).
    pub fn list_request(&self, params: &ListLogsParams) -> (r: PreparedRequest)
        ensures
            self.http.sends(r, Method::Get, "/api/v2/server/logs"@, None, params.query_params(), None),
    {
        let path = "/api/v2/server/logs".to_owned();
        self.http.prepare(Method::Get, path, params.to_query(), None, None)
    }

    /// The tags in use with their message counts (`GET /api/v2/server/tags`).
    pub fn tags_request(&self) -> (r: PreparedRequest)
        ensures
            self.http.sends(r, Method::Get, "/api/v2/server/tags"@, None, seq![], None),
    {
        let path = "/api/v2/server/tags".to_owned();
        self.http.prepare(Method::Get, path, no_params(), None, None)
    }
}

/// Filters for the request log. All optional.
#[derive(Debug, Clone, PartialEq, Eq)]
pub struct ListLogsParams {
    /// Page number (1-based).
    pub page: Option<u32>,
    /// Entries per page.
    pub per_page: Option<u32>,
    /// HTTP method, e.g. `POST`.
    pub method: Option<String>,
    /// Request path.
    pub path: Option<String>,
    /// Response status code.
    pub status: Option<u16>,
}

impl ListLogsParams {
    /// No filters.
    pub fn new() -> (p: ListLogsParams)
        ensures
            p.page is None && p.per_page is None && p.method is None && p.path is None && p.status is None,
    {
        ListLogsParams { page: None, per_page: None, method: None, path: None, status: None }
    }

    /// Page number (1-based).
    pub fn page(self, page: u32) -> (r: ListLogsParams)
        ensures
            r == (ListLogsParams { page: Some(page), ..self }),
    {
        ListLogsParams { page: Some(page), ..self }
    }

    /// Entries per page.
    pub fn per_page(self, per_page: u32) -> (r: ListLogsParams)
        ensures
            r == (ListLogsParams { per_page: Some(per_page), ..self }),
    {
        ListLogsParams { per_page: Some(per_page), ..self }
    }

    /// HTTP method, e.g. `POST`.
    pub fn method(self, method: &str) -> (r: ListLogsParams)
        ensures
            is_text(r.method, method@),
            r == (ListLogsParams { method: r.method, ..self }),
    {
        ListLogsParams { method: Some(method.to_owned()), ..self }
    }

    /// Request path.
    pub fn path(self, path: &str) -> (r: ListLogsParams)
        ensures
            is_text(r.path, path@),
            r == (ListLogsParams { path: r.path, ..self }),
    {
        ListLogsParams { path: Some(path.to_owned()), ..self }
    }

    /// Response status code.
    pub fn status(self, status: u16) -> (r: ListLogsParams)
        ensures
            r == (ListLogsParams { status: Some(status), ..self }),
    {
        ListLogsParams { status: Some(status), ..self }
    }

    /// The query parameters: the set filters, in field order.
    pub open spec fn query_params(self) -> Seq<(Seq<char>, Seq<char>)> {
        opt_param("page"@, opt_number(widen_u32(self.page)))
            + opt_param("per_page"@, opt_number(widen_u32(self.per_page)))
            + opt_param("method"@, opt_text(self.method))
            + opt_param("path"@, opt_text(self.path))
            + opt_param("status"@, opt_number(widen_u16(self.status)))
    }

    /// The query parameters to send.
    pub fn to_query(&self) -> (q: Vec<(String, String)>)
        ensures
            pairs_view(q@) == self.query_params(),
    {
        let mut q: Vec<(String, String)> = Vec::new();
        push_number_param(&mut q, "page", widen_u32_exec(self.page));
        push_number_param(&mut q, "per_page", widen_u32_exec(self.per_page));
        push_text_param(&mut q, "method", &self.method);
        push_text_param(&mut q, "path", &self.path);
        push_number_param(&mut q, "status", widen_u16_exec(self.status));
        assert(pairs_view(q@) =~= opt_param("page"@, opt_number(widen_u32(self.page)))
            + opt_param("per_page"@, opt_number(widen_u32(self.per_page)))
            + opt_param("method"@, opt_text(self.method))
            + opt_param("path"@, opt_text(self.path))
            + opt_param("status"@, opt_number(widen_u16(self.status))));
        q
    }
}

/// One logged API request.
#[derive(Debug, Clone, PartialEq, Eq)]
pub struct ApiRequest {
    /// Numeric id.
    pub id: i64,
    /// HTTP method.
    pub method: String,
    /// Request path.
    pub path: String,
    /// Response status code.
    pub status_code: u16,
    /// Time taken, in milliseconds.
    pub duration_ms: i64,
    /// Client user agent.
    pub user_agent: Option<String>,
    /// When the request was made.
    pub created_at: Option<String>,
}

/// A page of logged requests.
#[derive(Debug, Clone, PartialEq, Eq)]
pub struct LogList {
    /// The requests on this page.
    pub requests: Vec<ApiRequest>,
    /// Pagination info.
    pub pagination: Pagination,
}

/// One tag and how many messages carry it.
#[derive(Debug, Clone, PartialEq, Eq)]
pub struct TagCount {
    /// The tag.
    pub tag: String,
    /// Messages with this tag.
    pub count: i64,
}

} // verus!
