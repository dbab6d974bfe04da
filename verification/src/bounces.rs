//! Bounced messages (`/api/v2/server/bounces`).

use vstd::prelude::*;

use crate::http::{no_params, opt_number, opt_param, push_number_param, Http, Method, PreparedRequest};
use crate::types::pairs_view;
use crate::text::signed_decimal;
use crate::text::signed_decimal_string;

verus! {

/// Service for bounced messages. Obtain via [`CamelMailer::bounces`](crate::CamelMailer::bounces).
///
/// Each method gives the request that the call makes.
#[derive(Debug, Clone, Copy)]
pub struct Bounces<'a> {
    /// The transport.
    pub http: &'a Http,
}

impl crate::CamelMailer {
    /// Bounced messages.
    pub fn bounces(&self) -> (s: Bounces<'_>)
        ensures
            *s.http == self.spec_http(),
    {
        Bounces { http: self.http() }
    }
}

impl Bounces<'_> {
    /// List bounces, paginated (`GET /api/v2/server/bounces`).
    pub fn list_request(&self, params: &ListBouncesParams) -> (r: PreparedRequest)
        ensures
            self.http.sends(r, Method::Get, "/api/v2/server/bounces"@, None, params.query_params(), None),
    {
        let path = "/api/v2/server/bounces".to_owned();
        self.http.prepare(Method::Get, path, params.to_query(), None, None)
    }

    /// One bounce (`GET /api/v2/server/bounces/{id}`).
    pub fn get_request(&self, id: i64) -> (r: PreparedRequest)
        ensures
            self.http.sends(r, Method::Get, "/api/v2/server/bounces/"@ + signed_decimal(id as int), None, seq![], None),
    {
        let mut path = "/api/v2/server/bounces/".to_owned();
        path.append(signed_decimal_string(id).as_str());
        self.http.prepare(Method::Get, path, no_params(), None, None)
    }
}

/// Pagination for listing bounces.
#[derive(Debug, Clone, PartialEq, Eq)]
pub struct ListBouncesParams {
    /// Page number (1-based).
    pub page: Option<u64>,
    /// Entries per page (max 100).
    pub per_page: Option<u64>,
}

impl ListBouncesParams {
    /// First page, server defaults.
    pub fn new() -> (p: ListBouncesParams)
        ensures
            p.page is None && p.per_page is None,
    {
        ListBouncesParams { page: None, per_page: None }
    }

    /// Page number (1-based).
    pub fn page(self, page: u64) -> (r: ListBouncesParams)
        ensures
            r == (ListBouncesParams { page: Some(page), ..self }),
    {
        ListBouncesParams { page: Some(page), ..self }
    }

    /// Entries per page (max 100).
    pub fn per_page(self, per_page: u64) -> (r: ListBouncesParams)
        ensures
            r == (ListBouncesParams { per_page: Some(per_page), ..self }),
    {
        ListBouncesParams { per_page: Some(per_page), ..self }
    }

    /// The query parameters: the set ones.
    pub open spec fn query_params(self) -> Seq<(Seq<char>, Seq<char>)> {
        opt_param("page"@, opt_number(self.page))
            + opt_param("per_page"@, opt_number(self.per_page))
    }

    /// The query parameters to send.
    pub fn to_query(&self) -> (q: Vec<(String, String)>)
        ensures
            pairs_view(q@) == self.query_params(),
    {
        let mut q: Vec<(String, String)> = Vec::new();
        push_number_param(&mut q, "page", self.page);
        push_number_param(&mut q, "per_page", self.per_page);
        assert(pairs_view(q@) =~= opt_param("page"@, opt_number(self.page))
            + opt_param("per_page"@, opt_number(self.per_page)));
        q
    }
}

} // verus!
