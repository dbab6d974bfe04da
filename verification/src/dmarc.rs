//! DMARC monitoring (`/api/v2/server/dmarc`).

use vstd::prelude::*;

use crate::http::{no_params, opt_number, opt_param, opt_text, push_number_param, push_text_param, Http, Method, PreparedRequest};
use crate::json::is_text;
use crate::types::pairs_view;
use crate::text::signed_decimal;
use crate::text::signed_decimal_string;
use crate::types::Pagination;

verus! {

/// Service for DMARC monitoring. Obtain via [`CamelMailer::dmarc`](crate::CamelMailer::dmarc).
///
/// Each method gives the request that the call makes.
#[derive(Debug, Clone, Copy)]
pub struct Dmarc<'a> {
    /// The transport.
    pub http: &'a Http,
}

impl crate::CamelMailer {
    /// DMARC monitoring.
    pub fn dmarc(&self) -> (s: Dmarc<'_>)
        ensures
            *s.http == self.spec_http(),
    {
        Dmarc { http: self.http() }
    }
}

impl Dmarc<'_> {
    /// Aggregate pass/fail summary (`GET /api/v2/server/dmarc/summary`).
    pub fn summary_request(&self, params: &DmarcParams) -> (r: PreparedRequest)
        ensures
            self.http.sends(r, Method::Get, "/api/v2/server/dmarc/summary"@, None, params.query_params(), None),
    {
        let path = "/api/v2/server/dmarc/summary".to_owned();
        self.http.prepare(Method::Get, path, params.to_query(), None, None)
    }

    /// Received aggregate reports, paginated (`GET /api/v2/server/dmarc/reports`).
    pub fn reports_request(&self, params: &DmarcParams) -> (r: PreparedRequest)
        ensures
            self.http.sends(r, Method::Get, "/api/v2/server/dmarc/reports"@, None, params.query_params(), None),
    {
        let path = "/api/v2/server/dmarc/reports".to_owned();
        self.http.prepare(Method::Get, path, params.to_query(), None, None)
    }

    /// One report with its records (`GET /api/v2/server/dmarc/reports/{id}`).
    pub fn report_request(&self, id: i64) -> (r: PreparedRequest)
        ensures
            self.http.sends(r, Method::Get, "/api/v2/server/dmarc/reports/"@ + signed_decimal(id as int), None, seq![], None),
    {
        let mut path = "/api/v2/server/dmarc/reports/".to_owned();
        path.append(signed_decimal_string(id).as_str());
        self.http.prepare(Method::Get, path, no_params(), None, None)
    }
}

/// Filters for the DMARC calls. All optional.
#[derive(Debug, Clone, PartialEq, Eq)]
pub struct DmarcParams {
    /// Restrict to one domain.
    pub domain: Option<String>,
    /// Window start (RFC 3339).
    pub from: Option<String>,
    /// Window end (RFC 3339).
    pub to: Option<String>,
    /// Page number (1-based).
    pub page: Option<u64>,
    /// Entries per page.
    pub per_page: Option<u64>,
}

impl DmarcParams {
    /// No filters.
    pub fn new() -> (p: DmarcParams)
        ensures
            p.domain is None && p.from is None && p.to is None && p.page is None && p.per_page is None,
    {
        DmarcParams { domain: None, from: None, to: None, page: None, per_page: None }
    }

    /// Restrict to one domain.
    pub fn domain(self, domain: &str) -> (r: DmarcParams)
        ensures
            is_text(r.domain, domain@),
            r == (DmarcParams { domain: r.domain, ..self }),
    {
        DmarcParams { domain: Some(domain.to_owned()), ..self }
    }

    /// Window start (RFC 3339).
    pub fn from(self, from: &str) -> (r: DmarcParams)
        ensures
            is_text(r.from, from@),
            r == (DmarcParams { from: r.from, ..self }),
    {
        DmarcParams { from: Some(from.to_owned()), ..self }
    }

    /// Window end (RFC 3339).
    pub fn to(self, to: &str) -> (r: DmarcParams)
        ensures
            is_text(r.to, to@),
            r == (DmarcParams { to: r.to, ..self }),
    {
        DmarcParams { to: Some(to.to_owned()), ..self }
    }

    /// Page number (1-based).
    pub fn page(self, page: u64) -> (r: DmarcParams)
        ensures
            r == (DmarcParams { page: Some(page), ..self }),
    {
        DmarcParams { page: Some(page), ..self }
    }

    /// Entries per page.
    pub fn per_page(self, per_page: u64) -> (r: DmarcParams)
        ensures
            r == (DmarcParams { per_page: Some(per_page), ..self }),
    {
        DmarcParams { per_page: Some(per_page), ..self }
    }

    /// The query parameters: the set filters, in field order.
    pub open spec fn query_params(self) -> Seq<(Seq<char>, Seq<char>)> {
        opt_param("domain"@, opt_text(self.domain))
            + opt_param("from"@, opt_text(self.from))
            + opt_param("to"@, opt_text(self.to))
            + opt_param("page"@, opt_number(self.page))
            + opt_param("per_page"@, opt_number(self.per_page))
    }

    /// The query parameters to send.
    pub fn to_query(&self) -> (q: Vec<(String, String)>)
        ensures
            pairs_view(q@) == self.query_params(),
    {
        let mut q: Vec<(String, String)> = Vec::new();
        push_text_param(&mut q, "domain", &self.domain);
        push_text_param(&mut q, "from", &self.from);
        push_text_param(&mut q, "to", &self.to);
        push_number_param(&mut q, "page", self.page);
        push_number_param(&mut q, "per_page", self.per_page);
        assert(pairs_view(q@) =~= opt_param("domain"@, opt_text(self.domain))
            + opt_param("from"@, opt_text(self.from))
            + opt_param("to"@, opt_text(self.to))
            + opt_param("page"@, opt_number(self.page))
            + opt_param("per_page"@, opt_number(self.per_page)));
        q
    }
}

/// One received DMARC aggregate report.
#[derive(Debug, Clone, PartialEq, Eq)]
pub struct DmarcReport {
    /// Numeric id.
    pub id: i64,
    /// The reported domain.
    pub domain: String,
    /// Reporting organisation.
    pub org_name: Option<String>,
    /// Reporting organisation's address.
    pub org_email: Option<String>,
    /// The reporter's report id.
    pub report_id: String,
    /// Start of the reported period.
    pub date_range_begin: String,
    /// End of the reported period.
    pub date_range_end: String,
    /// When the report arrived.
    pub received_at: String,
    /// Number of records in the report.
    pub record_count: u64,
}

/// One record of a DMARC report.
#[derive(Debug, Clone, PartialEq, Eq)]
pub struct DmarcRecord {
    /// Numeric id.
    pub id: i64,
    /// Sending IP address.
    pub source_ip: String,
    /// Messages covered.
    pub count: u64,
    /// Applied disposition.
    pub disposition: String,
    /// DKIM result.
    pub dkim_result: Option<String>,
    /// SPF result.
    pub spf_result: Option<String>,
    /// Whether DKIM aligned.
    pub dkim_aligned: bool,
    /// Whether SPF aligned.
    pub spf_aligned: bool,
    /// `From` header domain.
    pub header_from: Option<String>,
    /// Envelope sender domain.
    pub envelope_from: Option<String>,
}

/// A page of DMARC reports.
#[derive(Debug, Clone, PartialEq, Eq)]
pub struct DmarcReportList {
    /// The reports on this page.
    pub reports: Vec<DmarcReport>,
    /// Pagination info.
    pub pagination: Pagination,
}

/// One DMARC report with its records.
#[derive(Debug, Clone, PartialEq, Eq)]
pub struct DmarcReportDetail {
    /// The report.
    pub report: DmarcReport,
    /// Its records.
    pub records: Vec<DmarcRecord>,
}

} // verus!
