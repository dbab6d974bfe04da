//! Message and delivery statistics (`/api/v2/server/stats`).

use vstd::prelude::*;

use crate::http::{no_params, opt_param, opt_text, push_text_param, Http, Method, PreparedRequest};
use crate::json::{is_text, lemma_concat_contains};
use crate::types::pairs_view;

verus! {

/// Service for statistics. Obtain via [`CamelMailer::stats`](crate::CamelMailer::stats).
///
/// Each method gives the request that the call makes.
#[derive(Debug, Clone, Copy)]
pub struct StatsService<'a> {
    /// The transport.
    pub http: &'a Http,
}

impl crate::CamelMailer {
    /// Message and queue statistics.
    pub fn stats(&self) -> (s: StatsService<'_>)
        ensures
            *s.http == self.spec_http(),
    {
        StatsService { http: self.http() }
    }
}

impl StatsService<'_> {
    /// Aggregate message + engagement counters (`GET /api/v2/server/stats`).
    pub fn get_request(&self, params: &StatsParams) -> (r: PreparedRequest)
        ensures
            self.http.sends(r, Method::Get, "/api/v2/server/stats"@, None, params.query_params(), None),
    {
        let path = "/api/v2/server/stats".to_owned();
        self.http.prepare(Method::Get, path, params.to_query(), None, None)
    }

    /// Pending outbound queue depth, per domain (`GET /api/v2/server/stats/deliveries`).
    pub fn deliveries_request(&self) -> (r: PreparedRequest)
        ensures
            self.http.sends(r, Method::Get, "/api/v2/server/stats/deliveries"@, None, seq![], None),
    {
        let path = "/api/v2/server/stats/deliveries".to_owned();
        self.http.prepare(Method::Get, path, no_params(), None, None)
    }
}

/// Optional time window for the stats call (RFC 3339 timestamps).
#[derive(Debug, Clone, PartialEq, Eq)]
pub struct StatsParams {
    /// Window start (RFC 3339).
    pub from: Option<String>,
    /// Window end (RFC 3339).
    pub to: Option<String>,
}

impl StatsParams {
    /// No window: all-time counters.
    pub fn new() -> (p: StatsParams)
        ensures
            p.from is None && p.to is None,
    {
        StatsParams { from: None, to: None }
    }

    /// Window start (RFC 3339, e.g. `2026-07-01T00:00:00Z`).
    pub fn from(self, from: &str) -> (r: StatsParams)
        ensures
            is_text(r.from, from@),
            r == (StatsParams { from: r.from, ..self }),
    {
        StatsParams { from: Some(from.to_owned()), ..self }
    }

    /// Window end (RFC 3339).
    pub fn to(self, to: &str) -> (r: StatsParams)
        ensures
            is_text(r.to, to@),
            r == (StatsParams { to: r.to, ..self }),
    {
        StatsParams { to: Some(to.to_owned()), ..self }
    }

    /// The query parameters: the set bounds.
    pub open spec fn query_params(self) -> Seq<(Seq<char>, Seq<char>)> {
        opt_param("from"@, opt_text(self.from))
            + opt_param("to"@, opt_text(self.to))
    }

    /// Each bound of the window that is set is sent as its own query
    /// parameter, whatever the other holds: a set end is never dropped.
    pub proof fn lemma_set_bounds_are_sent(self)
        ensures
            self.from matches Some(f) ==> self.query_params().contains(("from"@, f@)),
            self.to matches Some(t) ==> self.query_params().contains(("to"@, t@)),
    {
        let a = opt_param("from"@, opt_text(self.from));
        let b = opt_param("to"@, opt_text(self.to));
        if self.from is Some {
            assert(a.contains(a[0]));
            lemma_concat_contains(a, b, a[0]);
        }
        if self.to is Some {
            assert(b.contains(b[0]));
            lemma_concat_contains(a, b, b[0]);
        }
    }

    /// The query parameters to send.
    pub fn to_query(&self) -> (q: Vec<(String, String)>)
        ensures
            pairs_view(q@) == self.query_params(),
            self.from matches Some(f) ==> pairs_view(q@).contains(("from"@, f@)),
            self.to matches Some(t) ==> pairs_view(q@).contains(("to"@, t@)),
    {
        proof {
            self.lemma_set_bounds_are_sent();
        }
        let mut q: Vec<(String, String)> = Vec::new();
        push_text_param(&mut q, "from", &self.from);
        push_text_param(&mut q, "to", &self.to);
        assert(pairs_view(q@) =~= opt_param("from"@, opt_text(self.from))
            + opt_param("to"@, opt_text(self.to)));
        q
    }
}

/// Message counters.
#[derive(Debug, Clone, PartialEq, Eq)]
pub struct Stats {
    /// All messages.
    pub total: u64,
    /// Incoming messages.
    pub incoming: u64,
    /// Outgoing messages.
    pub outgoing: u64,
    /// Sent messages.
    pub sent: u64,
    /// Pending messages.
    pub pending: u64,
    /// Held messages.
    pub held: u64,
    /// Bounced messages.
    pub bounced: u64,
    /// Soft delivery failures.
    pub soft_fail: u64,
    /// Hard delivery failures.
    pub hard_fail: u64,
    /// Total opens.
    pub opens: u64,
    /// Total clicks.
    pub clicks: u64,
    /// Unique opens.
    pub unique_opens: u64,
    /// Unique clicks.
    pub unique_clicks: u64,
}

/// Pending outbound queue depth.
#[derive(Debug, Clone, PartialEq, Eq)]
pub struct DeliveryStats {
    /// Messages waiting in the queue.
    pub queued: u64,
    /// Queue depth per recipient domain.
    pub domains: Vec<DomainQueue>,
}

/// Queue depth of one recipient domain.
#[derive(Debug, Clone, PartialEq, Eq)]
pub struct DomainQueue {
    /// The recipient domain.
    pub domain: String,
    /// Messages queued for it.
    pub queued: u64,
}

} // verus!
