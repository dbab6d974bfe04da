//! The authenticated server (`/api/v2/server/`).

use vstd::prelude::*;

use crate::http::{no_params, Http, Method, PreparedRequest};

verus! {

/// Service for the authenticated server. Obtain via [`CamelMailer::server`](crate::CamelMailer::server).
///
/// Each method gives the request that the call makes.
#[derive(Debug, Clone, Copy)]
pub struct Servers<'a> {
    /// The transport.
    pub http: &'a Http,
}

impl crate::CamelMailer {
    /// The authenticated server (show / ping).
    pub fn server(&self) -> (s: Servers<'_>)
        ensures
            *s.http == self.spec_http(),
    {
        Servers { http: self.http() }
    }
}

impl Servers<'_> {
    /// The server's settings (`GET /api/v2/server/`).
    pub fn get_request(&self) -> (r: PreparedRequest)
        ensures
            self.http.sends(r, Method::Get, "/api/v2/server/"@, None, seq![], None),
    {
        let path = "/api/v2/server/".to_owned();
        self.http.prepare(Method::Get, path, no_params(), None, None)
    }

    /// Check the key and reachability (`GET /api/v2/server/ping`).
    pub fn ping_request(&self) -> (r: PreparedRequest)
        ensures
            self.http.sends(r, Method::Get, "/api/v2/server/ping"@, None, seq![], None),
    {
        let path = "/api/v2/server/ping".to_owned();
        self.http.prepare(Method::Get, path, no_params(), None, None)
    }
}

/// The answer to a ping.
#[derive(Debug, Clone, PartialEq, Eq)]
pub struct Ping {
    /// Always `true` when the key works.
    pub pong: bool,
    /// Id of the authenticated server.
    pub server_id: i64,
    /// Permalink of the authenticated server.
    pub server: String,
}

} // verus!
