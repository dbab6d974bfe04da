//! Configuration of the blocking client.
//!
//! The blocking client wraps the async one in a private runtime; its
//! builder sets the same options as [`crate::CamelMailerBuilder`].

use vstd::prelude::*;

use crate::CamelMailerBuilder;

verus! {

/// Builder for the blocking client.
#[derive(Debug)]
pub struct Builder {
    inner: CamelMailerBuilder,
}

impl Builder {
    /// The options of the async client underneath.
    pub closed spec fn spec_inner(&self) -> CamelMailerBuilder {
        self.inner
    }

    /// A builder for the given server API key, on the default base URL.
    pub fn new(api_key: &str) -> (b: Builder)
        ensures
            b.spec_inner().spec_api_key() == api_key@,
            b.spec_inner().spec_base_url() == crate::DEFAULT_BASE_URL@,
            b.spec_inner().spec_timeout() is None,
            b.spec_inner().spec_client() is None,
    {
        Builder { inner: crate::CamelMailer::builder(api_key) }
    }

    /// Base URL of the instance, e.g. `https://mail.example.com`.
    pub fn base_url(self, base_url: &str) -> (b: Builder)
        ensures
            b.spec_inner().spec_base_url() == base_url@,
            b.spec_inner().spec_api_key() == self.spec_inner().spec_api_key(),
            b.spec_inner().spec_timeout() == self.spec_inner().spec_timeout(),
            b.spec_inner().spec_client() == self.spec_inner().spec_client(),
    {
        Builder { inner: self.inner.base_url(base_url) }
    }

    /// Request timeout (no timeout by default).
    pub fn timeout(self, timeout: std::time::Duration) -> (b: Builder)
        ensures
            b.spec_inner().spec_timeout() == Some(timeout),
            b.spec_inner().spec_base_url() == self.spec_inner().spec_base_url(),
            b.spec_inner().spec_api_key() == self.spec_inner().spec_api_key(),
            b.spec_inner().spec_client() == self.spec_inner().spec_client(),
    {
        Builder { inner: self.inner.timeout(timeout) }
    }

    /// The async client's options, for building the client underneath.
    pub fn into_inner(self) -> (b: CamelMailerBuilder)
        ensures
            b == self.spec_inner(),
    {
        self.inner
    }
}

} // verus!
