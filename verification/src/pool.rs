//! The connection pool requests go through, and the settings the
//! library builds its own pool with.
//!
//! A [`Pool`] is either the caller's own `reqwest::Client` or one built
//! here from [`ClientSettings`]; it remembers which settings it was
//! built from, and it can be made in no other way.

use vstd::prelude::*;

use crate::USER_AGENT;

verus! {

/// `reqwest::Client`, the connection pool requests go through.
#[verifier::external_type_specification]
#[verifier::external_body]
pub struct ExClient(reqwest::Client);

/// `Clone` of `reqwest::Client`: the clone shares the pool. Nothing is
/// claimed about the value.
pub assume_specification[ <reqwest::Client as Clone>::clone ](c: &reqwest::Client) -> reqwest::Client;

/// The settings the library's own connection pool is built with.
#[derive(Debug, Clone, PartialEq, Eq)]
pub struct ClientSettings {
    /// The `User-Agent` header every request carries.
    pub user_agent: String,
    /// The total request timeout, if one was set.
    pub timeout: Option<std::time::Duration>,
}

/// The settings of the library's own pool: the crate's `User-Agent`,
/// and the timeout the caller set (none by default).
pub fn client_settings(timeout: Option<std::time::Duration>) -> (s: ClientSettings)
    ensures
        s.user_agent@ == USER_AGENT@,
        s.timeout == timeout,
{
    ClientSettings { user_agent: USER_AGENT.to_owned(), timeout }
}

/// A connection pool, with the settings it was built from (none for a
/// pool the caller brought).
#[derive(Debug, Clone)]
pub struct Pool {
    client: reqwest::Client,
    settings: Option<ClientSettings>,
}

impl Pool {
    /// The `reqwest::Client` behind this pool.
    pub closed spec fn spec_client(&self) -> reqwest::Client {
        self.client
    }

    /// The settings the library built this pool from; none for the
    /// caller's own pool.
    pub closed spec fn spec_settings(&self) -> Option<ClientSettings> {
        self.settings
    }

    /// The caller's own pool, used as it is.
    pub fn own(client: reqwest::Client) -> (p: Pool)
        ensures
            p.spec_client() == client,
            p.spec_settings() is None,
    {
        Pool { client, settings: None }
    }

    /// The `reqwest::Client` behind this pool.
    pub fn client(&self) -> (c: &reqwest::Client)
        ensures
            *c == self.spec_client(),
    {
        &self.client
    }

    /// The settings the library built this pool from, if it did.
    pub fn settings(&self) -> (s: &Option<ClientSettings>)
        ensures
            *s == self.spec_settings(),
    {
        &self.settings
    }
}

/// Builds a pool with `reqwest::Client::builder()`, setting the
/// `User-Agent` from `settings` with `ClientBuilder::user_agent` and no
/// timeout, then `ClientBuilder::build`; its error is turned into its
/// message. Claimed: a pool it returns records exactly the settings it
/// was built from, and a failure's message is `builder error` (every
/// error `ClientBuilder::build` returns with this crate's features is of
/// reqwest's builder kind and carries no URL, and that is how such an
/// error displays). Whether the build succeeds (it fails when the TLS
/// backend cannot be set up) is left unstated.
#[verifier::external_body]
pub(crate) fn build_plain_pool(settings: ClientSettings) -> (res: Result<Pool, String>)
    requires
        settings.timeout is None,
    ensures
        res matches Ok(p) ==> p.spec_settings() == Some(settings),
        res matches Err(message) ==> message@ == "builder error"@,
{
    let built = reqwest::Client::builder().user_agent(settings.user_agent.as_str()).build();
    match built {
        Ok(client) => Ok(Pool { client, settings: Some(settings) }),
        Err(error) => Err(error.to_string()),
    }
}

/// As [`build_plain_pool`], and also sets the total request timeout
/// with `ClientBuilder::timeout`. Claimed: a pool it returns records
/// exactly the settings it was built from, and a failure's message is
/// `builder error`; whether the build succeeds is left unstated.
#[verifier::external_body]
pub(crate) fn build_timed_pool(
    settings: ClientSettings,
    timeout: std::time::Duration,
) -> (res: Result<Pool, String>)
    requires
        settings.timeout == Some(timeout),
    ensures
        res matches Ok(p) ==> p.spec_settings() == Some(settings),
        res matches Err(message) ==> message@ == "builder error"@,
{
    let builder = reqwest::Client::builder().user_agent(settings.user_agent.as_str());
    let built = builder.timeout(timeout).build();
    match built {
        Ok(client) => Ok(Pool { client, settings: Some(settings) }),
        Err(error) => Err(error.to_string()),
    }
}

} // verus!
