//! The verified core of the CamelMailer SDK — the open-source
//! transactional email platform.
//!
//! It holds what the client decides: configuration and its checks, the
//! request each endpoint makes (method, path, headers, query, body), how
//! a response envelope is judged, and the helpers around them (address
//! and attachment encoding, path escaping, error classification).

pub mod blocking;
pub mod bounces;
pub mod campaigns;
pub mod dmarc;
pub mod emails;
pub mod error;
pub mod http;
pub mod inbound;
pub mod json;
pub mod layouts;
pub mod logs;
pub mod pool;
pub mod servers;
pub mod stats;
pub mod streams;
pub mod subscribers;
pub mod templates;
pub mod text;
pub mod types;

pub use error::{Error, Result};
pub use http::{Envelope, ErrorBody, Http, Method, PreparedRequest};
pub use json::Json;
pub use pool::{client_settings, ClientSettings, Pool};
pub use types::{Address, Attachment, Headers, IntoAddress, Pagination};

use vstd::prelude::*;
use vstd::string::StrSliceExecFns;

use crate::pool::{build_plain_pool, build_timed_pool};
use crate::text::{lemma_trimmed_has_no_trailing_slash, trim_trailing_slashes};

verus! {

/// The default base URL: the CamelMailer cloud.
pub const DEFAULT_BASE_URL: &'static str = "https://app.camelmailer.com";

/// The `User-Agent` the client sends.
pub const USER_AGENT: &'static str = "camelmailer-rs/0.2.1";

// ------------------------------------------------------- outside calls

/// What `url::Url::parse` makes of `input`: the scheme of the parsed
/// URL, or the message of its error.
pub uninterp spec fn url_parse(input: Seq<char>) -> std::result::Result<Seq<char>, Seq<char>>;

/// Parses with `url::Url::parse` and hands back the parsed URL's scheme
/// (`Url::scheme`) or the error's message. Claimed: the outcome is the
/// one [`url_parse`] names for the input.
#[verifier::external_body]
fn parse_url_scheme(input: &str) -> (res: std::result::Result<String, String>)
    ensures
        match res {
            Ok(scheme) => url_parse(input@) == Ok::<Seq<char>, Seq<char>>(scheme@),
            Err(message) => url_parse(input@) == Err::<Seq<char>, Seq<char>>(message@),
        },
{
    match url::Url::parse(input) {
        Ok(url) => Ok(url.scheme().to_string()),
        Err(error) => Err(error.to_string()),
    }
}

/// How `{:?}` shows a string (quoted, with escapes).
pub uninterp spec fn debug_quoted(s: Seq<char>) -> Seq<char>;

/// Formats a string with `{:?}` (std's `Debug` for `str`). Claimed: the
/// result is the one [`debug_quoted`] names.
#[verifier::external_body]
fn debug_string(s: &str) -> (d: String)
    ensures
        d@ == debug_quoted(s@),
{
    format!("{s:?}")
}

// ----------------------------------------------------------- the client

/// `s` without trailing `/` characters.
fn trim_trailing_slashes_of(s: &str) -> (t: String)
    ensures
        t@ == trim_trailing_slashes(s@),
{
    let mut n = s.unicode_len();
    assert(s@.subrange(0, n as int) =~= s@);
    while n > 0 && s.get_char(n - 1) == '/'
        invariant
            n <= s@.len(),
            trim_trailing_slashes(s@) == trim_trailing_slashes(s@.subrange(0, n as int)),
        decreases n,
    {
        proof {
            let prefix = s@.subrange(0, n as int);
            assert(prefix.drop_last() =~= s@.subrange(0, n - 1));
        }
        n = n - 1;
    }
    proof {
        let prefix = s@.subrange(0, n as int);
        if n > 0 {
            assert(prefix.last() == s@[n - 1]);
        }
        assert(s@.subrange(0, s@.len() as int) =~= s@);
    }
    s.substring_char(0, n).to_owned()
}

/// The async CamelMailer client's configuration and transport
/// (messaging API, `X-Server-API-Key`).
///
/// Cheap to clone; clones share the same connection pool.
#[derive(Debug, Clone)]
pub struct CamelMailer {
    http: Http,
}

impl CamelMailer {
    /// The transport of this client.
    pub closed spec fn spec_http(&self) -> Http {
        self.http
    }

    /// The settings the pool was built with, when the library built it.
    pub fn settings(&self) -> (s: &Option<ClientSettings>)
        ensures
            *s == self.spec_http().spec_pool().spec_settings(),
    {
        self.http.pool().settings()
    }

    /// Start configuring a client for the given server API key.
    pub fn builder(api_key: &str) -> (b: CamelMailerBuilder)
        ensures
            b.spec_api_key() == api_key@,
            b.spec_base_url() == DEFAULT_BASE_URL@,
            b.spec_timeout() is None,
            b.spec_client() is None,
    {
        CamelMailerBuilder {
            api_key: api_key.to_owned(),
            base_url: DEFAULT_BASE_URL.to_owned(),
            timeout: None,
            client: None,
        }
    }

    /// The base URL this client talks to (no trailing slash).
    pub fn base_url(&self) -> (s: &str)
        ensures
            s@ == self.spec_http().spec_base_url(),
    {
        self.http.base_url()
    }

    /// The transport requests go through.
    pub fn http(&self) -> (h: &Http)
        ensures
            *h == self.spec_http(),
    {
        &self.http
    }
}

/// Judge a base URL from what parsing it gave (the parsed URL's scheme,
/// or the parser's message) and from the URL as `{:?}` shows it. Only
/// `http` and `https` URLs are accepted.
pub fn check_base_url(parsed: std::result::Result<String, String>, quoted: &str) -> (res: Result<()>)
    ensures
        match parsed {
            Err(e) => res matches Err(Error::Config(m)) && m@ == "invalid base URL "@ + quoted@
                + ": "@ + e@,
            Ok(scheme) => if scheme@ == "http"@ || scheme@ == "https"@ {
                res is Ok
            } else {
                res matches Err(Error::Config(m)) && m@ == "base URL must be http(s), got "@
                    + quoted@
            },
        },
{
    match parsed {
        Err(error) => {
            let mut message = "invalid base URL ".to_owned();
            message.append(quoted);
            message.append(": ");
            message.append(error.as_str());
            Err(Error::Config(message))
        },
        Ok(scheme) => {
            if scheme == "http".to_owned() || scheme == "https".to_owned() {
                Ok(())
            } else {
                let mut message = "base URL must be http(s), got ".to_owned();
                message.append(quoted);
                Err(Error::Config(message))
            }
        },
    }
}

/// Builder for [`CamelMailer`]. Created with [`CamelMailer::builder`].
#[derive(Debug)]
pub struct CamelMailerBuilder {
    api_key: String,
    base_url: String,
    timeout: Option<std::time::Duration>,
    client: Option<reqwest::Client>,
}

impl CamelMailerBuilder {
    /// The API key the client will send.
    pub closed spec fn spec_api_key(&self) -> Seq<char> {
        self.api_key@
    }

    /// The base URL as given.
    pub closed spec fn spec_base_url(&self) -> Seq<char> {
        self.base_url@
    }

    /// The request timeout, if one was set.
    pub closed spec fn spec_timeout(&self) -> Option<std::time::Duration> {
        self.timeout
    }

    /// The caller's own connection pool, if one was given.
    pub closed spec fn spec_client(&self) -> Option<reqwest::Client> {
        self.client
    }

    /// Base URL of the instance, e.g. `https://mail.example.com`.
    ///
    /// Defaults to [`DEFAULT_BASE_URL`]. A trailing slash is ignored.
    pub fn base_url(self, base_url: &str) -> (b: CamelMailerBuilder)
        ensures
            b.spec_base_url() == base_url@,
            b.spec_api_key() == self.spec_api_key(),
            b.spec_timeout() == self.spec_timeout(),
            b.spec_client() == self.spec_client(),
    {
        CamelMailerBuilder { base_url: base_url.to_owned(), ..self }
    }

    /// Request timeout (no timeout by default).
    pub fn timeout(self, timeout: std::time::Duration) -> (b: CamelMailerBuilder)
        ensures
            b.spec_timeout() == Some(timeout),
            b.spec_base_url() == self.spec_base_url(),
            b.spec_api_key() == self.spec_api_key(),
            b.spec_client() == self.spec_client(),
    {
        CamelMailerBuilder { timeout: Some(timeout), ..self }
    }

    /// Bring your own [`reqwest::Client`] (proxies, extra roots, …).
    /// Overrides [`CamelMailerBuilder::timeout`].
    pub fn http_client(self, client: reqwest::Client) -> (b: CamelMailerBuilder)
        ensures
            b.spec_client() == Some(client),
            b.spec_base_url() == self.spec_base_url(),
            b.spec_api_key() == self.spec_api_key(),
            b.spec_timeout() == self.spec_timeout(),
    {
        CamelMailerBuilder { client: Some(client), ..self }
    }

    /// Build the client. Fails on an unparsable base URL, on one that is
    /// not `http` or `https`, or when the TLS backend cannot be set up.
    pub fn build(self) -> (res: Result<CamelMailer>)
        ensures
            ({
                let base = trim_trailing_slashes(self.spec_base_url());
                match url_parse(base) {
                    Err(e) => res matches Err(Error::Config(m)) && m@ == "invalid base URL "@
                        + debug_quoted(base) + ": "@ + e,
                    Ok(scheme) => if scheme == "http"@ || scheme == "https"@ {
                        match res {
                            Ok(c) => c.spec_http().spec_base_url() == base
                                && c.spec_http().spec_api_key() == self.spec_api_key(),
                            Err(err) => (err matches Error::Config(m) && m@ == "builder error"@
                                && self.spec_client() is None),
                        }
                    } else {
                        res matches Err(Error::Config(m)) && m@ == "base URL must be http(s), got "@
                            + debug_quoted(base)
                    },
                }
            }),
            res matches Ok(c) ==> c.spec_http().spec_base_url().len() > 0 ==> c.spec_http().spec_base_url().last() != '/',
            res matches Ok(c) ==> (self.spec_client() matches Some(own) ==> c.spec_http().spec_pool().spec_client()
                == own),
            res matches Ok(c) ==> (self.spec_client() is None ==> (c.spec_http().spec_pool().spec_settings() matches Some(
                settings) && settings.user_agent@ == USER_AGENT@ && settings.timeout
                == self.spec_timeout())),
            res matches Ok(c) ==> (self.spec_client() is Some ==> c.spec_http().spec_pool().spec_settings() is None),
    {
        let base_url = trim_trailing_slashes_of(self.base_url.as_str());
        proof {
            lemma_trimmed_has_no_trailing_slash(self.base_url@);
        }
        let parsed = parse_url_scheme(base_url.as_str());
        let quoted = debug_string(base_url.as_str());
        match check_base_url(parsed, quoted.as_str()) {
            Ok(()) => {},
            Err(error) => {
                return Err(error);
            },
        }
        let pool = match self.client {
            Some(client) => Pool::own(client),
            None => {
                let settings = client_settings(self.timeout);
                let built = match self.timeout {
                    Some(timeout) => build_timed_pool(settings, timeout),
                    None => build_plain_pool(settings),
                };
                match built {
                    Ok(pool) => pool,
                    Err(message) => {
                        return Err(Error::Config(message));
                    },
                }
            },
        };
        Ok(CamelMailer { http: Http::new(pool, base_url, self.api_key) })
    }
}

} // verus!
