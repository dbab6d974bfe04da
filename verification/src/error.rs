//! Error types returned by the SDK.

use vstd::prelude::*;

use crate::text::{decimal, decimal_string};

verus! {

/// Convenient alias for `Result<T, camelmailer_rs::Error>`.
pub type Result<T> = std::result::Result<T, Error>;

/// Every way a CamelMailer API call can fail.
///
/// The interesting variant is [`Error::Api`]: the server replied with the
/// standard error envelope (`{ "status": "error", "error": { "code", "message" } }`).
/// Its `code` is stable and safe to branch on (`Unauthorized`,
/// `Forbidden`, `NotFound`, `ValidationError`, `ParameterMissing`, …).
#[derive(Debug)]
#[non_exhaustive]
pub enum Error {
    /// The API returned an error envelope.
    Api {
        /// Stable machine-readable error code, e.g. `ValidationError`.
        code: String,
        /// Human-readable description of what went wrong.
        message: String,
        /// The HTTP status code of the response.
        status: u16,
    },
    /// The request never produced a usable HTTP response
    /// (DNS failure, connection refused, timeout, TLS error, …); carries
    /// the transport's message.
    Network(String),
    /// A response could not be (de)serialized into the expected shape;
    /// carries the parser's message.
    Serde(String),
    /// The server answered with something that is not a CamelMailer
    /// envelope (e.g. an HTML error page from a proxy).
    UnexpectedResponse {
        /// The HTTP status code of the response.
        status: u16,
        /// The raw (possibly truncated) response body.
        body: String,
    },
    /// The client was configured with invalid values (e.g. an
    /// unparsable base URL).
    Config(String),
    /// A payload field could not be decoded (e.g. invalid base64 in a
    /// raw message body).
    Decode(String),
}

impl Error {
    /// The API error code, when this is an [`Error::Api`].
    pub open spec fn api_code(&self) -> Option<Seq<char>> {
        match self {
            Error::Api { code, .. } => Some(code@),
            _ => None,
        }
    }

    /// The HTTP status carried by this error, if any.
    pub open spec fn http_status(&self) -> Option<u16> {
        match self {
            Error::Api { status, .. } => Some(*status),
            Error::UnexpectedResponse { status, .. } => Some(*status),
            _ => None,
        }
    }

    /// The stable API error code, when this is an [`Error::Api`].
    pub fn code(&self) -> (c: Option<&str>)
        ensures
            c matches Some(s) ==> self.api_code() == Some(s@),
            c is None ==> self.api_code() is None,
    {
        match self {
            Error::Api { code, .. } => Some(code.as_str()),
            _ => None,
        }
    }

    /// The HTTP status, when this error carries one.
    pub fn status(&self) -> (s: Option<u16>)
        ensures
            s == self.http_status(),
    {
        match self {
            Error::Api { status, .. } => Some(*status),
            Error::UnexpectedResponse { status, .. } => Some(*status),
            _ => None,
        }
    }

    fn code_is(&self, expected: &str) -> (b: bool)
        ensures
            b <==> self.api_code() == Some(expected@),
    {
        match self {
            Error::Api { code, .. } => *code == expected.to_owned(),
            _ => false,
        }
    }

    /// `true` when the API rejected the credentials (`Unauthorized`).
    pub fn is_unauthorized(&self) -> (b: bool)
        ensures
            b <==> self.api_code() == Some("Unauthorized"@),
    {
        self.code_is("Unauthorized")
    }

    /// `true` when the resource does not exist (`NotFound`).
    pub fn is_not_found(&self) -> (b: bool)
        ensures
            b <==> self.api_code() == Some("NotFound"@),
    {
        self.code_is("NotFound")
    }

    /// `true` when the request was understood but invalid
    /// (`ValidationError` or `ParameterMissing`).
    pub fn is_validation_error(&self) -> (b: bool)
        ensures
            b <==> (self.api_code() == Some("ValidationError"@) || self.api_code() == Some(
                "ParameterMissing"@,
            )),
    {
        self.code_is("ValidationError") || self.code_is("ParameterMissing")
    }

    /// The human-readable message of this error.
    pub fn to_string(&self) -> (s: String)
        ensures
            self matches Error::Api { code, message, status } ==> s@ == "CamelMailer API error "@
                + code@ + ": "@ + message@ + " (HTTP "@ + decimal(*status as nat) + ")"@,
            self matches Error::UnexpectedResponse { status, body } ==> s@
                == "unexpected response (HTTP "@ + decimal(*status as nat) + "): "@ + body@,
            self matches Error::Config(m) ==> s@ == "invalid configuration: "@ + m@,
            self matches Error::Decode(m) ==> s@ == "decode error: "@ + m@,
            self matches Error::Network(m) ==> s@ == "network error: "@ + m@,
            self matches Error::Serde(m) ==> s@ == "serialization error: "@ + m@,
    {
        match self {
            Error::Api { code, message, status } => {
                let mut s = "CamelMailer API error ".to_owned();
                s.append(code.as_str());
                s.append(": ");
                s.append(message.as_str());
                s.append(" (HTTP ");
                s.append(decimal_string(*status as u64).as_str());
                s.append(")");
                s
            },
            Error::Network(m) => {
                let mut s = "network error: ".to_owned();
                s.append(m.as_str());
                s
            },
            Error::Serde(m) => {
                let mut s = "serialization error: ".to_owned();
                s.append(m.as_str());
                s
            },
            Error::UnexpectedResponse { status, body } => {
                let mut s = "unexpected response (HTTP ".to_owned();
                s.append(decimal_string(*status as u64).as_str());
                s.append("): ");
                s.append(body.as_str());
                s
            },
            Error::Config(m) => {
                let mut s = "invalid configuration: ".to_owned();
                s.append(m.as_str());
                s
            },
            Error::Decode(m) => {
                let mut s = "decode error: ".to_owned();
                s.append(m.as_str());
                s
            },
        }
    }
}

} // verus!
