//! Manage message streams (`/api/v2/server/streams`).

use vstd::prelude::*;

use crate::http::{no_params, Http, Method, PreparedRequest};
use crate::json::{
    is_text, json_members_view, opt_bool, opt_member, opt_str, push_member, push_opt_bool, push_opt_str, Json, JsonV,
};

verus! {

/// Service for message streams. Obtain via [`CamelMailer::streams`](crate::CamelMailer::streams).
///
/// Each method gives the request that the call makes.
#[derive(Debug, Clone, Copy)]
pub struct Streams<'a> {
    /// The transport.
    pub http: &'a Http,
}

impl crate::CamelMailer {
    /// Manage message streams.
    pub fn streams(&self) -> (s: Streams<'_>)
        ensures
            *s.http == self.spec_http(),
    {
        Streams { http: self.http() }
    }
}

impl Streams<'_> {
    /// List all streams (`GET /api/v2/server/streams`).
    pub fn list_request(&self) -> (r: PreparedRequest)
        ensures
            self.http.sends(r, Method::Get, "/api/v2/server/streams"@, None, seq![], None),
    {
        let path = "/api/v2/server/streams".to_owned();
        self.http.prepare(Method::Get, path, no_params(), None, None)
    }

    /// Create a stream (`POST /api/v2/server/streams`).
    pub fn create_request(&self, stream: &CreateStreamRequest) -> (r: PreparedRequest)
        ensures
            self.http.sends(r, Method::Post, "/api/v2/server/streams"@, None, seq![], Some(stream.json())),
    {
        let path = "/api/v2/server/streams".to_owned();
        self.http.prepare(Method::Post, path, no_params(), Some(stream.to_json()), None)
    }

    /// Fetch one stream by permalink (`GET /api/v2/server/streams/{permalink}`).
    pub fn get_request(&self, permalink: &str) -> (r: PreparedRequest)
        ensures
            self.http.sends(r, Method::Get, "/api/v2/server/streams/"@ + permalink@, None, seq![], None),
    {
        let mut path = "/api/v2/server/streams/".to_owned();
        path.append(permalink);
        self.http.prepare(Method::Get, path, no_params(), None, None)
    }

    /// Update a stream (`PATCH /api/v2/server/streams/{permalink}`).
    pub fn update_request(&self, permalink: &str, fields: &UpdateStreamRequest) -> (r: PreparedRequest)
        ensures
            self.http.sends(r, Method::Patch, "/api/v2/server/streams/"@ + permalink@, None, seq![], Some(fields.json())),
    {
        let mut path = "/api/v2/server/streams/".to_owned();
        path.append(permalink);
        self.http.prepare(Method::Patch, path, no_params(), Some(fields.to_json()), None)
    }

    /// Archive a stream (`POST /api/v2/server/streams/{permalink}/archive`).
    pub fn archive_request(&self, permalink: &str) -> (r: PreparedRequest)
        ensures
            self.http.sends(r, Method::Post, "/api/v2/server/streams/"@ + permalink@ + "/archive"@, None, seq![], None),
    {
        let mut path = "/api/v2/server/streams/".to_owned();
        path.append(permalink);
        path.append("/archive");
        self.http.prepare(Method::Post, path, no_params(), None, None)
    }
}

/// Fields for creating a stream.
#[derive(Debug, Clone, PartialEq, Eq)]
pub struct CreateStreamRequest {
    /// Display name.
    pub name: String,
    /// `transactional` (default) or `broadcast`.
    pub stream_type: Option<String>,
    /// Explicit permalink (derived from the name when omitted).
    pub permalink: Option<String>,
}

impl CreateStreamRequest {
    /// A transactional stream with the given name.
    pub fn new(name: &str) -> (r: CreateStreamRequest)
        ensures
            r.name@ == name@,
            r.stream_type is None && r.permalink is None,
    {
        CreateStreamRequest { name: name.to_owned(), stream_type: None, permalink: None }
    }

    /// `transactional` or `broadcast`.
    pub fn stream_type(self, stream_type: &str) -> (r: CreateStreamRequest)
        ensures
            is_text(r.stream_type, stream_type@),
            r == (CreateStreamRequest { stream_type: r.stream_type, ..self }),
    {
        CreateStreamRequest { stream_type: Some(stream_type.to_owned()), ..self }
    }

    /// Explicit permalink.
    pub fn permalink(self, permalink: &str) -> (r: CreateStreamRequest)
        ensures
            is_text(r.permalink, permalink@),
            r == (CreateStreamRequest { permalink: r.permalink, ..self }),
    {
        CreateStreamRequest { permalink: Some(permalink.to_owned()), ..self }
    }

    /// The JSON body: the name, then the set fields.
    pub open spec fn json(self) -> JsonV {
        JsonV::Object(
            seq![("name"@, JsonV::Str(self.name@))]
            + opt_member("stream_type"@, opt_str(self.stream_type))
            + opt_member("permalink"@, opt_str(self.permalink))
        )
    }

    /// The JSON body to send.
    pub fn to_json(&self) -> (j: Json)
        ensures
            j@ == self.json(),
    {
        let mut members: Vec<(String, Json)> = Vec::new();
        push_member(&mut members, "name", Json::Str(self.name.clone()));
        push_opt_str(&mut members, "stream_type", &self.stream_type);
        push_opt_str(&mut members, "permalink", &self.permalink);
        assert(json_members_view(members@) =~= seq![("name"@, JsonV::Str(self.name@))]
            + opt_member("stream_type"@, opt_str(self.stream_type))
            + opt_member("permalink"@, opt_str(self.permalink)));
        Json::Object(members)
    }
}

/// Fields for updating a stream. All optional.
#[derive(Debug, Clone, PartialEq, Eq)]
pub struct UpdateStreamRequest {
    /// New display name.
    pub name: Option<String>,
    /// New stream type.
    pub stream_type: Option<String>,
    /// Archive / unarchive.
    pub archived: Option<bool>,
}

impl UpdateStreamRequest {
    /// An empty update.
    pub fn new() -> (r: UpdateStreamRequest)
        ensures
            r.name is None && r.stream_type is None && r.archived is None,
    {
        UpdateStreamRequest { name: None, stream_type: None, archived: None }
    }

    /// New display name.
    pub fn name(self, name: &str) -> (r: UpdateStreamRequest)
        ensures
            is_text(r.name, name@),
            r == (UpdateStreamRequest { name: r.name, ..self }),
    {
        UpdateStreamRequest { name: Some(name.to_owned()), ..self }
    }

    /// New stream type.
    pub fn stream_type(self, stream_type: &str) -> (r: UpdateStreamRequest)
        ensures
            is_text(r.stream_type, stream_type@),
            r == (UpdateStreamRequest { stream_type: r.stream_type, ..self }),
    {
        UpdateStreamRequest { stream_type: Some(stream_type.to_owned()), ..self }
    }

    /// Archive / unarchive the stream.
    pub fn archived(self, archived: bool) -> (r: UpdateStreamRequest)
        ensures
            r == (UpdateStreamRequest { archived: Some(archived), ..self }),
    {
        UpdateStreamRequest { archived: Some(archived), ..self }
    }

    /// The JSON body: only the set fields.
    pub open spec fn json(self) -> JsonV {
        JsonV::Object(
            opt_member("name"@, opt_str(self.name))
            + opt_member("stream_type"@, opt_str(self.stream_type))
            + opt_member("archived"@, opt_bool(self.archived))
        )
    }

    /// The JSON body to send.
    pub fn to_json(&self) -> (j: Json)
        ensures
            j@ == self.json(),
    {
        let mut members: Vec<(String, Json)> = Vec::new();
        push_opt_str(&mut members, "name", &self.name);
        push_opt_str(&mut members, "stream_type", &self.stream_type);
        push_opt_bool(&mut members, "archived", self.archived);
        assert(json_members_view(members@) =~= opt_member("name"@, opt_str(self.name))
            + opt_member("stream_type"@, opt_str(self.stream_type))
            + opt_member("archived"@, opt_bool(self.archived)));
        Json::Object(members)
    }
}

/// A message stream.
#[derive(Debug, Clone, PartialEq, Eq)]
pub struct Stream {
    /// Numeric id.
    pub id: i64,
    /// Stable UUID.
    pub uuid: String,
    /// Display name.
    pub name: String,
    /// Permalink used when sending (`stream` field).
    pub permalink: String,
    /// `transactional`, `broadcast` or `inbound`.
    pub stream_type: String,
    /// Whether the stream is archived.
    pub archived: bool,
}

} // verus!
