//! Template layouts (`/api/v2/server/layouts`).

use vstd::prelude::*;

use crate::http::{no_params, Http, Method, PreparedRequest};
use crate::json::{is_text, json_members_view, opt_member, opt_str, push_member, push_opt_str, Json, JsonV};

verus! {

/// Service for template layouts. Obtain via [`CamelMailer::layouts`](crate::CamelMailer::layouts).
///
/// A layout wraps every template that uses it, so header, footer and
/// styling live in one place instead of in each template.
///
/// Each method gives the request that the call makes.
#[derive(Debug, Clone, Copy)]
pub struct Layouts<'a> {
    /// The transport.
    pub http: &'a Http,
}

impl crate::CamelMailer {
    /// Template layouts.
    pub fn layouts(&self) -> (s: Layouts<'_>)
        ensures
            *s.http == self.spec_http(),
    {
        Layouts { http: self.http() }
    }
}

impl Layouts<'_> {
    /// All layouts of the server (`GET /api/v2/server/layouts`).
    pub fn list_request(&self) -> (r: PreparedRequest)
        ensures
            self.http.sends(r, Method::Get, "/api/v2/server/layouts"@, None, seq![], None),
    {
        let path = "/api/v2/server/layouts".to_owned();
        self.http.prepare(Method::Get, path, no_params(), None, None)
    }

    /// Create a layout (`POST /api/v2/server/layouts`).
    pub fn create_request(&self, layout: &LayoutFields) -> (r: PreparedRequest)
        ensures
            self.http.sends(r, Method::Post, "/api/v2/server/layouts"@, None, seq![], Some(layout.json())),
    {
        let path = "/api/v2/server/layouts".to_owned();
        self.http.prepare(Method::Post, path, no_params(), Some(layout.to_json()), None)
    }

    /// One layout by permalink (`GET /api/v2/server/layouts/{permalink}`).
    pub fn get_request(&self, permalink: &str) -> (r: PreparedRequest)
        ensures
            self.http.sends(r, Method::Get, "/api/v2/server/layouts/"@ + permalink@, None, seq![], None),
    {
        let mut path = "/api/v2/server/layouts/".to_owned();
        path.append(permalink);
        self.http.prepare(Method::Get, path, no_params(), None, None)
    }

    /// Update a layout; only the given fields change (`PATCH /api/v2/server/layouts/{permalink}`).
    pub fn update_request(&self, permalink: &str, fields: &LayoutFields) -> (r: PreparedRequest)
        ensures
            self.http.sends(r, Method::Patch, "/api/v2/server/layouts/"@ + permalink@, None, seq![], Some(fields.json())),
    {
        let mut path = "/api/v2/server/layouts/".to_owned();
        path.append(permalink);
        self.http.prepare(Method::Patch, path, no_params(), Some(fields.to_json()), None)
    }

    /// Delete a layout (`DELETE /api/v2/server/layouts/{permalink}`).
    pub fn delete_request(&self, permalink: &str) -> (r: PreparedRequest)
        ensures
            self.http.sends(r, Method::Delete, "/api/v2/server/layouts/"@ + permalink@, None, seq![], None),
    {
        let mut path = "/api/v2/server/layouts/".to_owned();
        path.append(permalink);
        self.http.prepare(Method::Delete, path, no_params(), None, None)
    }

    /// Upload the layout's logo as a data URL (`POST /api/v2/server/layouts/{permalink}/logo`); the body is `{ "data_url": … }`.
    pub fn upload_logo_request(&self, permalink: &str, data_url: &str) -> (r: PreparedRequest)
        ensures
            self.http.sends(r, Method::Post, "/api/v2/server/layouts/"@ + permalink@ + "/logo"@, None, seq![], Some(JsonV::Object(seq![("data_url"@, JsonV::Str(data_url@))]))),
    {
        let mut path = "/api/v2/server/layouts/".to_owned();
        path.append(permalink);
        path.append("/logo");
        self.http.prepare(Method::Post, path, no_params(), Some(logo_body(data_url)), None)
    }
}

/// The body of a logo upload.
fn logo_body(data_url: &str) -> (j: Json)
    ensures
        j@ == JsonV::Object(seq![("data_url"@, JsonV::Str(data_url@))]),
{
    let mut members: Vec<(String, Json)> = Vec::new();
    push_member(&mut members, "data_url", Json::Str(data_url.to_owned()));
    assert(json_members_view(members@) =~= seq![("data_url"@, JsonV::Str(data_url@))]);
    Json::Object(members)
}

/// Fields for creating or updating a layout. All optional except when
/// creating, where the API requires a name.
#[derive(Debug, Clone, PartialEq, Eq)]
pub struct LayoutFields {
    /// Display name.
    pub name: Option<String>,
    /// Explicit permalink (derived from the name when omitted).
    pub permalink: Option<String>,
    /// Wrapper for the HTML body; embeds it with `{{{ content }}}`.
    pub html_wrapper: Option<String>,
    /// Wrapper for the plain-text body.
    pub text_wrapper: Option<String>,
}

impl LayoutFields {
    /// An empty set of fields.
    pub fn new() -> (f: LayoutFields)
        ensures
            f.name is None && f.permalink is None && f.html_wrapper is None && f.text_wrapper is None,
    {
        LayoutFields { name: None, permalink: None, html_wrapper: None, text_wrapper: None }
    }

    /// Display name.
    pub fn name(self, name: &str) -> (r: LayoutFields)
        ensures
            is_text(r.name, name@),
            r == (LayoutFields { name: r.name, ..self }),
    {
        LayoutFields { name: Some(name.to_owned()), ..self }
    }

    /// Explicit permalink.
    pub fn permalink(self, permalink: &str) -> (r: LayoutFields)
        ensures
            is_text(r.permalink, permalink@),
            r == (LayoutFields { permalink: r.permalink, ..self }),
    {
        LayoutFields { permalink: Some(permalink.to_owned()), ..self }
    }

    /// Wrapper for the HTML body.
    pub fn html_wrapper(self, html_wrapper: &str) -> (r: LayoutFields)
        ensures
            is_text(r.html_wrapper, html_wrapper@),
            r == (LayoutFields { html_wrapper: r.html_wrapper, ..self }),
    {
        LayoutFields { html_wrapper: Some(html_wrapper.to_owned()), ..self }
    }

    /// Wrapper for the plain-text body.
    pub fn text_wrapper(self, text_wrapper: &str) -> (r: LayoutFields)
        ensures
            is_text(r.text_wrapper, text_wrapper@),
            r == (LayoutFields { text_wrapper: r.text_wrapper, ..self }),
    {
        LayoutFields { text_wrapper: Some(text_wrapper.to_owned()), ..self }
    }

    /// The JSON body: only the set fields.
    pub open spec fn json(self) -> JsonV {
        JsonV::Object(
            opt_member("name"@, opt_str(self.name))
            + opt_member("permalink"@, opt_str(self.permalink))
            + opt_member("html_wrapper"@, opt_str(self.html_wrapper))
            + opt_member("text_wrapper"@, opt_str(self.text_wrapper))
        )
    }

    /// The JSON body to send.
    pub fn to_json(&self) -> (j: Json)
        ensures
            j@ == self.json(),
    {
        let mut members: Vec<(String, Json)> = Vec::new();
        push_opt_str(&mut members, "name", &self.name);
        push_opt_str(&mut members, "permalink", &self.permalink);
        push_opt_str(&mut members, "html_wrapper", &self.html_wrapper);
        push_opt_str(&mut members, "text_wrapper", &self.text_wrapper);
        assert(json_members_view(members@) =~= opt_member("name"@, opt_str(self.name))
            + opt_member("permalink"@, opt_str(self.permalink))
            + opt_member("html_wrapper"@, opt_str(self.html_wrapper))
            + opt_member("text_wrapper"@, opt_str(self.text_wrapper)));
        Json::Object(members)
    }
}

/// Where an uploaded logo now lives.
#[derive(Debug, Clone, PartialEq, Eq)]
pub struct LayoutLogo {
    /// Absolute URL to reference from the wrapper. Served without
    /// authentication, because mail clients fetch it without a session.
    pub url: String,
}

/// A template layout.
#[derive(Debug, Clone, PartialEq, Eq)]
pub struct Layout {
    /// Numeric id.
    pub id: i64,
    /// Stable UUID.
    pub uuid: String,
    /// Display name.
    pub name: String,
    /// Permalink used in API calls and by templates.
    pub permalink: String,
    /// Wrapper for the HTML body.
    pub html_wrapper: String,
    /// Wrapper for the plain-text body, when set.
    pub text_wrapper: Option<String>,
}

} // verus!
