//! Manage and render message templates (`/api/v2/server/templates`).

use vstd::prelude::*;

use crate::http::{no_params, Http, Method, PreparedRequest};
use crate::json::{
    lemma_concat_contains, object_members,
    is_text, json_members_view, opt_member, opt_str, push_member, push_opt_str, Json, JsonV,
};

verus! {

/// Service for message templates. Obtain via [`CamelMailer::templates`](crate::CamelMailer::templates).
///
/// Each method gives the request that the call makes.
#[derive(Debug, Clone, Copy)]
pub struct Templates<'a> {
    /// The transport.
    pub http: &'a Http,
}

impl crate::CamelMailer {
    /// Manage and render templates.
    pub fn templates(&self) -> (s: Templates<'_>)
        ensures
            *s.http == self.spec_http(),
    {
        Templates { http: self.http() }
    }
}

impl Templates<'_> {
    /// List all templates (`GET /api/v2/server/templates`).
    pub fn list_request(&self) -> (r: PreparedRequest)
        ensures
            self.http.sends(r, Method::Get, "/api/v2/server/templates"@, None, seq![], None),
    {
        let path = "/api/v2/server/templates".to_owned();
        self.http.prepare(Method::Get, path, no_params(), None, None)
    }

    /// Create a template (`POST /api/v2/server/templates`).
    pub fn create_request(&self, template: &TemplateFields) -> (r: PreparedRequest)
        ensures
            self.http.sends(r, Method::Post, "/api/v2/server/templates"@, None, seq![], Some(template.json())),
    {
        let path = "/api/v2/server/templates".to_owned();
        self.http.prepare(Method::Post, path, no_params(), Some(template.to_json()), None)
    }

    /// Fetch one template by permalink (`GET /api/v2/server/templates/{permalink}`).
    pub fn get_request(&self, permalink: &str) -> (r: PreparedRequest)
        ensures
            self.http.sends(r, Method::Get, "/api/v2/server/templates/"@ + permalink@, None, seq![], None),
    {
        let mut path = "/api/v2/server/templates/".to_owned();
        path.append(permalink);
        self.http.prepare(Method::Get, path, no_params(), None, None)
    }

    /// Update a template (`PATCH /api/v2/server/templates/{permalink}`); only the set fields change.
    pub fn update_request(&self, permalink: &str, fields: &TemplateFields) -> (r: PreparedRequest)
        ensures
            self.http.sends(r, Method::Patch, "/api/v2/server/templates/"@ + permalink@, None, seq![], Some(fields.json())),
    {
        let mut path = "/api/v2/server/templates/".to_owned();
        path.append(permalink);
        self.http.prepare(Method::Patch, path, no_params(), Some(fields.to_json()), None)
    }

    /// Archive a template (`POST /api/v2/server/templates/{permalink}/archive`).
    pub fn archive_request(&self, permalink: &str) -> (r: PreparedRequest)
        ensures
            self.http.sends(r, Method::Post, "/api/v2/server/templates/"@ + permalink@ + "/archive"@, None, seq![], None),
    {
        let mut path = "/api/v2/server/templates/".to_owned();
        path.append(permalink);
        path.append("/archive");
        self.http.prepare(Method::Post, path, no_params(), None, None)
    }

    /// Render a template against a model without sending (`POST /api/v2/server/templates/{permalink}/render`); the body is `{ "template_model": model }`.
    pub fn render_request(&self, permalink: &str, model: &serde_json::Value) -> (r: PreparedRequest)
        ensures
            self.http.sends(r, Method::Post, "/api/v2/server/templates/"@ + permalink@ + "/render"@, None, seq![], Some(JsonV::Object(seq![("template_model"@, JsonV::Raw(*model))]))),
    {
        let mut path = "/api/v2/server/templates/".to_owned();
        path.append(permalink);
        path.append("/render");
        self.http.prepare(Method::Post, path, no_params(), Some(render_body(model)), None)
    }
}

/// The body of a render call.
fn render_body(model: &serde_json::Value) -> (j: Json)
    ensures
        j@ == JsonV::Object(seq![("template_model"@, JsonV::Raw(*model))]),
{
    let mut members: Vec<(String, Json)> = Vec::new();
    push_member(&mut members, "template_model", Json::Raw(model.clone()));
    assert(json_members_view(members@) =~= seq![("template_model"@, JsonV::Raw(*model))]);
    Json::Object(members)
}

/// Fields for creating or updating a template.
///
/// `subject`, `html_body` and `text_body` may contain Mustache-style
/// `{{ variables }}`.
#[derive(Debug, Clone, PartialEq, Eq)]
pub struct TemplateFields {
    /// Display name (also seeds the permalink on create).
    pub name: Option<String>,
    /// Subject line template.
    pub subject: Option<String>,
    /// HTML body template.
    pub html_body: Option<String>,
    /// Plain-text body template.
    pub text_body: Option<String>,
}

impl TemplateFields {
    /// Start with a name (required when creating).
    pub fn new(name: &str) -> (f: TemplateFields)
        ensures
            is_text(f.name, name@),
            f.subject is None && f.html_body is None && f.text_body is None,
    {
        TemplateFields { name: Some(name.to_owned()), subject: None, html_body: None, text_body: None }
    }

    /// Fields for a partial update (no name change).
    pub fn update() -> (f: TemplateFields)
        ensures
            f.name is None && f.subject is None && f.html_body is None && f.text_body is None,
    {
        TemplateFields { name: None, subject: None, html_body: None, text_body: None }
    }

    /// Set the display name.
    pub fn name(self, name: &str) -> (r: TemplateFields)
        ensures
            is_text(r.name, name@),
            r == (TemplateFields { name: r.name, ..self }),
    {
        TemplateFields { name: Some(name.to_owned()), ..self }
    }

    /// Subject line template.
    pub fn subject(self, subject: &str) -> (r: TemplateFields)
        ensures
            is_text(r.subject, subject@),
            r == (TemplateFields { subject: r.subject, ..self }),
    {
        TemplateFields { subject: Some(subject.to_owned()), ..self }
    }

    /// HTML body template.
    pub fn html_body(self, html: &str) -> (r: TemplateFields)
        ensures
            is_text(r.html_body, html@),
            r == (TemplateFields { html_body: r.html_body, ..self }),
    {
        TemplateFields { html_body: Some(html.to_owned()), ..self }
    }

    /// Plain-text body template.
    pub fn text_body(self, text: &str) -> (r: TemplateFields)
        ensures
            is_text(r.text_body, text@),
            r == (TemplateFields { text_body: r.text_body, ..self }),
    {
        TemplateFields { text_body: Some(text.to_owned()), ..self }
    }

    /// The JSON body: only the set fields.
    pub open spec fn json(self) -> JsonV {
        JsonV::Object(
            opt_member("name"@, opt_str(self.name))
            + opt_member("subject"@, opt_str(self.subject))
            + opt_member("html_body"@, opt_str(self.html_body))
            + opt_member("text_body"@, opt_str(self.text_body))
        )
    }

    /// Every field that is set is sent as its own member of the create or
    /// update body, whatever the other fields hold: the plain-text body
    /// is never dropped for the HTML one.
    pub proof fn lemma_set_fields_are_sent(self)
        ensures
            self.name matches Some(v) ==> object_members(self.json()).contains(
                ("name"@, JsonV::Str(v@)),
            ),
            self.subject matches Some(v) ==> object_members(self.json()).contains(
                ("subject"@, JsonV::Str(v@)),
            ),
            self.html_body matches Some(v) ==> object_members(self.json()).contains(
                ("html_body"@, JsonV::Str(v@)),
            ),
            self.text_body matches Some(v) ==> object_members(self.json()).contains(
                ("text_body"@, JsonV::Str(v@)),
            ),
    {
        let n = opt_member("name"@, opt_str(self.name));
        let su = opt_member("subject"@, opt_str(self.subject));
        let h = opt_member("html_body"@, opt_str(self.html_body));
        let t = opt_member("text_body"@, opt_str(self.text_body));
        let p1 = n + su;
        let p2 = p1 + h;
        let all = object_members(self.json());
        assert(all == p2 + t);
        assert forall|x: (Seq<char>, JsonV)| #![trigger all.contains(x)] n.contains(x) || su.contains(x)
            || h.contains(x) || t.contains(x) implies all.contains(x) by {
            lemma_concat_contains(n, su, x);
            lemma_concat_contains(p1, h, x);
            lemma_concat_contains(p2, t, x);
        }
        if self.name is Some {
            assert(n.contains(n[0]) && all.contains(n[0]));
        }
        if self.subject is Some {
            assert(su.contains(su[0]) && all.contains(su[0]));
        }
        if self.html_body is Some {
            assert(h.contains(h[0]) && all.contains(h[0]));
        }
        if self.text_body is Some {
            assert(t.contains(t[0]) && all.contains(t[0]));
        }
    }

    /// The JSON body to send.
    pub fn to_json(&self) -> (j: Json)
        ensures
            j@ == self.json(),
            self.html_body matches Some(v) ==> object_members(j@).contains(
                ("html_body"@, JsonV::Str(v@)),
            ),
            self.text_body matches Some(v) ==> object_members(j@).contains(
                ("text_body"@, JsonV::Str(v@)),
            ),
    {
        proof {
            self.lemma_set_fields_are_sent();
        }
        let mut members: Vec<(String, Json)> = Vec::new();
        push_opt_str(&mut members, "name", &self.name);
        push_opt_str(&mut members, "subject", &self.subject);
        push_opt_str(&mut members, "html_body", &self.html_body);
        push_opt_str(&mut members, "text_body", &self.text_body);
        assert(json_members_view(members@) =~= opt_member("name"@, opt_str(self.name))
            + opt_member("subject"@, opt_str(self.subject))
            + opt_member("html_body"@, opt_str(self.html_body))
            + opt_member("text_body"@, opt_str(self.text_body)));
        Json::Object(members)
    }
}

/// A stored message template.
#[derive(Debug, Clone, PartialEq, Eq)]
pub struct Template {
    /// Numeric id.
    pub id: i64,
    /// Stable UUID.
    pub uuid: String,
    /// Display name.
    pub name: String,
    /// Permalink used to reference the template when sending.
    pub permalink: String,
    /// Subject line template.
    pub subject: Option<String>,
    /// HTML body template.
    pub html_body: Option<String>,
    /// Plain-text body template.
    pub text_body: Option<String>,
    /// Whether the template is archived.
    pub archived: bool,
}

/// The output of rendering a template against a model.
#[derive(Debug, Clone, PartialEq, Eq)]
pub struct RenderedTemplate {
    /// Rendered subject.
    pub subject: Option<String>,
    /// Rendered HTML body.
    pub html_body: Option<String>,
    /// Rendered plain-text body.
    pub text_body: Option<String>,
}

} // verus!
