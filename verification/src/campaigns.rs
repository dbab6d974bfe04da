//! Broadcast campaigns (`/api/v2/server/campaigns`).

use vstd::prelude::*;

use crate::http::{no_params, Http, Method, PreparedRequest};
use crate::json::{
    lemma_concat_contains,
    is_text, json_members_view, object_members, opt_bool, opt_member, opt_str, push_member,
    push_opt_bool, push_opt_str, Json, JsonV,
};
use crate::text::{signed_decimal, signed_decimal_string};

verus! {

/// Service for broadcast campaigns. Obtain via [`CamelMailer::campaigns`](crate::CamelMailer::campaigns).
///
/// A campaign is content plus an audience. There are two ways to create
/// one and they behave differently: [`Campaigns::create_draft_request`]
/// writes it and waits, while [`Campaigns::create_and_send_request`]
/// expands it to the stream's subscribers before the call returns.
///
/// Each method gives the request that the call makes.
#[derive(Debug, Clone, Copy)]
pub struct Campaigns<'a> {
    /// The transport.
    pub http: &'a Http,
}

impl crate::CamelMailer {
    /// Broadcast campaigns.
    pub fn campaigns(&self) -> (s: Campaigns<'_>)
        ensures
            *s.http == self.spec_http(),
    {
        Campaigns { http: self.http() }
    }
}

impl Campaigns<'_> {
    /// Every campaign of the server, newest first (`GET /api/v2/server/campaigns`).
    pub fn list_request(&self) -> (r: PreparedRequest)
        ensures
            self.http.sends(r, Method::Get, "/api/v2/server/campaigns"@, None, seq![], None),
    {
        let path = "/api/v2/server/campaigns".to_owned();
        self.http.prepare(Method::Get, path, no_params(), None, None)
    }

    /// The campaigns of one broadcast stream (`GET /api/v2/server/streams/{permalink}/campaigns`).
    pub fn list_for_stream_request(&self, permalink: &str) -> (r: PreparedRequest)
        ensures
            self.http.sends(r, Method::Get, "/api/v2/server/streams/"@ + permalink@ + "/campaigns"@, None, seq![], None),
    {
        let mut path = "/api/v2/server/streams/".to_owned();
        path.append(permalink);
        path.append("/campaigns");
        self.http.prepare(Method::Get, path, no_params(), None, None)
    }

    /// One campaign together with its statistics (`GET /api/v2/server/campaigns/{id}`).
    pub fn get_request(&self, id: i64) -> (r: PreparedRequest)
        ensures
            self.http.sends(r, Method::Get, "/api/v2/server/campaigns/"@ + signed_decimal(id as int), None, seq![], None),
    {
        let mut path = "/api/v2/server/campaigns/".to_owned();
        path.append(signed_decimal_string(id).as_str());
        self.http.prepare(Method::Get, path, no_params(), None, None)
    }

    /// One campaign through its stream (`GET /api/v2/server/streams/{permalink}/campaigns/{id}`).
    pub fn get_for_stream_request(&self, permalink: &str, id: i64) -> (r: PreparedRequest)
        ensures
            self.http.sends(r, Method::Get, "/api/v2/server/streams/"@ + permalink@ + "/campaigns/"@ + signed_decimal(id as int), None, seq![], None),
    {
        let mut path = "/api/v2/server/streams/".to_owned();
        path.append(permalink);
        path.append("/campaigns/");
        path.append(signed_decimal_string(id).as_str());
        self.http.prepare(Method::Get, path, no_params(), None, None)
    }

    /// Create a campaign without sending it (`POST /api/v2/server/campaigns`); the audience is named by `stream` in the body.
    pub fn create_draft_request(&self, campaign: &CreateDraftCampaign) -> (r: PreparedRequest)
        ensures
            self.http.sends(r, Method::Post, "/api/v2/server/campaigns"@, None, seq![], Some(campaign.json())),
    {
        let path = "/api/v2/server/campaigns".to_owned();
        self.http.prepare(Method::Post, path, no_params(), Some(campaign.to_json()), None)
    }

    /// Create a campaign on a broadcast stream and send it immediately (`POST /api/v2/server/streams/{permalink}/campaigns`).
    pub fn create_and_send_request(&self, permalink: &str, campaign: &CreateAndSendCampaign) -> (r: PreparedRequest)
        ensures
            self.http.sends(r, Method::Post, "/api/v2/server/streams/"@ + permalink@ + "/campaigns"@, None, seq![], Some(campaign.json())),
    {
        let mut path = "/api/v2/server/streams/".to_owned();
        path.append(permalink);
        path.append("/campaigns");
        self.http.prepare(Method::Post, path, no_params(), Some(campaign.to_json()), None)
    }

    /// Update a draft or scheduled campaign (`PATCH /api/v2/server/campaigns/{id}`).
    pub fn update_request(&self, id: i64, fields: &UpdateCampaign) -> (r: PreparedRequest)
        ensures
            self.http.sends(r, Method::Patch, "/api/v2/server/campaigns/"@ + signed_decimal(id as int), None, seq![], Some(fields.json())),
    {
        let mut path = "/api/v2/server/campaigns/".to_owned();
        path.append(signed_decimal_string(id).as_str());
        self.http.prepare(Method::Patch, path, no_params(), Some(fields.to_json()), None)
    }

    /// Send a campaign now, whatever its schedule said (`POST /api/v2/server/campaigns/{id}/send`).
    pub fn send_request(&self, id: i64) -> (r: PreparedRequest)
        ensures
            self.http.sends(r, Method::Post, "/api/v2/server/campaigns/"@ + signed_decimal(id as int) + "/send"@, None, seq![], None),
    {
        let mut path = "/api/v2/server/campaigns/".to_owned();
        path.append(signed_decimal_string(id).as_str());
        path.append("/send");
        self.http.prepare(Method::Post, path, no_params(), None, None)
    }

    /// Cancel a scheduled or in-flight campaign (`POST /api/v2/server/campaigns/{id}/cancel`).
    pub fn cancel_request(&self, id: i64) -> (r: PreparedRequest)
        ensures
            self.http.sends(r, Method::Post, "/api/v2/server/campaigns/"@ + signed_decimal(id as int) + "/cancel"@, None, seq![], None),
    {
        let mut path = "/api/v2/server/campaigns/".to_owned();
        path.append(signed_decimal_string(id).as_str());
        path.append("/cancel");
        self.http.prepare(Method::Post, path, no_params(), None, None)
    }
}

/// Fields for creating a draft campaign.
#[derive(Debug, Clone, PartialEq, Eq)]
pub struct CreateDraftCampaign {
    /// Permalink of the broadcast stream to send to.
    pub stream: String,
    /// Bare sender address; the broadcast path authorizes its domain.
    pub from: String,
    /// Display name.
    pub name: Option<String>,
    /// Message subject.
    pub subject: Option<String>,
    /// HTML part.
    pub html_body: Option<String>,
    /// Plain-text part.
    pub text_body: Option<String>,
    /// RFC 3339 send time; arms the campaign as `scheduled`.
    pub scheduled_at: Option<String>,
    /// Send on creation, overriding `scheduled_at`.
    pub send_now: Option<bool>,
}

impl CreateDraftCampaign {
    /// A draft on the given stream, from the given address.
    pub fn new(stream: &str, from: &str) -> (c: CreateDraftCampaign)
        ensures
            c.stream@ == stream@,
            c.from@ == from@,
            c.name is None && c.subject is None && c.html_body is None && c.text_body is None
                && c.scheduled_at is None && c.send_now is None,
    {
        CreateDraftCampaign {
            stream: stream.to_owned(),
            from: from.to_owned(),
            name: None,
            subject: None,
            html_body: None,
            text_body: None,
            scheduled_at: None,
            send_now: None,
        }
    }

    /// Display name.
    pub fn name(self, name: &str) -> (r: CreateDraftCampaign)
        ensures
            is_text(r.name, name@),
            r == (CreateDraftCampaign { name: r.name, ..self }),
    {
        CreateDraftCampaign { name: Some(name.to_owned()), ..self }
    }

    /// Message subject.
    pub fn subject(self, subject: &str) -> (r: CreateDraftCampaign)
        ensures
            is_text(r.subject, subject@),
            r == (CreateDraftCampaign { subject: r.subject, ..self }),
    {
        CreateDraftCampaign { subject: Some(subject.to_owned()), ..self }
    }

    /// HTML part.
    pub fn html_body(self, html_body: &str) -> (r: CreateDraftCampaign)
        ensures
            is_text(r.html_body, html_body@),
            r == (CreateDraftCampaign { html_body: r.html_body, ..self }),
    {
        CreateDraftCampaign { html_body: Some(html_body.to_owned()), ..self }
    }

    /// Plain-text part.
    pub fn text_body(self, text_body: &str) -> (r: CreateDraftCampaign)
        ensures
            is_text(r.text_body, text_body@),
            r == (CreateDraftCampaign { text_body: r.text_body, ..self }),
    {
        CreateDraftCampaign { text_body: Some(text_body.to_owned()), ..self }
    }

    /// RFC 3339 send time; arms the campaign as `scheduled`.
    pub fn scheduled_at(self, scheduled_at: &str) -> (r: CreateDraftCampaign)
        ensures
            is_text(r.scheduled_at, scheduled_at@),
            r == (CreateDraftCampaign { scheduled_at: r.scheduled_at, ..self }),
    {
        CreateDraftCampaign { scheduled_at: Some(scheduled_at.to_owned()), ..self }
    }

    /// Send on creation, overriding any schedule.
    pub fn send_now(self, send_now: bool) -> (r: CreateDraftCampaign)
        ensures
            r == (CreateDraftCampaign { send_now: Some(send_now), ..self }),
    {
        CreateDraftCampaign { send_now: Some(send_now), ..self }
    }

    /// The JSON body: stream and sender, then the set fields.
    pub open spec fn json(self) -> JsonV {
        JsonV::Object(
            seq![("stream"@, JsonV::Str(self.stream@))]
            + seq![("from"@, JsonV::Str(self.from@))]
            + opt_member("name"@, opt_str(self.name))
            + opt_member("subject"@, opt_str(self.subject))
            + opt_member("html_body"@, opt_str(self.html_body))
            + opt_member("text_body"@, opt_str(self.text_body))
            + opt_member("scheduled_at"@, opt_str(self.scheduled_at))
            + opt_member("send_now"@, opt_bool(self.send_now))
        )
    }

    /// Every field of a draft that is set is sent as its own member of
    /// the create body, whatever the other fields hold; in particular a
    /// set `send_now` always goes out, so the campaign is sent on
    /// creation when it asks to be.
    pub proof fn lemma_set_fields_are_sent(self)
        ensures
            object_members(self.json()).contains(("stream"@, JsonV::Str(self.stream@))),
            object_members(self.json()).contains(("from"@, JsonV::Str(self.from@))),
            self.name matches Some(v) ==> object_members(self.json()).contains(
                ("name"@, JsonV::Str(v@)),
            ),
            self.subject matches Some(v) ==> object_members(self.json()).contains(
                ("subject"@, JsonV::Str(v@)),
            ),
            self.html_body matches Some(v) ==> object_members(self.json()).contains(
                ("html_body"@, JsonV::Str(v@)),
            ),
            self.text_body matches Some(v) ==> object_members(self.json()).contains(
                ("text_body"@, JsonV::Str(v@)),
            ),
            self.scheduled_at matches Some(v) ==> object_members(self.json()).contains(
                ("scheduled_at"@, JsonV::Str(v@)),
            ),
            self.send_now matches Some(b) ==> object_members(self.json()).contains(
                ("send_now"@, JsonV::Bool(b)),
            ),
    {
        let p0 = seq![("stream"@, JsonV::Str(self.stream@))];
        let f = seq![("from"@, JsonV::Str(self.from@))];
        let n = opt_member("name"@, opt_str(self.name));
        let su = opt_member("subject"@, opt_str(self.subject));
        let h = opt_member("html_body"@, opt_str(self.html_body));
        let t = opt_member("text_body"@, opt_str(self.text_body));
        let sc = opt_member("scheduled_at"@, opt_str(self.scheduled_at));
        let sn = opt_member("send_now"@, opt_bool(self.send_now));
        let p1 = p0 + f;
        let p2 = p1 + n;
        let p3 = p2 + su;
        let p4 = p3 + h;
        let p5 = p4 + t;
        let p6 = p5 + sc;
        let all = object_members(self.json());
        assert(all == p6 + sn);
        assert forall|x: (Seq<char>, JsonV)| #![trigger all.contains(x)] p0.contains(x) || f.contains(x)
            || n.contains(x) || su.contains(x) || h.contains(x) || t.contains(x) || sc.contains(x)
            || sn.contains(x) implies all.contains(x) by {
            lemma_concat_contains(p0, f, x);
            lemma_concat_contains(p1, n, x);
            lemma_concat_contains(p2, su, x);
            lemma_concat_contains(p3, h, x);
            lemma_concat_contains(p4, t, x);
            lemma_concat_contains(p5, sc, x);
            lemma_concat_contains(p6, sn, x);
        }
        assert(p0.contains(p0[0]) && all.contains(p0[0]));
        assert(f.contains(f[0]) && all.contains(f[0]));
        if self.name is Some {
            assert(n.contains(n[0]) && all.contains(n[0]));
        }
        if self.subject is Some {
            assert(su.contains(su[0]) && all.contains(su[0]));
        }
        if self.html_body is Some {
            assert(h.contains(h[0]) && all.contains(h[0]));
        }
        if self.text_body is Some {
            assert(t.contains(t[0]) && all.contains(t[0]));
        }
        if self.scheduled_at is Some {
            assert(sc.contains(sc[0]) && all.contains(sc[0]));
        }
        if self.send_now is Some {
            assert(sn.contains(sn[0]) && all.contains(sn[0]));
        }
    }

    /// The JSON body to send.
    pub fn to_json(&self) -> (j: Json)
        ensures
            j@ == self.json(),
            self.send_now matches Some(b) ==> object_members(j@).contains(
                ("send_now"@, JsonV::Bool(b)),
            ),
            self.scheduled_at matches Some(v) ==> object_members(j@).contains(
                ("scheduled_at"@, JsonV::Str(v@)),
            ),
            object_members(j@).contains(("stream"@, JsonV::Str(self.stream@))),
    {
        proof {
            self.lemma_set_fields_are_sent();
        }
        let mut members: Vec<(String, Json)> = Vec::new();
        push_member(&mut members, "stream", Json::Str(self.stream.clone()));
        push_member(&mut members, "from", Json::Str(self.from.clone()));
        push_opt_str(&mut members, "name", &self.name);
        push_opt_str(&mut members, "subject", &self.subject);
        push_opt_str(&mut members, "html_body", &self.html_body);
        push_opt_str(&mut members, "text_body", &self.text_body);
        push_opt_str(&mut members, "scheduled_at", &self.scheduled_at);
        push_opt_bool(&mut members, "send_now", self.send_now);
        assert(json_members_view(members@) =~= seq![("stream"@, JsonV::Str(self.stream@))]
            + seq![("from"@, JsonV::Str(self.from@))]
            + opt_member("name"@, opt_str(self.name))
            + opt_member("subject"@, opt_str(self.subject))
            + opt_member("html_body"@, opt_str(self.html_body))
            + opt_member("text_body"@, opt_str(self.text_body))
            + opt_member("scheduled_at"@, opt_str(self.scheduled_at))
            + opt_member("send_now"@, opt_bool(self.send_now)));
        Json::Object(members)
    }
}

/// Fields for an immediate campaign. There is no schedule
/// here: the send starts before the call returns.
#[derive(Debug, Clone, PartialEq, Eq)]
pub struct CreateAndSendCampaign {
    /// Display name.
    pub name: String,
    /// Bare sender address.
    pub from: Option<String>,
    /// Message subject.
    pub subject: Option<String>,
    /// HTML part.
    pub html_body: Option<String>,
    /// Plain-text part.
    pub text_body: Option<String>,
}

impl CreateAndSendCampaign {
    /// An immediate campaign with the given name.
    pub fn new(name: &str) -> (c: CreateAndSendCampaign)
        ensures
            c.name@ == name@,
            c.from is None && c.subject is None && c.html_body is None && c.text_body is None,
    {
        CreateAndSendCampaign { name: name.to_owned(), from: None, subject: None, html_body: None, text_body: None }
    }

    /// Bare sender address.
    pub fn from(self, from: &str) -> (r: CreateAndSendCampaign)
        ensures
            is_text(r.from, from@),
            r == (CreateAndSendCampaign { from: r.from, ..self }),
    {
        CreateAndSendCampaign { from: Some(from.to_owned()), ..self }
    }

    /// Message subject.
    pub fn subject(self, subject: &str) -> (r: CreateAndSendCampaign)
        ensures
            is_text(r.subject, subject@),
            r == (CreateAndSendCampaign { subject: r.subject, ..self }),
    {
        CreateAndSendCampaign { subject: Some(subject.to_owned()), ..self }
    }

    /// HTML part.
    pub fn html_body(self, html_body: &str) -> (r: CreateAndSendCampaign)
        ensures
            is_text(r.html_body, html_body@),
            r == (CreateAndSendCampaign { html_body: r.html_body, ..self }),
    {
        CreateAndSendCampaign { html_body: Some(html_body.to_owned()), ..self }
    }

    /// Plain-text part.
    pub fn text_body(self, text_body: &str) -> (r: CreateAndSendCampaign)
        ensures
            is_text(r.text_body, text_body@),
            r == (CreateAndSendCampaign { text_body: r.text_body, ..self }),
    {
        CreateAndSendCampaign { text_body: Some(text_body.to_owned()), ..self }
    }

    /// The JSON body: the name, then the set fields.
    pub open spec fn json(self) -> JsonV {
        JsonV::Object(
            seq![("name"@, JsonV::Str(self.name@))]
            + opt_member("from"@, opt_str(self.from))
            + opt_member("subject"@, opt_str(self.subject))
            + opt_member("html_body"@, opt_str(self.html_body))
            + opt_member("text_body"@, opt_str(self.text_body))
        )
    }

    /// The JSON body to send.
    pub fn to_json(&self) -> (j: Json)
        ensures
            j@ == self.json(),
    {
        let mut members: Vec<(String, Json)> = Vec::new();
        push_member(&mut members, "name", Json::Str(self.name.clone()));
        push_opt_str(&mut members, "from", &self.from);
        push_opt_str(&mut members, "subject", &self.subject);
        push_opt_str(&mut members, "html_body", &self.html_body);
        push_opt_str(&mut members, "text_body", &self.text_body);
        assert(json_members_view(members@) =~= seq![("name"@, JsonV::Str(self.name@))]
            + opt_member("from"@, opt_str(self.from))
            + opt_member("subject"@, opt_str(self.subject))
            + opt_member("html_body"@, opt_str(self.html_body))
            + opt_member("text_body"@, opt_str(self.text_body)));
        Json::Object(members)
    }
}

/// Fields for updating a campaign. All optional.
///
/// The schedule is three-valued, which is why it has two methods:
/// leaving it alone keeps the current schedule,
/// [`UpdateCampaign::scheduled_at`] moves a draft to `scheduled`, and
/// [`UpdateCampaign::clear_schedule`] sends an explicit `null`, which
/// drops the campaign back to `draft`. An omitted field and a `null`
/// mean different things to the API.
#[derive(Debug, Clone, PartialEq, Eq)]
pub struct UpdateCampaign {
    /// New display name.
    pub name: Option<String>,
    /// New sender address.
    pub from: Option<String>,
    /// New subject.
    pub subject: Option<String>,
    /// New HTML part.
    pub html_body: Option<String>,
    /// New plain-text part.
    pub text_body: Option<String>,
    /// `None` omits the field, `Some(None)` sends an explicit `null`
    /// (which clears the schedule), `Some(Some(t))` schedules for `t`.
    pub scheduled_at: Option<Option<String>>,
}

/// The `scheduled_at` member: absent, `null`, or the time.
pub open spec fn schedule_member(s: Option<Option<String>>) -> Seq<(Seq<char>, JsonV)> {
    match s {
        None => seq![],
        Some(None) => seq![("scheduled_at"@, JsonV::Null)],
        Some(Some(t)) => seq![("scheduled_at"@, JsonV::Str(t@))],
    }
}

impl UpdateCampaign {
    /// An empty update.
    pub fn new() -> (u: UpdateCampaign)
        ensures
            u.name is None && u.from is None && u.subject is None && u.html_body is None
                && u.text_body is None && u.scheduled_at is None,
    {
        UpdateCampaign { name: None, from: None, subject: None, html_body: None, text_body: None, scheduled_at: None }
    }

    /// New display name.
    pub fn name(self, name: &str) -> (r: UpdateCampaign)
        ensures
            is_text(r.name, name@),
            r == (UpdateCampaign { name: r.name, ..self }),
    {
        UpdateCampaign { name: Some(name.to_owned()), ..self }
    }

    /// New sender address.
    pub fn from(self, from: &str) -> (r: UpdateCampaign)
        ensures
            is_text(r.from, from@),
            r == (UpdateCampaign { from: r.from, ..self }),
    {
        UpdateCampaign { from: Some(from.to_owned()), ..self }
    }

    /// New subject.
    pub fn subject(self, subject: &str) -> (r: UpdateCampaign)
        ensures
            is_text(r.subject, subject@),
            r == (UpdateCampaign { subject: r.subject, ..self }),
    {
        UpdateCampaign { subject: Some(subject.to_owned()), ..self }
    }

    /// New HTML part.
    pub fn html_body(self, html_body: &str) -> (r: UpdateCampaign)
        ensures
            is_text(r.html_body, html_body@),
            r == (UpdateCampaign { html_body: r.html_body, ..self }),
    {
        UpdateCampaign { html_body: Some(html_body.to_owned()), ..self }
    }

    /// New plain-text part.
    pub fn text_body(self, text_body: &str) -> (r: UpdateCampaign)
        ensures
            is_text(r.text_body, text_body@),
            r == (UpdateCampaign { text_body: r.text_body, ..self }),
    {
        UpdateCampaign { text_body: Some(text_body.to_owned()), ..self }
    }

    /// Schedule the campaign for an RFC 3339 time.
    pub fn scheduled_at(self, scheduled_at: &str) -> (u: UpdateCampaign)
        ensures
            u.scheduled_at matches Some(Some(t)) && t@ == scheduled_at@,
            u == (UpdateCampaign { scheduled_at: u.scheduled_at, ..self }),
    {
        UpdateCampaign { scheduled_at: Some(Some(scheduled_at.to_owned())), ..self }
    }

    /// Clear the schedule, dropping the campaign back to `draft`. This
    /// sends an explicit `null`; omitting the field would leave the
    /// schedule standing.
    pub fn clear_schedule(self) -> (u: UpdateCampaign)
        ensures
            u == (UpdateCampaign { scheduled_at: Some(None), ..self }),
    {
        UpdateCampaign { scheduled_at: Some(None), ..self }
    }

    /// The JSON body: the set fields, and the schedule as
    /// [`schedule_member`] gives it.
    pub open spec fn json(self) -> JsonV {
        JsonV::Object(
            opt_member("name"@, opt_str(self.name))
            + opt_member("from"@, opt_str(self.from))
            + opt_member("subject"@, opt_str(self.subject))
            + opt_member("html_body"@, opt_str(self.html_body))
            + opt_member("text_body"@, opt_str(self.text_body))
            + schedule_member(self.scheduled_at)
        )
    }

    /// The JSON body to send.
    pub fn to_json(&self) -> (j: Json)
        ensures
            j@ == self.json(),
    {
        let mut members: Vec<(String, Json)> = Vec::new();
        push_opt_str(&mut members, "name", &self.name);
        push_opt_str(&mut members, "from", &self.from);
        push_opt_str(&mut members, "subject", &self.subject);
        push_opt_str(&mut members, "html_body", &self.html_body);
        push_opt_str(&mut members, "text_body", &self.text_body);
        let ghost before = json_members_view(members@);
        match &self.scheduled_at {
            None => {},
            Some(None) => {
                push_member(&mut members, "scheduled_at", Json::Null);
            },
            Some(Some(t)) => {
                push_member(&mut members, "scheduled_at", Json::Str(t.clone()));
            },
        }
        assert(json_members_view(members@) =~= before + schedule_member(self.scheduled_at));
        assert(json_members_view(members@) =~= opt_member("name"@, opt_str(self.name))
            + opt_member("from"@, opt_str(self.from))
            + opt_member("subject"@, opt_str(self.subject))
            + opt_member("html_body"@, opt_str(self.html_body))
            + opt_member("text_body"@, opt_str(self.text_body))
            + schedule_member(self.scheduled_at));
        Json::Object(members)
    }
}

/// The schedule of an update goes out three ways: left untouched, no
/// `scheduled_at` member is sent at all (the schedule stands); cleared,
/// the body carries `scheduled_at: null` (the campaign drops back to
/// draft); set, the body carries the time.
pub proof fn lemma_schedule_is_sent_three_ways(update: UpdateCampaign, time: String)
    ensures
        forall|i: int|
            0 <= i < object_members((UpdateCampaign { scheduled_at: None, ..update }).json()).len()
                ==> #[trigger] object_members(
                (UpdateCampaign { scheduled_at: None, ..update }).json(),
            )[i].0 != "scheduled_at"@,
        object_members((UpdateCampaign { scheduled_at: Some(None), ..update }).json()).contains(
            ("scheduled_at"@, JsonV::Null),
        ),
        object_members(
            (UpdateCampaign { scheduled_at: Some(Some(time)), ..update }).json(),
        ).contains(("scheduled_at"@, JsonV::Str(time@))),
{
    reveal_strlit("scheduled_at");
    reveal_strlit("name");
    reveal_strlit("from");
    reveal_strlit("subject");
    reveal_strlit("html_body");
    reveal_strlit("text_body");
    let untouched = object_members((UpdateCampaign { scheduled_at: None, ..update }).json());
    assert forall|i: int| 0 <= i < untouched.len() implies #[trigger] untouched[i].0
        != "scheduled_at"@ by {
        let k = untouched[i].0;
        assert(k == "name"@ || k == "from"@ || k == "subject"@ || k == "html_body"@ || k
            == "text_body"@);
        if k == "scheduled_at"@ {
            assert(k.len() == 12);
            assert(k[0] == 's');
        }
    }
    let cleared = object_members((UpdateCampaign { scheduled_at: Some(None), ..update }).json());
    assert(cleared[cleared.len() - 1] == ("scheduled_at"@, JsonV::Null));
    let timed = object_members((UpdateCampaign { scheduled_at: Some(Some(time)), ..update }).json());
    assert(timed[timed.len() - 1] == ("scheduled_at"@, JsonV::Str(time@)));
}

/// The audience stream carried on every campaign, so a list needs no
/// second lookup.
#[derive(Debug, Clone, PartialEq, Eq)]
pub struct CampaignStream {
    /// Permalink of the stream.
    pub permalink: String,
    /// Display name of the stream.
    pub name: String,
}

/// A broadcast campaign.
#[derive(Debug, Clone, PartialEq, Eq)]
pub struct Campaign {
    /// Numeric id.
    pub id: i64,
    /// Display name.
    pub name: Option<String>,
    /// Message subject.
    pub subject: Option<String>,
    /// Sender address.
    pub from: Option<String>,
    /// HTML part.
    pub html_body: Option<String>,
    /// Plain-text part.
    pub text_body: Option<String>,
    /// Lifecycle state: `draft`, `scheduled`, `sending`, `sent`,
    /// `failed` or `canceled`. Only `draft` and `scheduled` are
    /// editable.
    pub status: String,
    /// Recipient count snapshotted when the send begins.
    pub total: i64,
    /// Recipients expanded into messages so far.
    pub sent: i64,
    /// Id of the audience stream.
    pub stream_id: i64,
    /// Permalink and name of the audience stream.
    pub stream: CampaignStream,
    /// Send time of a scheduled campaign.
    pub scheduled_at: Option<String>,
    /// When the campaign row was created.
    pub created_at: Option<String>,
    /// When expansion finished (`sent` or `failed`).
    pub completed_at: Option<String>,
}

/// Per-campaign counters, attributed through the messages the campaign
/// produced.
#[derive(Debug, Clone, PartialEq, Eq)]
pub struct CampaignStats {
    /// Recipient count of the campaign.
    pub total: i64,
    /// Messages created.
    pub sent: i64,
    /// Messages delivered.
    pub delivered: i64,
    /// Messages that failed.
    pub failed: i64,
    /// Messages opened at least once.
    pub opened: i64,
    /// Messages with at least one click.
    pub clicked: i64,
    /// Resulting unsubscribes.
    pub unsubscribed: i64,
}

/// A campaign together with its statistics.
#[derive(Debug, Clone, PartialEq, Eq)]
pub struct CampaignDetail {
    /// The campaign itself.
    pub campaign: Campaign,
    /// Its counters.
    pub stats: CampaignStats,
}

} // verus!
