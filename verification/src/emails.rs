//! Send and inspect messages (`/api/v2/server/messages`).

use vstd::prelude::*;

use crate::error::{Error, Result};
use crate::http::{no_params, opt_number, opt_param, opt_str_view, opt_text, push_number_param, push_text_param, Http, Method, PreparedRequest};
use crate::json::{is_text, json_members_view, lemma_concat_contains, lemma_item_between, object_members, json_seq_view, list_member, opt_member, opt_raw, opt_str, push_item, push_list, push_member, push_opt_raw, push_opt_str, Json, JsonV};
use crate::text::{concat3, id_path, id_segment, signed_decimal};
use crate::types::{addresses_json, addresses_to_json, addresses_view, attachments_json, attachments_to_json, b64_encode, base64_decode, base64_error, pairs_view, set_entry, sorted_names, Address, Attachment, Headers, IntoAddress};

verus! {

// ---------------------------------------------------------------- service

/// Service for sending and reading messages. Obtain via
/// [`CamelMailer::emails`](crate::CamelMailer::emails).
///
/// Each method gives the request that the call makes.
#[derive(Debug, Clone, Copy)]
pub struct Emails<'a> {
    /// The transport.
    pub http: &'a Http,
    /// Set by [`Emails::idempotent`]; applied to every send this service
    /// performs.
    pub idempotency_key: Option<&'a str>,
}

impl crate::CamelMailer {
    /// Send and inspect messages.
    pub fn emails(&self) -> (e: Emails<'_>)
        ensures
            *e.http == self.spec_http(),
            e.idempotency_key is None,
    {
        Emails { http: self.http(), idempotency_key: None }
    }
}

impl<'a> Emails<'a> {
    /// Make the sends on this service replayable.
    ///
    /// Returns a view of the service that attaches `key` as the
    /// `Idempotency-Key` header. Sending the same key with the same body
    /// returns the original result instead of queuing a second copy;
    /// the same key with a different body is refused with
    /// `InvalidIdempotentRequest` (HTTP 409).
    pub fn idempotent(self, key: &'a str) -> (e: Emails<'a>)
        ensures
            e.http == self.http,
            e.idempotency_key == Some(key),
    {
        Emails { http: self.http, idempotency_key: Some(key) }
    }

    /// The replay key, if one was set.
    pub open spec fn key(self) -> Option<Seq<char>> {
        opt_str_view(self.idempotency_key)
    }

    /// Send one message (`POST /api/v2/server/messages`).
    pub fn send_request(&self, request: &SendEmailRequest) -> (r: PreparedRequest)
        ensures
            self.http.sends(r, Method::Post, "/api/v2/server/messages"@, self.key(), seq![], Some(request.json())),
    {
        self.http.prepare(
            Method::Post,
            "/api/v2/server/messages".to_owned(),
            no_params(),
            Some(request.to_json()),
            self.idempotency_key,
        )
    }

    /// Send the same content to every subscriber of a broadcast stream
    /// (`POST /api/v2/server/streams/{permalink}/send`). Not replayable:
    /// no replay key is sent.
    pub fn send_to_stream_request(&self, permalink: &str, request: &SendToStreamRequest) -> (r: PreparedRequest)
        ensures
            self.http.sends(r, Method::Post, "/api/v2/server/streams/"@ + permalink@ + "/send"@, None, seq![], Some(request.json())),
    {
        self.http.prepare(
            Method::Post,
            concat3("/api/v2/server/streams/", permalink, "/send"),
            no_params(),
            Some(request.to_json()),
            None,
        )
    }

    /// Send a batch of messages in one call
    /// (`POST /api/v2/server/messages/batch`); the body is the array of
    /// the messages, in order.
    pub fn send_batch_request(&self, requests: &Vec<SendEmailRequest>) -> (r: PreparedRequest)
        ensures
            self.http.sends(r, Method::Post, "/api/v2/server/messages/batch"@, self.key(), seq![],
                Some(JsonV::Array(requests@.map_values(|q: SendEmailRequest| q.json())))),
    {
        let mut items: Vec<Json> = Vec::new();
        let mut i: usize = 0;
        while i < requests.len()
            invariant
                i <= requests@.len(),
                json_seq_view(items@) == requests@.take(i as int).map_values(
                    |q: SendEmailRequest| q.json(),
                ),
            decreases requests@.len() - i,
        {
            push_item(&mut items, requests[i].to_json());
            assert(requests@.take(i + 1).map_values(|q: SendEmailRequest| q.json())
                =~= requests@.take(i as int).map_values(|q: SendEmailRequest| q.json()).push(
                requests@[i as int].json(),
            ));
            i = i + 1;
        }
        assert(requests@.take(i as int) =~= requests@);
        self.http.prepare(
            Method::Post,
            "/api/v2/server/messages/batch".to_owned(),
            no_params(),
            Some(Json::Array(items)),
            self.idempotency_key,
        )
    }

    /// Render a stored template and send it
    /// (`POST /api/v2/server/messages/with_template`).
    pub fn send_with_template_request(&self, request: &SendTemplateRequest) -> (r: PreparedRequest)
        ensures
            self.http.sends(r, Method::Post, "/api/v2/server/messages/with_template"@, self.key(), seq![], Some(request.json())),
    {
        self.http.prepare(
            Method::Post,
            "/api/v2/server/messages/with_template".to_owned(),
            no_params(),
            Some(request.to_json()),
            self.idempotency_key,
        )
    }

    /// Send a stored template to many recipients in one call
    /// (`POST /api/v2/server/messages/with_template/batch`).
    pub fn send_with_template_batch_request(&self, requests: &Vec<SendTemplateRequest>) -> (r: PreparedRequest)
        ensures
            self.http.sends(r, Method::Post, "/api/v2/server/messages/with_template/batch"@, self.key(), seq![],
                Some(JsonV::Array(requests@.map_values(|q: SendTemplateRequest| q.json())))),
    {
        let mut items: Vec<Json> = Vec::new();
        let mut i: usize = 0;
        while i < requests.len()
            invariant
                i <= requests@.len(),
                json_seq_view(items@) == requests@.take(i as int).map_values(
                    |q: SendTemplateRequest| q.json(),
                ),
            decreases requests@.len() - i,
        {
            push_item(&mut items, requests[i].to_json());
            assert(requests@.take(i + 1).map_values(|q: SendTemplateRequest| q.json())
                =~= requests@.take(i as int).map_values(|q: SendTemplateRequest| q.json()).push(
                requests@[i as int].json(),
            ));
            i = i + 1;
        }
        assert(requests@.take(i as int) =~= requests@);
        self.http.prepare(
            Method::Post,
            "/api/v2/server/messages/with_template/batch".to_owned(),
            no_params(),
            Some(Json::Array(items)),
            self.idempotency_key,
        )
    }

    /// Fetch one message with its delivery attempts
    /// (`GET /api/v2/server/messages/{id}`).
    pub fn get_request(&self, id: i64) -> (r: PreparedRequest)
        ensures
            self.http.sends(r, Method::Get, "/api/v2/server/messages/"@ + signed_decimal(id as int), None, seq![], None),
    {
        self.http.prepare(Method::Get, id_segment("/api/v2/server/messages/", id), no_params(), None, None)
    }

    /// List messages, filtered and paginated
    /// (`GET /api/v2/server/messages`).
    pub fn list_request(&self, params: &ListMessagesParams) -> (r: PreparedRequest)
        ensures
            self.http.sends(r, Method::Get, "/api/v2/server/messages"@, None, params.query_params(), None),
    {
        self.http.prepare(
            Method::Get,
            "/api/v2/server/messages".to_owned(),
            params.to_query(),
            None,
            None,
        )
    }

    /// Delivery attempts of a message
    /// (`GET /api/v2/server/messages/{id}/deliveries`).
    pub fn deliveries_request(&self, id: i64) -> (r: PreparedRequest)
        ensures
            self.http.sends(r, Method::Get, "/api/v2/server/messages/"@ + signed_decimal(id as int) + "/deliveries"@, None, seq![], None),
    {
        self.http.prepare(Method::Get, id_path("/api/v2/server/messages/", id, "/deliveries"), no_params(), None, None)
    }

    /// Open events of a message
    /// (`GET /api/v2/server/messages/{id}/opens`).
    pub fn opens_request(&self, id: i64) -> (r: PreparedRequest)
        ensures
            self.http.sends(r, Method::Get, "/api/v2/server/messages/"@ + signed_decimal(id as int) + "/opens"@, None, seq![], None),
    {
        self.http.prepare(Method::Get, id_path("/api/v2/server/messages/", id, "/opens"), no_params(), None, None)
    }

    /// Click events of a message
    /// (`GET /api/v2/server/messages/{id}/clicks`).
    pub fn clicks_request(&self, id: i64) -> (r: PreparedRequest)
        ensures
            self.http.sends(r, Method::Get, "/api/v2/server/messages/"@ + signed_decimal(id as int) + "/clicks"@, None, seq![], None),
    {
        self.http.prepare(Method::Get, id_path("/api/v2/server/messages/", id, "/clicks"), no_params(), None, None)
    }

    /// Raw RFC 5322 source of a message, base64-encoded
    /// (`GET /api/v2/server/messages/{id}/raw`).
    pub fn raw_request(&self, id: i64) -> (r: PreparedRequest)
        ensures
            self.http.sends(r, Method::Get, "/api/v2/server/messages/"@ + signed_decimal(id as int) + "/raw"@, None, seq![], None),
    {
        self.http.prepare(Method::Get, id_path("/api/v2/server/messages/", id, "/raw"), no_params(), None, None)
    }
}

// --------------------------------------------------------------- requests

/// A message to send. Build with [`SendEmailRequest::builder`].
#[derive(Debug, Clone)]
pub struct SendEmailRequest {
    /// Sender address; its domain must be a verified sending domain.
    pub from: Option<Address>,
    /// Recipients.
    pub to: Vec<Address>,
    /// CC recipients.
    pub cc: Vec<Address>,
    /// BCC recipients.
    pub bcc: Vec<Address>,
    /// Reply-To addresses.
    pub reply_to: Vec<Address>,
    /// Subject line.
    pub subject: Option<String>,
    /// HTML body.
    pub html_body: Option<String>,
    /// Plain-text body.
    pub text_body: Option<String>,
    /// Extra message headers.
    pub headers: Headers,
    /// File attachments.
    pub attachments: Vec<Attachment>,
    /// Free-form tag for filtering and stats.
    pub tag: Option<String>,
    /// Arbitrary JSON metadata stored with the message.
    pub metadata: Option<serde_json::Value>,
    /// Message-stream permalink (defaults to the server's default stream).
    pub stream: Option<String>,
}

/// The JSON of an optional address.
pub open spec fn opt_address(a: Option<Address>) -> Option<JsonV> {
    match a {
        Some(a) => Some(a@.json()),
        None => None,
    }
}

/// The `headers` member: present when there is at least one header.
pub open spec fn headers_member(h: Headers) -> Seq<(Seq<char>, JsonV)> {
    if h.entries().len() == 0 {
        seq![]
    } else {
        seq![
            ("headers"@, JsonV::Object(
                h.entries().map_values(|e: (Seq<char>, Seq<char>)| (e.0, JsonV::Str(e.1))),
            )),
        ]
    }
}

impl SendEmailRequest {
    /// The members this message sends: only the fields that are set,
    /// empty lists and no headers being left out.
    pub open spec fn members(self) -> Seq<(Seq<char>, JsonV)> {
        self.address_members() + self.content_members()
    }

    /// The sender and recipient members.
    pub open spec fn address_members(self) -> Seq<(Seq<char>, JsonV)> {
        opt_member("from"@, opt_address(self.from))
            + list_member("to"@, addresses_json(self.to@))
            + list_member("cc"@, addresses_json(self.cc@))
            + list_member("bcc"@, addresses_json(self.bcc@))
            + list_member("reply_to"@, addresses_json(self.reply_to@))
    }

    /// The content members, after the addresses.
    pub open spec fn content_members(self) -> Seq<(Seq<char>, JsonV)> {
        opt_member("subject"@, opt_str(self.subject))
            + opt_member("html_body"@, opt_str(self.html_body))
            + opt_member("text_body"@, opt_str(self.text_body))
            + headers_member(self.headers)
            + list_member("attachments"@, attachments_json(self.attachments@))
            + opt_member("tag"@, opt_str(self.tag))
            + opt_member("metadata"@, opt_raw(self.metadata))
            + opt_member("stream"@, opt_str(self.stream))
    }

    /// The JSON body of this message.
    pub open spec fn json(self) -> JsonV {
        JsonV::Object(self.members())
    }

    /// An empty message: no sender, no recipients, nothing set.
    pub open spec fn is_empty_request(self) -> bool {
        &&& self.from is None
        &&& self.to@.len() == 0
        &&& self.cc@.len() == 0
        &&& self.bcc@.len() == 0
        &&& self.reply_to@.len() == 0
        &&& self.subject is None
        &&& self.html_body is None
        &&& self.text_body is None
        &&& self.headers.entries().len() == 0
        &&& self.attachments@.len() == 0
        &&& self.tag is None
        &&& self.metadata is None
        &&& self.stream is None
    }

    fn empty() -> (r: SendEmailRequest)
        ensures
            r.is_empty_request(),
    {
        SendEmailRequest {
            from: None,
            to: Vec::new(),
            cc: Vec::new(),
            bcc: Vec::new(),
            reply_to: Vec::new(),
            subject: None,
            html_body: None,
            text_body: None,
            headers: Headers::new(),
            attachments: Vec::new(),
            tag: None,
            metadata: None,
            stream: None,
        }
    }

    /// Start building a send request.
    pub fn builder() -> (b: SendEmailRequestBuilder)
        ensures
            b.spec_request().is_empty_request(),
    {
        SendEmailRequestBuilder { request: SendEmailRequest::empty() }
    }

    fn push_address_members(&self, members: &mut Vec<(String, Json)>)
        ensures
            json_members_view(final(members)@) == json_members_view(old(members)@)
                + self.address_members(),
    {
        let from = match &self.from {
            Some(a) => Some(a.to_json()),
            None => None,
        };
        match from {
            Some(j) => {
                push_member(members, "from", j);
            },
            None => {},
        }
        let ghost m0 = json_members_view(members@);
        assert(m0 =~= json_members_view(old(members)@) + opt_member("from"@, opt_address(self.from)));
        push_list(members, "to", addresses_to_json(&self.to));
        push_list(members, "cc", addresses_to_json(&self.cc));
        push_list(members, "bcc", addresses_to_json(&self.bcc));
        push_list(members, "reply_to", addresses_to_json(&self.reply_to));
        assert(json_members_view(members@) =~= json_members_view(old(members)@)
            + self.address_members());
    }

    /// Every optional content field that is set is sent as its own
    /// member after whatever came before, whatever the other fields
    /// hold: the plain-text part is never dropped for the HTML part, nor
    /// the other way round.
    pub proof fn lemma_content_fields_sent(self, before: Seq<(Seq<char>, JsonV)>)
        ensures
            self.subject matches Some(v) ==> (before + self.content_members()).contains(
                ("subject"@, JsonV::Str(v@)),
            ),
            self.html_body matches Some(v) ==> (before + self.content_members()).contains(
                ("html_body"@, JsonV::Str(v@)),
            ),
            self.text_body matches Some(v) ==> (before + self.content_members()).contains(
                ("text_body"@, JsonV::Str(v@)),
            ),
            self.tag matches Some(v) ==> (before + self.content_members()).contains(
                ("tag"@, JsonV::Str(v@)),
            ),
            self.metadata matches Some(v) ==> (before + self.content_members()).contains(
                ("metadata"@, JsonV::Raw(v)),
            ),
            self.stream matches Some(v) ==> (before + self.content_members()).contains(
                ("stream"@, JsonV::Str(v@)),
            ),
    {
        let s = opt_member("subject"@, opt_str(self.subject));
        let h = opt_member("html_body"@, opt_str(self.html_body));
        let t = opt_member("text_body"@, opt_str(self.text_body));
        let hd = headers_member(self.headers);
        let at = list_member("attachments"@, attachments_json(self.attachments@));
        let tg = opt_member("tag"@, opt_str(self.tag));
        let md = opt_member("metadata"@, opt_raw(self.metadata));
        let st = opt_member("stream"@, opt_str(self.stream));
        let c = self.content_members();
        // Whatever is in the first k parts is in the whole.
        let p1 = s;
        let p2 = p1 + h;
        let p3 = p2 + t;
        let p4 = p3 + hd;
        let p5 = p4 + at;
        let p6 = p5 + tg;
        let p7 = p6 + md;
        assert(c == p7 + st);
        assert forall|x: (Seq<char>, JsonV)| #![trigger (before + c).contains(x)] p1.contains(x) || h.contains(x) || t.contains(x)
            || tg.contains(x) || md.contains(x) || st.contains(x) implies (before + c).contains(x) by {
            lemma_concat_contains(p1, h, x);
            lemma_concat_contains(p2, t, x);
            lemma_concat_contains(p3, hd, x);
            lemma_concat_contains(p4, at, x);
            lemma_concat_contains(p5, tg, x);
            lemma_concat_contains(p6, md, x);
            lemma_concat_contains(p7, st, x);
            lemma_concat_contains(before, c, x);
        }
        if self.subject is Some {
            let x = s[0];
            assert(s.contains(x));
            assert((before + c).contains(x));
        }
        if self.html_body is Some {
            let x = h[0];
            assert(h.contains(x));
            assert((before + c).contains(x));
        }
        if self.text_body is Some {
            let x = t[0];
            assert(t.contains(x));
            assert((before + c).contains(x));
        }
        if self.tag is Some {
            let x = tg[0];
            assert(tg.contains(x));
            assert((before + c).contains(x));
        }
        if self.metadata is Some {
            let x = md[0];
            assert(md.contains(x));
            assert((before + c).contains(x));
        }
        if self.stream is Some {
            let x = st[0];
            assert(st.contains(x));
            assert((before + c).contains(x));
        }
    }

    /// Every field of a message that is set is sent as its own member of
    /// the body, whatever the other fields hold.
    pub proof fn lemma_set_fields_are_sent(self)
        ensures
            self.from matches Some(a) ==> object_members(self.json()).contains(("from"@, a@.json())),
            self.subject matches Some(v) ==> object_members(self.json()).contains(
                ("subject"@, JsonV::Str(v@)),
            ),
            self.html_body matches Some(v) ==> object_members(self.json()).contains(
                ("html_body"@, JsonV::Str(v@)),
            ),
            self.text_body matches Some(v) ==> object_members(self.json()).contains(
                ("text_body"@, JsonV::Str(v@)),
            ),
            self.tag matches Some(v) ==> object_members(self.json()).contains(
                ("tag"@, JsonV::Str(v@)),
            ),
            self.metadata matches Some(v) ==> object_members(self.json()).contains(
                ("metadata"@, JsonV::Raw(v)),
            ),
            self.stream matches Some(v) ==> object_members(self.json()).contains(
                ("stream"@, JsonV::Str(v@)),
            ),
    {
        self.lemma_content_fields_sent(self.address_members());
        let f = opt_member("from"@, opt_address(self.from));
        let rest = list_member("to"@, addresses_json(self.to@)) + list_member(
            "cc"@,
            addresses_json(self.cc@),
        ) + list_member("bcc"@, addresses_json(self.bcc@)) + list_member(
            "reply_to"@,
            addresses_json(self.reply_to@),
        ) + self.content_members();
        if self.from is Some {
            assert(object_members(self.json()) =~= Seq::<(Seq<char>, JsonV)>::empty() + f + rest);
            lemma_item_between(Seq::<(Seq<char>, JsonV)>::empty(), f[0], rest);
        }
    }

    fn push_content_members(&self, members: &mut Vec<(String, Json)>)
        ensures
            json_members_view(final(members)@) == json_members_view(old(members)@)
                + self.content_members(),
    {
        push_opt_str(members, "subject", &self.subject);
        push_opt_str(members, "html_body", &self.html_body);
        push_opt_str(members, "text_body", &self.text_body);
        let ghost m1 = json_members_view(members@);
        if !self.headers.is_empty() {
            push_member(members, "headers", self.headers.to_json());
        }
        assert(json_members_view(members@) =~= m1 + headers_member(self.headers));
        let ghost m2 = json_members_view(members@);
        push_list(members, "attachments", attachments_to_json(&self.attachments));
        push_opt_str(members, "tag", &self.tag);
        push_opt_raw(members, "metadata", &self.metadata);
        push_opt_str(members, "stream", &self.stream);
        assert(json_members_view(members@) =~= m2 + list_member(
            "attachments"@,
            attachments_json(self.attachments@),
        ) + opt_member("tag"@, opt_str(self.tag)) + opt_member("metadata"@, opt_raw(self.metadata))
            + opt_member("stream"@, opt_str(self.stream)));
        assert(json_members_view(members@) =~= json_members_view(old(members)@)
            + self.content_members());
    }

    /// Append this message's members to an object under construction.
    pub fn push_members(&self, members: &mut Vec<(String, Json)>)
        ensures
            json_members_view(final(members)@) == json_members_view(old(members)@) + self.members(),
    {
        self.push_address_members(members);
        self.push_content_members(members);
        assert(json_members_view(members@) =~= json_members_view(old(members)@) + self.members());
    }

    /// The JSON body of this message.
    pub fn to_json(&self) -> (j: Json)
        ensures
            j@ == self.json(),
            self.from matches Some(a) ==> object_members(j@).contains(("from"@, a@.json())),
            self.subject matches Some(v) ==> object_members(j@).contains(
                ("subject"@, JsonV::Str(v@)),
            ),
            self.tag matches Some(v) ==> object_members(j@).contains(("tag"@, JsonV::Str(v@))),
            self.metadata matches Some(v) ==> object_members(j@).contains(
                ("metadata"@, JsonV::Raw(v)),
            ),
            self.stream matches Some(v) ==> object_members(j@).contains(
                ("stream"@, JsonV::Str(v@)),
            ),
            self.html_body matches Some(v) ==> object_members(j@).contains(
                ("html_body"@, JsonV::Str(v@)),
            ),
            self.text_body matches Some(v) ==> object_members(j@).contains(
                ("text_body"@, JsonV::Str(v@)),
            ),
    {
        proof {
            self.lemma_set_fields_are_sent();
        }
        let mut members: Vec<(String, Json)> = Vec::new();
        self.push_members(&mut members);
        assert(json_members_view(members@) =~= self.members());
        Json::Object(members)
    }
}

/// Builder for [`SendEmailRequest`].
#[derive(Debug, Clone)]
pub struct SendEmailRequestBuilder {
    request: SendEmailRequest,
}

impl SendEmailRequestBuilder {
    /// The message built so far.
    pub closed spec fn spec_request(self) -> SendEmailRequest {
        self.request
    }

    /// Sender address (`"a@b.com"`, `("a@b.com", "Name")` or an
    /// [`Address`]).
    pub fn from<A: IntoAddress>(self, address: A) -> (b: SendEmailRequestBuilder)
        ensures
            b.spec_request().from matches Some(a) && a@ == address.address_view(),
            b.spec_request() == (SendEmailRequest { from: b.spec_request().from, ..self.spec_request() }),
    {
        let mut request = self.request;
        request.from = Some(address.into_address());
        SendEmailRequestBuilder { request }
    }

    /// Add a recipient; call repeatedly for multiple recipients.
    pub fn to<A: IntoAddress>(self, address: A) -> (b: SendEmailRequestBuilder)
        ensures
            addresses_view(b.spec_request().to@) == addresses_view(self.spec_request().to@).push(address.address_view()),
            b.spec_request() == (SendEmailRequest { to: b.spec_request().to, ..self.spec_request() }),
    {
        let mut request = self.request;
        request.to.push(address.into_address());
        assert(addresses_view(request.to@) =~= addresses_view(self.request.to@).push(address.address_view()));
        SendEmailRequestBuilder { request }
    }

    /// Add a CC recipient.
    pub fn cc<A: IntoAddress>(self, address: A) -> (b: SendEmailRequestBuilder)
        ensures
            addresses_view(b.spec_request().cc@) == addresses_view(self.spec_request().cc@).push(address.address_view()),
            b.spec_request() == (SendEmailRequest { cc: b.spec_request().cc, ..self.spec_request() }),
    {
        let mut request = self.request;
        request.cc.push(address.into_address());
        assert(addresses_view(request.cc@) =~= addresses_view(self.request.cc@).push(address.address_view()));
        SendEmailRequestBuilder { request }
    }

    /// Add a BCC recipient.
    pub fn bcc<A: IntoAddress>(self, address: A) -> (b: SendEmailRequestBuilder)
        ensures
            addresses_view(b.spec_request().bcc@) == addresses_view(self.spec_request().bcc@).push(address.address_view()),
            b.spec_request() == (SendEmailRequest { bcc: b.spec_request().bcc, ..self.spec_request() }),
    {
        let mut request = self.request;
        request.bcc.push(address.into_address());
        assert(addresses_view(request.bcc@) =~= addresses_view(self.request.bcc@).push(address.address_view()));
        SendEmailRequestBuilder { request }
    }

    /// Add a Reply-To address.
    pub fn reply_to<A: IntoAddress>(self, address: A) -> (b: SendEmailRequestBuilder)
        ensures
            addresses_view(b.spec_request().reply_to@) == addresses_view(self.spec_request().reply_to@).push(address.address_view()),
            b.spec_request() == (SendEmailRequest { reply_to: b.spec_request().reply_to, ..self.spec_request() }),
    {
        let mut request = self.request;
        request.reply_to.push(address.into_address());
        assert(addresses_view(request.reply_to@) =~= addresses_view(self.request.reply_to@).push(address.address_view()));
        SendEmailRequestBuilder { request }
    }

    /// Subject line.
    pub fn subject(self, subject: &str) -> (b: SendEmailRequestBuilder)
        ensures
            is_text(b.spec_request().subject, subject@),
            b.spec_request() == (SendEmailRequest { subject: b.spec_request().subject, ..self.spec_request() }),
    {
        let mut request = self.request;
        request.subject = Some(subject.to_owned());
        SendEmailRequestBuilder { request }
    }

    /// HTML body.
    pub fn html_body(self, html: &str) -> (b: SendEmailRequestBuilder)
        ensures
            is_text(b.spec_request().html_body, html@),
            b.spec_request() == (SendEmailRequest { html_body: b.spec_request().html_body, ..self.spec_request() }),
    {
        let mut request = self.request;
        request.html_body = Some(html.to_owned());
        SendEmailRequestBuilder { request }
    }

    /// Plain-text body.
    pub fn text_body(self, text: &str) -> (b: SendEmailRequestBuilder)
        ensures
            is_text(b.spec_request().text_body, text@),
            b.spec_request() == (SendEmailRequest { text_body: b.spec_request().text_body, ..self.spec_request() }),
    {
        let mut request = self.request;
        request.text_body = Some(text.to_owned());
        SendEmailRequestBuilder { request }
    }

    /// Set one extra message header; setting a name again replaces its
    /// value.
    pub fn header(self, name: &str, value: &str) -> (b: SendEmailRequestBuilder)
        ensures
            b.spec_request().headers.entries() == set_entry(self.spec_request().headers.entries(), name@, value@),
            sorted_names(b.spec_request().headers.entries()),
            b.spec_request() == (SendEmailRequest { headers: b.spec_request().headers, ..self.spec_request() }),
    {
        let mut request = self.request;
        request.headers.insert(name, value);
        SendEmailRequestBuilder { request }
    }

    /// Attach a file.
    pub fn attachment(self, attachment: Attachment) -> (b: SendEmailRequestBuilder)
        ensures
            b.spec_request().attachments@ == self.spec_request().attachments@.push(attachment),
            b.spec_request() == (SendEmailRequest { attachments: b.spec_request().attachments, ..self.spec_request() }),
    {
        let mut request = self.request;
        request.attachments.push(attachment);
        SendEmailRequestBuilder { request }
    }

    /// Free-form tag for filtering and stats.
    pub fn tag(self, tag: &str) -> (b: SendEmailRequestBuilder)
        ensures
            is_text(b.spec_request().tag, tag@),
            b.spec_request() == (SendEmailRequest { tag: b.spec_request().tag, ..self.spec_request() }),
    {
        let mut request = self.request;
        request.tag = Some(tag.to_owned());
        SendEmailRequestBuilder { request }
    }

    /// Arbitrary JSON metadata stored with the message.
    pub fn metadata(self, metadata: serde_json::Value) -> (b: SendEmailRequestBuilder)
        ensures
            b.spec_request().metadata == Some(metadata),
            b.spec_request() == (SendEmailRequest { metadata: b.spec_request().metadata, ..self.spec_request() }),
    {
        let mut request = self.request;
        request.metadata = Some(metadata);
        SendEmailRequestBuilder { request }
    }

    /// Message-stream permalink.
    pub fn stream(self, stream: &str) -> (b: SendEmailRequestBuilder)
        ensures
            is_text(b.spec_request().stream, stream@),
            b.spec_request() == (SendEmailRequest { stream: b.spec_request().stream, ..self.spec_request() }),
    {
        let mut request = self.request;
        request.stream = Some(stream.to_owned());
        SendEmailRequestBuilder { request }
    }

    /// Finish building.
    pub fn build(self) -> (r: SendEmailRequest)
        ensures
            r == self.spec_request(),
    {
        self.request
    }
}


/// A templated message to send. Build with [`SendTemplateRequest::builder`].
#[derive(Debug, Clone)]
pub struct SendTemplateRequest {
    /// Template permalink.
    pub template: String,
    /// Variables the template is rendered against.
    pub template_model: Option<serde_json::Value>,
    /// The message fields (sent flattened next to the template).
    pub message: SendEmailRequest,
}

impl SendTemplateRequest {
    /// The JSON body: `template`, `template_model` when given, then the
    /// message's own members at the same level.
    pub open spec fn json(self) -> JsonV {
        JsonV::Object(
            seq![("template"@, JsonV::Str(self.template@))] + opt_member(
                "template_model"@,
                opt_raw(self.template_model),
            ) + self.message.members(),
        )
    }

    /// Start building a templated send request for `template`
    /// (a template permalink).
    pub fn builder(template: &str) -> (b: SendTemplateRequestBuilder)
        ensures
            b.spec_template() == template@,
            b.spec_model() is None,
            b.spec_message().is_empty_request(),
    {
        SendTemplateRequestBuilder {
            template: template.to_owned(),
            template_model: None,
            message: SendEmailRequest::builder(),
        }
    }

    /// The JSON body of this request.
    pub fn to_json(&self) -> (j: Json)
        ensures
            j@ == self.json(),
    {
        let mut members: Vec<(String, Json)> = Vec::new();
        push_member(&mut members, "template", Json::Str(self.template.clone()));
        push_opt_raw(&mut members, "template_model", &self.template_model);
        self.message.push_members(&mut members);
        assert(json_members_view(members@) =~= seq![("template"@, JsonV::Str(self.template@))]
            + opt_member("template_model"@, opt_raw(self.template_model)) + self.message.members());
        Json::Object(members)
    }
}

/// Builder for [`SendTemplateRequest`].
#[derive(Debug, Clone)]
pub struct SendTemplateRequestBuilder {
    template: String,
    template_model: Option<serde_json::Value>,
    message: SendEmailRequestBuilder,
}

impl SendTemplateRequestBuilder {
    /// The template permalink.
    pub closed spec fn spec_template(self) -> Seq<char> {
        self.template@
    }

    /// The model, if set.
    pub closed spec fn spec_model(self) -> Option<serde_json::Value> {
        self.template_model
    }

    /// The message fields so far.
    pub closed spec fn spec_message(self) -> SendEmailRequest {
        self.message.spec_request()
    }

    /// Variables the template is rendered against.
    pub fn model(self, model: serde_json::Value) -> (b: SendTemplateRequestBuilder)
        ensures
            b.spec_model() == Some(model),
            b.spec_template() == self.spec_template(),
            b.spec_message() == self.spec_message(),
    {
        SendTemplateRequestBuilder { template_model: Some(model), ..self }
    }

    /// Sender address.
    pub fn from<A: IntoAddress>(self, address: A) -> (b: SendTemplateRequestBuilder)
        ensures
            b.spec_message().from matches Some(a) && a@ == address.address_view(),
            b.spec_message() == (SendEmailRequest { from: b.spec_message().from, ..self.spec_message() }),
            b.spec_template() == self.spec_template(),
            b.spec_model() == self.spec_model(),
    {
        SendTemplateRequestBuilder { message: self.message.from(address), ..self }
    }

    /// Add a recipient.
    pub fn to<A: IntoAddress>(self, address: A) -> (b: SendTemplateRequestBuilder)
        ensures
            addresses_view(b.spec_message().to@) == addresses_view(self.spec_message().to@).push(address.address_view()),
            b.spec_message() == (SendEmailRequest { to: b.spec_message().to, ..self.spec_message() }),
            b.spec_template() == self.spec_template(),
            b.spec_model() == self.spec_model(),
    {
        SendTemplateRequestBuilder { message: self.message.to(address), ..self }
    }

    /// Add a CC recipient.
    pub fn cc<A: IntoAddress>(self, address: A) -> (b: SendTemplateRequestBuilder)
        ensures
            addresses_view(b.spec_message().cc@) == addresses_view(self.spec_message().cc@).push(address.address_view()),
            b.spec_message() == (SendEmailRequest { cc: b.spec_message().cc, ..self.spec_message() }),
            b.spec_template() == self.spec_template(),
            b.spec_model() == self.spec_model(),
    {
        SendTemplateRequestBuilder { message: self.message.cc(address), ..self }
    }

    /// Add a BCC recipient.
    pub fn bcc<A: IntoAddress>(self, address: A) -> (b: SendTemplateRequestBuilder)
        ensures
            addresses_view(b.spec_message().bcc@) == addresses_view(self.spec_message().bcc@).push(address.address_view()),
            b.spec_message() == (SendEmailRequest { bcc: b.spec_message().bcc, ..self.spec_message() }),
            b.spec_template() == self.spec_template(),
            b.spec_model() == self.spec_model(),
    {
        SendTemplateRequestBuilder { message: self.message.bcc(address), ..self }
    }

    /// Override the rendered subject.
    pub fn subject(self, subject: &str) -> (b: SendTemplateRequestBuilder)
        ensures
            is_text(b.spec_message().subject, subject@),
            b.spec_message() == (SendEmailRequest { subject: b.spec_message().subject, ..self.spec_message() }),
            b.spec_template() == self.spec_template(),
            b.spec_model() == self.spec_model(),
    {
        SendTemplateRequestBuilder { message: self.message.subject(subject), ..self }
    }

    /// Free-form tag for filtering and stats.
    pub fn tag(self, tag: &str) -> (b: SendTemplateRequestBuilder)
        ensures
            is_text(b.spec_message().tag, tag@),
            b.spec_message() == (SendEmailRequest { tag: b.spec_message().tag, ..self.spec_message() }),
            b.spec_template() == self.spec_template(),
            b.spec_model() == self.spec_model(),
    {
        SendTemplateRequestBuilder { message: self.message.tag(tag), ..self }
    }

    /// Arbitrary JSON metadata stored with the message.
    pub fn metadata(self, metadata: serde_json::Value) -> (b: SendTemplateRequestBuilder)
        ensures
            b.spec_message().metadata == Some(metadata),
            b.spec_message() == (SendEmailRequest { metadata: b.spec_message().metadata, ..self.spec_message() }),
            b.spec_template() == self.spec_template(),
            b.spec_model() == self.spec_model(),
    {
        SendTemplateRequestBuilder { message: self.message.metadata(metadata), ..self }
    }

    /// Message-stream permalink.
    pub fn stream(self, stream: &str) -> (b: SendTemplateRequestBuilder)
        ensures
            is_text(b.spec_message().stream, stream@),
            b.spec_message() == (SendEmailRequest { stream: b.spec_message().stream, ..self.spec_message() }),
            b.spec_template() == self.spec_template(),
            b.spec_model() == self.spec_model(),
    {
        SendTemplateRequestBuilder { message: self.message.stream(stream), ..self }
    }

    /// Finish building.
    pub fn build(self) -> (r: SendTemplateRequest)
        ensures
            r.template@ == self.spec_template(),
            r.template_model == self.spec_model(),
            r.message == self.spec_message(),
    {
        SendTemplateRequest {
            template: self.template,
            template_model: self.template_model,
            message: self.message.build(),
        }
    }
}

/// Filters for listing messages. All fields are optional.
#[derive(Debug, Clone)]
pub struct ListMessagesParams {
    /// Page number (1-based).
    pub page: Option<u64>,
    /// Entries per page (max 100).
    pub per_page: Option<u64>,
    /// `incoming` or `outgoing`.
    pub scope: Option<String>,
    /// Message status, e.g. `Sent`.
    pub status: Option<String>,
    /// Filter by tag.
    pub tag: Option<String>,
    /// Substring match on subject / addresses.
    pub query: Option<String>,
    /// Restrict to one message stream (by permalink).
    pub stream: Option<String>,
}

impl ListMessagesParams {
    /// The query parameters: the set filters, in field order.
    pub open spec fn query_params(self) -> Seq<(Seq<char>, Seq<char>)> {
        opt_param("page"@, opt_number(self.page)) + opt_param("per_page"@, opt_number(self.per_page))
            + opt_param("scope"@, opt_text(self.scope)) + opt_param("status"@, opt_text(self.status))
            + opt_param("tag"@, opt_text(self.tag)) + opt_param("query"@, opt_text(self.query))
            + opt_param("stream"@, opt_text(self.stream))
    }

    /// No filters: first page, server defaults.
    pub fn new() -> (p: ListMessagesParams)
        ensures
            p.page is None && p.per_page is None && p.scope is None && p.status is None
                && p.tag is None && p.query is None && p.stream is None,
    {
        ListMessagesParams {
            page: None,
            per_page: None,
            scope: None,
            status: None,
            tag: None,
            query: None,
            stream: None,
        }
    }

    /// Page number (1-based).
    pub fn page(self, page: u64) -> (p: ListMessagesParams)
        ensures
            p == (ListMessagesParams { page: Some(page), ..self }),
    {
        ListMessagesParams { page: Some(page), ..self }
    }

    /// Entries per page (max 100).
    pub fn per_page(self, per_page: u64) -> (p: ListMessagesParams)
        ensures
            p == (ListMessagesParams { per_page: Some(per_page), ..self }),
    {
        ListMessagesParams { per_page: Some(per_page), ..self }
    }

    /// `incoming` or `outgoing`.
    pub fn scope(self, scope: &str) -> (p: ListMessagesParams)
        ensures
            is_text(p.scope, scope@),
            p == (ListMessagesParams { scope: p.scope, ..self }),
    {
        ListMessagesParams { scope: Some(scope.to_owned()), ..self }
    }

    /// Message status, e.g. `Sent`.
    pub fn status(self, status: &str) -> (p: ListMessagesParams)
        ensures
            is_text(p.status, status@),
            p == (ListMessagesParams { status: p.status, ..self }),
    {
        ListMessagesParams { status: Some(status.to_owned()), ..self }
    }

    /// Filter by tag.
    pub fn tag(self, tag: &str) -> (p: ListMessagesParams)
        ensures
            is_text(p.tag, tag@),
            p == (ListMessagesParams { tag: p.tag, ..self }),
    {
        ListMessagesParams { tag: Some(tag.to_owned()), ..self }
    }

    /// Substring match on subject / addresses.
    pub fn query(self, query: &str) -> (p: ListMessagesParams)
        ensures
            is_text(p.query, query@),
            p == (ListMessagesParams { query: p.query, ..self }),
    {
        ListMessagesParams { query: Some(query.to_owned()), ..self }
    }

    /// Restrict to one message stream (by permalink).
    pub fn stream(self, stream: &str) -> (p: ListMessagesParams)
        ensures
            is_text(p.stream, stream@),
            p == (ListMessagesParams { stream: p.stream, ..self }),
    {
        ListMessagesParams { stream: Some(stream.to_owned()), ..self }
    }

    /// The query parameters to send.
    pub fn to_query(&self) -> (q: Vec<(String, String)>)
        ensures
            pairs_view(q@) == self.query_params(),
    {
        let mut q: Vec<(String, String)> = Vec::new();
        push_number_param(&mut q, "page", self.page);
        push_number_param(&mut q, "per_page", self.per_page);
        push_text_param(&mut q, "scope", &self.scope);
        push_text_param(&mut q, "status", &self.status);
        push_text_param(&mut q, "tag", &self.tag);
        push_text_param(&mut q, "query", &self.query);
        push_text_param(&mut q, "stream", &self.stream);
        assert(pairs_view(q@) =~= self.query_params());
        q
    }
}

/// Fields for a broadcast to a stream's subscribers.
///
/// Give either a subject with a body, or a template permalink with an
/// optional model.
#[derive(Debug, Clone)]
pub struct SendToStreamRequest {
    /// Sender address.
    pub from: String,
    /// Message subject.
    pub subject: Option<String>,
    /// HTML part.
    pub html_body: Option<String>,
    /// Plain-text part.
    pub text_body: Option<String>,
    /// Permalink of a stored template to render instead of the bodies.
    pub template: Option<String>,
    /// Values for the template's `{{ variables }}`.
    pub template_model: Option<serde_json::Value>,
}

impl SendToStreamRequest {
    /// The JSON body: `from`, then the set fields.
    pub open spec fn json(self) -> JsonV {
        JsonV::Object(
            seq![("from"@, JsonV::Str(self.from@))] + opt_member("subject"@, opt_str(self.subject))
                + opt_member("html_body"@, opt_str(self.html_body)) + opt_member(
                "text_body"@,
                opt_str(self.text_body),
            ) + opt_member("template"@, opt_str(self.template)) + opt_member(
                "template_model"@,
                opt_raw(self.template_model),
            ),
        )
    }

    /// A broadcast from the given address.
    pub fn new(from: &str) -> (r: SendToStreamRequest)
        ensures
            r.from@ == from@,
            r.subject is None && r.html_body is None && r.text_body is None && r.template is None
                && r.template_model is None,
    {
        SendToStreamRequest {
            from: from.to_owned(),
            subject: None,
            html_body: None,
            text_body: None,
            template: None,
            template_model: None,
        }
    }

    /// Message subject.
    pub fn subject(self, subject: &str) -> (r: SendToStreamRequest)
        ensures
            is_text(r.subject, subject@),
            r == (SendToStreamRequest { subject: r.subject, ..self }),
    {
        SendToStreamRequest { subject: Some(subject.to_owned()), ..self }
    }

    /// HTML part.
    pub fn html_body(self, html_body: &str) -> (r: SendToStreamRequest)
        ensures
            is_text(r.html_body, html_body@),
            r == (SendToStreamRequest { html_body: r.html_body, ..self }),
    {
        SendToStreamRequest { html_body: Some(html_body.to_owned()), ..self }
    }

    /// Plain-text part.
    pub fn text_body(self, text_body: &str) -> (r: SendToStreamRequest)
        ensures
            is_text(r.text_body, text_body@),
            r == (SendToStreamRequest { text_body: r.text_body, ..self }),
    {
        SendToStreamRequest { text_body: Some(text_body.to_owned()), ..self }
    }

    /// Render a stored template instead of the bodies above.
    pub fn template(self, permalink: &str) -> (r: SendToStreamRequest)
        ensures
            is_text(r.template, permalink@),
            r == (SendToStreamRequest { template: r.template, ..self }),
    {
        SendToStreamRequest { template: Some(permalink.to_owned()), ..self }
    }

    /// Values for the template's `{{ variables }}`.
    pub fn template_model(self, model: serde_json::Value) -> (r: SendToStreamRequest)
        ensures
            r == (SendToStreamRequest { template_model: Some(model), ..self }),
    {
        SendToStreamRequest { template_model: Some(model), ..self }
    }

    /// The JSON body of this broadcast.
    pub fn to_json(&self) -> (j: Json)
        ensures
            j@ == self.json(),
    {
        let mut members: Vec<(String, Json)> = Vec::new();
        push_member(&mut members, "from", Json::Str(self.from.clone()));
        push_opt_str(&mut members, "subject", &self.subject);
        push_opt_str(&mut members, "html_body", &self.html_body);
        push_opt_str(&mut members, "text_body", &self.text_body);
        push_opt_str(&mut members, "template", &self.template);
        push_opt_raw(&mut members, "template_model", &self.template_model);
        assert(json_members_view(members@) =~= seq![("from"@, JsonV::Str(self.from@))]
            + opt_member("subject"@, opt_str(self.subject)) + opt_member(
            "html_body"@,
            opt_str(self.html_body),
        ) + opt_member("text_body"@, opt_str(self.text_body)) + opt_member(
            "template"@,
            opt_str(self.template),
        ) + opt_member("template_model"@, opt_raw(self.template_model)));
        Json::Object(members)
    }
}

// -------------------------------------------------------------- responses

/// How a broadcast to a stream was split.
#[derive(Debug, Clone, PartialEq, Eq)]
pub struct StreamSendResult {
    /// Recipients queued.
    pub queued: i64,
    /// Recipients past the per-request cap of 1000.
    pub skipped: i64,
}

/// Result of sending one message.
#[derive(Debug, Clone, PartialEq, Eq)]
pub struct SendResult {
    /// Id of the first queued copy (one copy is queued per recipient).
    pub message_id: Option<i64>,
    /// One entry per recipient.
    pub recipients: Vec<SendRecipient>,
}

/// Per-recipient outcome of a send.
#[derive(Debug, Clone, PartialEq, Eq)]
pub struct SendRecipient {
    /// The recipient address.
    pub rcpt_to: String,
    /// Id of the queued message copy.
    pub message_id: Option<i64>,
    /// Public token of the queued message copy.
    pub token: String,
    /// Queue status, e.g. `queued`.
    pub status: String,
}

/// One entry of a batch send response: either a queued message or a
/// per-entry error.
#[derive(Debug, Clone, PartialEq, Eq)]
pub enum BatchEntry {
    /// The entry was queued.
    Success {
        /// The send result for this entry.
        data: SendResult,
    },
    /// The entry was rejected.
    Error {
        /// The error for this entry.
        error: BatchError,
    },
}

impl BatchEntry {
    /// This entry as a `Result`, mapping per-entry errors to
    /// [`Error::Api`] (with HTTP status `0`, since the batch call
    /// itself succeeded).
    pub fn as_result(&self) -> (res: Result<&SendResult>)
        ensures
            match self {
                BatchEntry::Success { data } => res matches Ok(d) && *d == *data,
                BatchEntry::Error { error } => res matches Err(Error::Api { code, message, status })
                    && code@ == error.code@ && message@ == error.message@ && status == 0,
            },
    {
        match self {
            BatchEntry::Success { data } => Ok(data),
            BatchEntry::Error { error } => Err(
                Error::Api { code: error.code.clone(), message: error.message.clone(), status: 0 },
            ),
        }
    }

    /// `true` when this entry was queued.
    pub fn is_success(&self) -> (b: bool)
        ensures
            b <==> self is Success,
    {
        match self {
            BatchEntry::Success { .. } => true,
            BatchEntry::Error { .. } => false,
        }
    }
}

/// A per-entry error inside a batch response.
#[derive(Debug, Clone, PartialEq, Eq)]
pub struct BatchError {
    /// Stable machine-readable error code.
    pub code: String,
    /// Human-readable description.
    pub message: String,
}

/// One delivery attempt of a message.
#[derive(Debug, Clone, PartialEq, Eq)]
pub struct Delivery {
    /// Numeric delivery id.
    pub id: i64,
    /// Status, e.g. `Sent`, `SoftFail`.
    pub status: String,
    /// Short human-readable detail.
    pub details: Option<String>,
    /// Raw SMTP transcript / output.
    pub output: Option<String>,
    /// Whether TLS was used.
    pub sent_with_ssl: bool,
    /// Attempt time (RFC 3339).
    pub created_at: String,
}

/// An open or click event.
#[derive(Debug, Clone, PartialEq, Eq)]
pub struct ActivityEvent {
    /// Client IP address.
    pub ip_address: Option<String>,
    /// Client user agent.
    pub user_agent: Option<String>,
    /// Clicked URL (click events only).
    pub url: Option<String>,
    /// Event time (RFC 3339).
    pub created_at: String,
}

/// The raw RFC 5322 source of a message.
#[derive(Debug, Clone, PartialEq, Eq)]
pub struct RawMessage {
    /// Base64-encoded message source.
    pub raw_message: String,
}

impl RawMessage {
    /// Decode the base64 source into bytes.
    pub fn decode(&self) -> (res: Result<Vec<u8>>)
        ensures
            res matches Ok(bytes) ==> b64_encode(bytes@) == self.raw_message@,
            res matches Err(e) ==> e is Decode && forall|b: Seq<u8>| #[trigger] b64_encode(b) != self.raw_message@,
            res matches Err(Error::Decode(m)) ==> m@ == base64_error(self.raw_message@),
    {
        decoded(base64_decode(self.raw_message.as_str()))
    }
}

/// What a base64 decode outcome means to the library: the bytes, or a
/// [`Error::Decode`] carrying the decoder's message.
pub fn decoded(outcome: std::result::Result<Vec<u8>, String>) -> (res: Result<Vec<u8>>)
    ensures
        match outcome {
            Ok(bytes) => res matches Ok(b) && b@ == bytes@,
            Err(message) => res matches Err(Error::Decode(m)) && m@ == message@,
        },
{
    match outcome {
        Ok(bytes) => Ok(bytes),
        Err(message) => Err(Error::Decode(message)),
    }
}

} // verus!
