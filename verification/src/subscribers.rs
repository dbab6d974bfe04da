//! Opt-in subscribers of a broadcast stream
//! (`/api/v2/server/streams/{permalink}/subscribers`).

use vstd::prelude::*;
use vstd::string::StringSliceAdditionalSpecFns;

use crate::http::{no_params, Http, Method, PreparedRequest};
use crate::json::{
    is_text, json_members_view, json_seq_view, opt_member, opt_str, push_item, push_member,
    push_opt_str, Json, JsonV,
};
use crate::text::{
    all_ascii, ascii_chars, ascii_string, hex_digit, lemma_ascii_chars_push,
    lemma_percent_encode_push, percent_byte, percent_encode,
};

verus! {

/// Service for stream subscribers. Obtain via
/// [`CamelMailer::subscribers`](crate::CamelMailer::subscribers).
///
/// A broadcast send to an address that is not subscribed is refused, so
/// this list is the audience.
///
/// Each method gives the request that the call makes.
#[derive(Debug, Clone, Copy)]
pub struct Subscribers<'a> {
    /// The transport.
    pub http: &'a Http,
}

impl crate::CamelMailer {
    /// Subscribers of broadcast streams.
    pub fn subscribers(&self) -> (s: Subscribers<'_>)
        ensures
            *s.http == self.spec_http(),
    {
        Subscribers { http: self.http() }
    }
}

/// The subscriber collection path of one stream.
pub open spec fn base_path(permalink: Seq<char>) -> Seq<char> {
    "/api/v2/server/streams/"@ + permalink + "/subscribers"@
}

/// The path of one subscriber: the collection, a slash, and the escaped
/// address.
pub open spec fn subscriber_path(permalink: Seq<char>, address: Seq<u8>) -> Seq<char> {
    base_path(permalink) + "/"@ + percent_encode(address)
}

/// The body of an import: `{ "addresses": [ … ] }`, in the order given.
pub open spec fn import_body(addresses: Seq<&str>) -> JsonV {
    JsonV::Object(
        seq![("addresses"@, JsonV::Array(addresses.map_values(|a: &str| JsonV::Str(a@))))],
    )
}

impl Subscribers<'_> {
    /// The stream's subscribers, subscribed and unsubscribed alike
    /// (`GET /api/v2/server/streams/{permalink}/subscribers`).
    pub fn list_request(&self, permalink: &str) -> (r: PreparedRequest)
        ensures
            self.http.sends(r, Method::Get, base_path(permalink@), None, seq![], None),
    {
        self.http.prepare(Method::Get, base(permalink), no_params(), None, None)
    }

    /// Add or update one subscriber
    /// (`POST /api/v2/server/streams/{permalink}/subscribers`).
    ///
    /// Upserts by address, so calling it twice is safe.
    pub fn add_request(&self, permalink: &str, subscriber: &AddSubscriber) -> (r: PreparedRequest)
        ensures
            self.http.sends(
                r,
                Method::Post,
                base_path(permalink@),
                None,
                seq![],
                Some(subscriber.json()),
            ),
    {
        self.http.prepare(Method::Post, base(permalink), no_params(), Some(subscriber.to_json()), None)
    }

    /// Add many addresses at once, all as subscribed
    /// (`POST /api/v2/server/streams/{permalink}/subscribers/import`).
    ///
    /// Blanks and duplicates within the request are skipped by the
    /// server, so `added` can be lower than the number of addresses
    /// passed; every address given is sent.
    pub fn import_request(&self, permalink: &str, addresses: &[&str]) -> (r: PreparedRequest)
        ensures
            self.http.sends(
                r,
                Method::Post,
                base_path(permalink@) + "/import"@,
                None,
                seq![],
                Some(import_body(addresses@)),
            ),
    {
        let mut path = base(permalink);
        path.append("/import");
        let mut items: Vec<Json> = Vec::new();
        let mut i: usize = 0;
        while i < addresses.len()
            invariant
                i <= addresses@.len(),
                json_seq_view(items@) =~= addresses@.take(i as int).map_values(
                    |a: &str| JsonV::Str(a@),
                ),
            decreases addresses@.len() - i,
        {
            push_item(&mut items, Json::Str(addresses[i].to_owned()));
            i = i + 1;
        }
        assert(addresses@.take(i as int) =~= addresses@);
        let mut members: Vec<(String, Json)> = Vec::new();
        push_member(&mut members, "addresses", Json::Array(items));
        assert(json_members_view(members@) =~= seq![
            ("addresses"@, JsonV::Array(addresses@.map_values(|a: &str| JsonV::Str(a@)))),
        ]);
        self.http.prepare(Method::Post, path, no_params(), Some(Json::Object(members)), None)
    }

    /// Record a spam complaint against an address
    /// (`POST /api/v2/server/streams/{permalink}/subscribers/{address}/complaint`).
    ///
    /// Writes a stream-scoped suppression and flips the subscription to
    /// `unsubscribed`. Idempotent, so a feedback loop can replay it.
    pub fn complaint_request(&self, permalink: &str, address: &str) -> (r: PreparedRequest)
        ensures
            self.http.sends(
                r,
                Method::Post,
                subscriber_path(permalink@, address.spec_bytes()) + "/complaint"@,
                None,
                seq![],
                None,
            ),
    {
        let mut path = base(permalink);
        path.append("/");
        let escaped = encode(address);
        path.append(escaped.as_str());
        path.append("/complaint");
        self.http.prepare(Method::Post, path, no_params(), None, None)
    }

    /// Remove a subscriber from the stream entirely
    /// (`DELETE /api/v2/server/streams/{permalink}/subscribers/{address}`).
    pub fn remove_request(&self, permalink: &str, address: &str) -> (r: PreparedRequest)
        ensures
            self.http.sends(
                r,
                Method::Delete,
                subscriber_path(permalink@, address.spec_bytes()),
                None,
                seq![],
                None,
            ),
    {
        let mut path = base(permalink);
        path.append("/");
        let escaped = encode(address);
        path.append(escaped.as_str());
        self.http.prepare(Method::Delete, path, no_params(), None, None)
    }
}

/// The subscriber collection path of one stream.
pub fn base(permalink: &str) -> (s: String)
    ensures
        s@ == base_path(permalink@),
{
    let mut s = "/api/v2/server/streams/".to_owned();
    s.append(permalink);
    s.append("/subscribers");
    s
}

/// The ASCII code of the upper-case hexadecimal digit of `d`.
fn hex_digit_byte(d: u8) -> (c: u8)
    requires
        d < 16,
    ensures
        c < 128,
        c as char == hex_digit(d as int),
{
    if d < 10 {
        48 + d
    } else {
        55 + d
    }
}

/// Percent-encode an address for one path segment: every UTF-8 byte
/// outside the unreserved set becomes `%XX`, so a `+` survives as `%2B`
/// (a bare plus is a space to some servers) and a `@` cannot split the
/// path.
pub fn encode(address: &str) -> (s: String)
    ensures
        s@ == percent_encode(address.spec_bytes()),
{
    let bytes = address.as_bytes();
    let mut out: Vec<u8> = Vec::new();
    let mut i: usize = 0;
    assert(ascii_chars(out@) =~= Seq::<char>::empty());
    assert(bytes@.take(0) =~= Seq::<u8>::empty());
    while i < bytes.len()
        invariant
            i <= bytes@.len(),
            all_ascii(out@),
            ascii_chars(out@) == percent_encode(bytes@.take(i as int)),
        decreases bytes@.len() - i,
    {
        let b = bytes[i];
        let ghost before = out@;
        if (65 <= b && b <= 90) || (97 <= b && b <= 122) || (48 <= b && b <= 57) || b == 45 || b
            == 95 || b == 46 || b == 126 {
            out.push(b);
            proof {
                lemma_ascii_chars_push(before, b);
            }
        } else {
            out.push(37u8);
            let hi = hex_digit_byte(b / 16);
            out.push(hi);
            let lo = hex_digit_byte(b % 16);
            out.push(lo);
            proof {
                lemma_ascii_chars_push(before, 37u8);
                lemma_ascii_chars_push(before.push(37u8), hi);
                lemma_ascii_chars_push(before.push(37u8).push(hi), lo);
                assert(ascii_chars(out@) =~= ascii_chars(before) + percent_byte(b));
            }
        }
        proof {
            assert(bytes@.take(i + 1) =~= bytes@.take(i as int).push(b));
            lemma_percent_encode_push(bytes@.take(i as int), b);
        }
        i = i + 1;
    }
    assert(bytes@.take(i as int) =~= bytes@);
    ascii_string(out)
}

/// Fields for [`Subscribers::add_request`].
#[derive(Debug, Clone, PartialEq, Eq)]
pub struct AddSubscriber {
    /// The email address.
    pub address: String,
    /// `subscribed` (the server's default) or `unsubscribed`.
    pub status: Option<String>,
}

impl AddSubscriber {
    /// A subscription for the given address.
    pub fn new(address: &str) -> (s: AddSubscriber)
        ensures
            s.address@ == address@,
            s.status is None,
    {
        AddSubscriber { address: address.to_owned(), status: None }
    }

    /// `subscribed` or `unsubscribed`.
    pub fn status(self, status: &str) -> (r: AddSubscriber)
        ensures
            is_text(r.status, status@),
            r.address == self.address,
    {
        AddSubscriber { status: Some(status.to_owned()), ..self }
    }

    /// The JSON body: the address, and the status when set.
    pub open spec fn json(self) -> JsonV {
        JsonV::Object(
            seq![("address"@, JsonV::Str(self.address@))] + opt_member(
                "status"@,
                opt_str(self.status),
            ),
        )
    }

    /// The JSON body to send.
    pub fn to_json(&self) -> (j: Json)
        ensures
            j@ == self.json(),
    {
        let mut members: Vec<(String, Json)> = Vec::new();
        push_member(&mut members, "address", Json::Str(self.address.clone()));
        push_opt_str(&mut members, "status", &self.status);
        assert(json_members_view(members@) =~= seq![("address"@, JsonV::Str(self.address@))]
            + opt_member("status"@, opt_str(self.status)));
        Json::Object(members)
    }
}

/// What an import wrote.
#[derive(Debug, Clone, Copy, PartialEq, Eq)]
pub struct ImportResult {
    /// Subscriptions written.
    pub added: i64,
    /// The stream's subscriber count after the import.
    pub total: i64,
}

/// What a delete removed.
#[derive(Debug, Clone, Copy, PartialEq, Eq)]
pub struct DeleteResult {
    /// Whether the row was removed.
    pub deleted: bool,
}

/// One address on a broadcast stream.
#[derive(Debug, Clone, PartialEq, Eq)]
pub struct Subscriber {
    /// Numeric id.
    pub id: i64,
    /// The email address.
    pub address: String,
    /// `subscribed` or `unsubscribed`.
    pub status: String,
    /// When the subscription row was created.
    pub created_at: Option<String>,
}

} // verus!
