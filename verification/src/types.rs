//! Shared types used across resources: addresses, attachments, extra
//! message headers, pagination, and base64 as the API uses it.

use base64::Engine;
use vstd::prelude::*;
use vstd::utf8::encode_utf8;

use crate::json::{json_members_view, json_seq_view, push_item, push_member, Json, JsonV};

verus! {

// ----------------------------------------------------------------- base64

/// The base64 alphabet (RFC 4648, standard): the symbol of a 6-bit value.
pub open spec fn b64_symbol(v: int) -> char {
    if v < 26 {
        (65 + v) as char
    } else if v < 52 {
        (71 + v) as char
    } else if v < 62 {
        (v - 4) as char
    } else if v == 62 {
        '+'
    } else {
        '/'
    }
}

/// Standard base64 with `=` padding: every three bytes become four
/// symbols; a final group of one or two bytes is padded to four.
pub open spec fn b64_encode(b: Seq<u8>) -> Seq<char>
    decreases b.len(),
{
    if b.len() == 0 {
        seq![]
    } else {
        let b0 = b[0] as int;
        if b.len() == 1 {
            seq![b64_symbol(b0 / 4), b64_symbol((b0 % 4) * 16), '=', '=']
        } else {
            let b1 = b[1] as int;
            if b.len() == 2 {
                seq![
                    b64_symbol(b0 / 4),
                    b64_symbol((b0 % 4) * 16 + b1 / 16),
                    b64_symbol((b1 % 16) * 4),
                    '=',
                ]
            } else {
                let b2 = b[2] as int;
                seq![
                    b64_symbol(b0 / 4),
                    b64_symbol((b0 % 4) * 16 + b1 / 16),
                    b64_symbol((b1 % 16) * 4 + b2 / 64),
                    b64_symbol(b2 % 64),
                ] + b64_encode(b.skip(3))
            }
        }
    }
}

/// Encodes with `base64::engine::general_purpose::STANDARD`.
///
/// Claimed: the result is the standard padded base64 of the bytes
/// (the crate's `STANDARD` engine: RFC 4648 alphabet, `=` padding).
#[verifier::external_body]
pub(crate) fn base64_encode(bytes: &[u8]) -> (s: String)
    ensures
        s@ == b64_encode(bytes@),
{
    base64::engine::general_purpose::STANDARD.encode(bytes)
}

/// The message of the error `base64::engine::general_purpose::STANDARD`
/// gives for a text it refuses (which offending byte, or a bad length,
/// last symbol or padding); it depends on the text alone.
pub uninterp spec fn base64_error(text: Seq<char>) -> Seq<char>;

/// Decodes with `base64::engine::general_purpose::STANDARD`, turning its
/// error into its message.
///
/// Claimed: that engine requires canonical padding and rejects trailing
/// bits, so it decodes exactly the texts that are the standard padded
/// encoding of some bytes, and gives back those bytes; a refusal's
/// message is the one [`base64_error`] names for the text.
#[verifier::external_body]
pub(crate) fn base64_decode(text: &str) -> (res: Result<Vec<u8>, String>)
    ensures
        res matches Ok(bytes) ==> b64_encode(bytes@) == text@,
        res is Err ==> forall|b: Seq<u8>| #[trigger] b64_encode(b) != text@,
        res matches Err(message) ==> message@ == base64_error(text@),
{
    match base64::engine::general_purpose::STANDARD.decode(text) {
        Ok(bytes) => Ok(bytes),
        Err(error) => Err(error.to_string()),
    }
}

/// The code of the symbol of a 6-bit value.
proof fn lemma_b64_symbol_code(v: int)
    requires
        0 <= v < 64,
    ensures
        b64_symbol(v) as int == (if v < 26 {
            65 + v
        } else if v < 52 {
            71 + v
        } else if v < 62 {
            v - 4
        } else if v == 62 {
            43
        } else {
            47
        }),
{
}

/// Different 6-bit values have different symbols, and no symbol is the
/// padding `=`.
proof fn lemma_b64_symbol_injective(v: int, w: int)
    requires
        0 <= v < 64,
        0 <= w < 64,
    ensures
        b64_symbol(v) != '=',
        b64_symbol(v) == b64_symbol(w) ==> v == w,
{
    lemma_b64_symbol_code(v);
    lemma_b64_symbol_code(w);
}

/// Two byte sequences with the same base64 text are the same: the
/// standard encoding loses nothing, so decoding what
/// [`Attachment::from_bytes`] produced gives the bytes back.
pub proof fn lemma_b64_encode_injective(a: Seq<u8>, b: Seq<u8>)
    requires
        b64_encode(a) == b64_encode(b),
    ensures
        a == b,
    decreases a.len(),
{
    if a.len() == 0 {
        if b.len() > 0 {
            assert(b64_encode(b).len() > 0);
        }
        assert(b =~= a);
    } else if b.len() == 0 {
        assert(b64_encode(a).len() > 0);
    } else {
        let ea = b64_encode(a);
        let eb = b64_encode(b);
        let a0 = a[0] as int;
        let b0 = b[0] as int;
        lemma_b64_symbol_injective(a0 / 4, b0 / 4);
        if a.len() >= 2 {
            let a1 = a[1] as int;
            lemma_b64_symbol_injective((a0 % 4) * 16 + a1 / 16, 0);
            lemma_b64_symbol_injective((a1 % 16) * 4, 0);
            if a.len() >= 3 {
                let a2 = a[2] as int;
                lemma_b64_symbol_injective((a1 % 16) * 4 + a2 / 64, 0);
                lemma_b64_symbol_injective(a2 % 64, 0);
            }
        }
        if b.len() >= 2 {
            let b1 = b[1] as int;
            lemma_b64_symbol_injective((b0 % 4) * 16 + b1 / 16, 0);
            lemma_b64_symbol_injective((b1 % 16) * 4, 0);
            if b.len() >= 3 {
                let b2 = b[2] as int;
                lemma_b64_symbol_injective((b1 % 16) * 4 + b2 / 64, 0);
                lemma_b64_symbol_injective(b2 % 64, 0);
            }
        }
        // The padding tells how long the last group is.
        assert(ea[2] == '=' <==> a.len() == 1);
        assert(eb[2] == '=' <==> b.len() == 1);
        assert(ea[3] == '=' <==> a.len() <= 2);
        assert(eb[3] == '=' <==> b.len() <= 2);
        assert(ea[0] == b64_symbol(a0 / 4) && eb[0] == b64_symbol(b0 / 4));
        assert(a0 / 4 == b0 / 4);
        if a.len() == 1 {
            assert(b.len() == 1);
            lemma_b64_symbol_injective((a0 % 4) * 16, (b0 % 4) * 16);
            assert(a0 == b0);
            assert(a =~= b);
        } else {
            let a1 = a[1] as int;
            let b1 = b[1] as int;
            lemma_b64_symbol_injective((a0 % 4) * 16 + a1 / 16, (b0 % 4) * 16 + b1 / 16);
            assert(ea[1] == b64_symbol((a0 % 4) * 16 + a1 / 16));
            assert(eb[1] == b64_symbol((b0 % 4) * 16 + b1 / 16));
            assert((a0 % 4) * 16 + a1 / 16 == (b0 % 4) * 16 + b1 / 16);
            assert(a0 % 4 == b0 % 4 && a1 / 16 == b1 / 16);
            assert(a0 == b0);
            if a.len() == 2 {
                assert(b.len() == 2);
                lemma_b64_symbol_injective((a1 % 16) * 4, (b1 % 16) * 4);
                assert(a1 == b1);
                assert(a =~= b);
            } else {
                assert(b.len() >= 3);
                let a2 = a[2] as int;
                let b2 = b[2] as int;
                lemma_b64_symbol_injective((a1 % 16) * 4 + a2 / 64, (b1 % 16) * 4 + b2 / 64);
                lemma_b64_symbol_injective(a2 % 64, b2 % 64);
                assert(a1 % 16 == b1 % 16 && a2 / 64 == b2 / 64);
                assert(a1 == b1);
                assert(a2 == b2);
                assert(b64_encode(a.skip(3)) =~= ea.skip(4));
                assert(b64_encode(b.skip(3)) =~= eb.skip(4));
                lemma_b64_encode_injective(a.skip(3), b.skip(3));
                assert(a =~= seq![a[0], a[1], a[2]] + a.skip(3));
                assert(b =~= seq![b[0], b[1], b[2]] + b.skip(3));
            }
        }
    }
}

// ---------------------------------------------------------------- address

/// The view of an [`Address`].
pub enum AddressV {
    Email(Seq<char>),
    WithName { email: Seq<char>, name: Seq<char> },
}

impl AddressV {
    /// The bare email address.
    pub open spec fn email(self) -> Seq<char> {
        match self {
            AddressV::Email(email) => email,
            AddressV::WithName { email, .. } => email,
        }
    }

    /// How the API expects the address: a bare string, or an object
    /// with `email` and `name`.
    pub open spec fn json(self) -> JsonV {
        match self {
            AddressV::Email(email) => JsonV::Str(email),
            AddressV::WithName { email, name } => JsonV::Object(
                seq![("email"@, JsonV::Str(email)), ("name"@, JsonV::Str(name))],
            ),
        }
    }
}

/// An email address, optionally with a display name.
///
/// Sent exactly as the API expects it: a bare string
/// (`"ada@example.com"`) or an object (`{ "email": …, "name": … }`).
#[derive(Debug, Clone, PartialEq, Eq)]
pub enum Address {
    /// A bare address, e.g. `ada@example.com`.
    Email(String),
    /// An address with a display name.
    WithName {
        /// The email address.
        email: String,
        /// The display name.
        name: String,
    },
}

impl View for Address {
    type V = AddressV;

    open spec fn view(&self) -> AddressV {
        match self {
            Address::Email(email) => AddressV::Email(email@),
            Address::WithName { email, name } => AddressV::WithName { email: email@, name: name@ },
        }
    }
}

/// The views of a sequence of addresses.
pub open spec fn addresses_view(s: Seq<Address>) -> Seq<AddressV> {
    s.map_values(|a: Address| a@)
}

/// The JSON of a sequence of addresses.
pub open spec fn addresses_json(s: Seq<Address>) -> Seq<JsonV> {
    s.map_values(|a: Address| a@.json())
}

impl Address {
    /// An address with a display name.
    pub fn with_name(email: &str, name: &str) -> (a: Address)
        ensures
            a@ == (AddressV::WithName { email: email@, name: name@ }),
    {
        Address::WithName { email: email.to_owned(), name: name.to_owned() }
    }

    /// The bare email address.
    pub fn email(&self) -> (e: &str)
        ensures
            e@ == self@.email(),
    {
        match self {
            Address::Email(email) => email.as_str(),
            Address::WithName { email, .. } => email.as_str(),
        }
    }

    /// The JSON the API takes for this address.
    pub fn to_json(&self) -> (j: Json)
        ensures
            j@ == self@.json(),
    {
        match self {
            Address::Email(email) => Json::Str(email.clone()),
            Address::WithName { email, name } => {
                let mut members: Vec<(String, Json)> = Vec::new();
                push_member(&mut members, "email", Json::Str(email.clone()));
                push_member(&mut members, "name", Json::Str(name.clone()));
                proof {
                    assert(json_members_view(members@) =~= seq![
                        ("email"@, JsonV::Str(email@)),
                        ("name"@, JsonV::Str(name@)),
                    ]);
                }
                Json::Object(members)
            },
        }
    }
}

/// Anything a message address can be given as: a bare address (`&str`),
/// an address with a display name (`(email, name)`), or an [`Address`].
pub trait IntoAddress {
    /// The address this value stands for.
    spec fn address_view(&self) -> AddressV;

    /// Make the [`Address`].
    fn into_address(self) -> (a: Address)
        ensures
            a@ == self.address_view(),
    ;
}

impl IntoAddress for &str {
    open spec fn address_view(&self) -> AddressV {
        AddressV::Email((**self)@)
    }

    fn into_address(self) -> (a: Address) {
        Address::Email(self.to_owned())
    }
}

impl IntoAddress for String {
    open spec fn address_view(&self) -> AddressV {
        AddressV::Email(self@)
    }

    fn into_address(self) -> (a: Address) {
        Address::Email(self)
    }
}

impl IntoAddress for (&str, &str) {
    open spec fn address_view(&self) -> AddressV {
        AddressV::WithName { email: self.0@, name: self.1@ }
    }

    fn into_address(self) -> (a: Address) {
        Address::with_name(self.0, self.1)
    }
}

impl IntoAddress for Address {
    open spec fn address_view(&self) -> AddressV {
        self@
    }

    fn into_address(self) -> (a: Address) {
        self
    }
}

/// The JSON array of a list of addresses.
pub fn addresses_to_json(list: &Vec<Address>) -> (j: Json)
    ensures
        j@ == JsonV::Array(addresses_json(list@)),
{
    let mut items: Vec<Json> = Vec::new();
    let mut i: usize = 0;
    while i < list.len()
        invariant
            i <= list@.len(),
            json_seq_view(items@) == addresses_json(list@.take(i as int)),
        decreases list@.len() - i,
    {
        let item = list[i].to_json();
        push_item(&mut items, item);
        proof {
            assert(addresses_json(list@.take(i + 1)) =~= addresses_json(list@.take(i as int)).push(
                list@[i as int]@.json(),
            ));
        }
        i = i + 1;
    }
    assert(list@.take(i as int) =~= list@);
    Json::Array(items)
}

// ------------------------------------------------------------- attachment

/// A file attached to an outgoing message.
#[derive(Debug, Clone, PartialEq, Eq)]
pub struct Attachment {
    /// File name shown to the recipient, e.g. `invoice.pdf`.
    pub name: String,
    /// MIME type, e.g. `application/pdf`.
    pub content_type: String,
    /// Base64-encoded file content.
    pub data_base64: String,
}

impl Attachment {
    /// Build an attachment from raw bytes (encodes them as base64).
    pub fn from_bytes(name: &str, content_type: &str, bytes: &[u8]) -> (a: Attachment)
        ensures
            a.name@ == name@,
            a.content_type@ == content_type@,
            a.data_base64@ == b64_encode(bytes@),
    {
        Attachment {
            name: name.to_owned(),
            content_type: content_type.to_owned(),
            data_base64: base64_encode(bytes),
        }
    }

    /// Build an attachment from already base64-encoded content.
    pub fn from_base64(name: &str, content_type: &str, data_base64: &str) -> (a: Attachment)
        ensures
            a.name@ == name@,
            a.content_type@ == content_type@,
            a.data_base64@ == data_base64@,
    {
        Attachment {
            name: name.to_owned(),
            content_type: content_type.to_owned(),
            data_base64: data_base64.to_owned(),
        }
    }

    /// The JSON of this attachment: `name`, `content_type`, `data_base64`.
    pub open spec fn json(self) -> JsonV {
        JsonV::Object(
            seq![
                ("name"@, JsonV::Str(self.name@)),
                ("content_type"@, JsonV::Str(self.content_type@)),
                ("data_base64"@, JsonV::Str(self.data_base64@)),
            ],
        )
    }

    /// The JSON the API takes for this attachment.
    pub fn to_json(&self) -> (j: Json)
        ensures
            j@ == self.json(),
    {
        let mut members: Vec<(String, Json)> = Vec::new();
        push_member(&mut members, "name", Json::Str(self.name.clone()));
        push_member(&mut members, "content_type", Json::Str(self.content_type.clone()));
        push_member(&mut members, "data_base64", Json::Str(self.data_base64.clone()));
        proof {
            assert(json_members_view(members@) =~= seq![
                ("name"@, JsonV::Str(self.name@)),
                ("content_type"@, JsonV::Str(self.content_type@)),
                ("data_base64"@, JsonV::Str(self.data_base64@)),
            ]);
        }
        Json::Object(members)
    }
}

/// The JSON of a sequence of attachments.
pub open spec fn attachments_json(s: Seq<Attachment>) -> Seq<JsonV> {
    s.map_values(|a: Attachment| a.json())
}

/// The JSON array of a list of attachments.
pub fn attachments_to_json(list: &Vec<Attachment>) -> (j: Json)
    ensures
        j@ == JsonV::Array(attachments_json(list@)),
{
    let mut items: Vec<Json> = Vec::new();
    let mut i: usize = 0;
    while i < list.len()
        invariant
            i <= list@.len(),
            json_seq_view(items@) == attachments_json(list@.take(i as int)),
        decreases list@.len() - i,
    {
        let item = list[i].to_json();
        push_item(&mut items, item);
        proof {
            assert(attachments_json(list@.take(i + 1)) =~= attachments_json(
                list@.take(i as int),
            ).push(list@[i as int].json()));
        }
        i = i + 1;
    }
    assert(list@.take(i as int) =~= list@);
    Json::Array(items)
}

// ---------------------------------------------------------------- headers

/// The view of a list of string pairs.
pub open spec fn pairs_view(pairs: Seq<(String, String)>) -> Seq<(Seq<char>, Seq<char>)> {
    pairs.map_values(|p: (String, String)| (p.0@, p.1@))
}

/// Byte-wise lexicographic order, the order of `str`: the first
/// differing byte decides, and a proper prefix sorts first.
pub open spec fn bytes_lt(a: Seq<u8>, b: Seq<u8>) -> bool
    decreases a.len(),
{
    if a.len() == 0 {
        b.len() > 0
    } else if b.len() == 0 {
        false
    } else if a[0] != b[0] {
        a[0] < b[0]
    } else {
        bytes_lt(a.drop_first(), b.drop_first())
    }
}

/// Header names are ordered as strings are: by their UTF-8 bytes.
pub open spec fn name_lt(a: Seq<char>, b: Seq<char>) -> bool {
    bytes_lt(encode_utf8(a), encode_utf8(b))
}

proof fn lemma_bytes_lt_irreflexive(a: Seq<u8>)
    ensures
        !bytes_lt(a, a),
    decreases a.len(),
{
    if a.len() > 0 {
        lemma_bytes_lt_irreflexive(a.drop_first());
    }
}

proof fn lemma_bytes_lt_transitive(a: Seq<u8>, b: Seq<u8>, c: Seq<u8>)
    requires
        bytes_lt(a, b),
        bytes_lt(b, c),
    ensures
        bytes_lt(a, c),
    decreases a.len(),
{
    if a.len() > 0 && a[0] == b[0] && b[0] == c[0] {
        lemma_bytes_lt_transitive(a.drop_first(), b.drop_first(), c.drop_first());
    }
}

proof fn lemma_bytes_lt_total(a: Seq<u8>, b: Seq<u8>)
    requires
        a != b,
    ensures
        bytes_lt(a, b) || bytes_lt(b, a),
    decreases a.len(),
{
    if a.len() == 0 && b.len() == 0 {
        assert(a =~= b);
    } else if a.len() > 0 && b.len() > 0 && a[0] == b[0] {
        if a.drop_first() == b.drop_first() {
            assert(a =~= seq![a[0]] + a.drop_first());
            assert(b =~= seq![b[0]] + b.drop_first());
        }
        lemma_bytes_lt_total(a.drop_first(), b.drop_first());
    }
}

/// Two different names are ordered one way or the other.
proof fn lemma_name_lt_total(a: Seq<char>, b: Seq<char>)
    requires
        a != b,
    ensures
        name_lt(a, b) || name_lt(b, a),
{
    if encode_utf8(a) == encode_utf8(b) {
        vstd::utf8::encode_utf8_decode_utf8(a);
        vstd::utf8::encode_utf8_decode_utf8(b);
    }
    lemma_bytes_lt_total(encode_utf8(a), encode_utf8(b));
}

/// The names strictly increase, so none occurs twice.
pub open spec fn sorted_names(entries: Seq<(Seq<char>, Seq<char>)>) -> bool {
    forall|i: int, j: int|
        0 <= i < j < entries.len() ==> name_lt(#[trigger] entries[i].0, #[trigger] entries[j].0)
}

/// Where `name` sorts among the entries: the number of leading entries
/// whose names sort before it.
pub open spec fn sorted_position(entries: Seq<(Seq<char>, Seq<char>)>, name: Seq<char>) -> int
    decreases entries.len(),
{
    if entries.len() == 0 {
        0
    } else if name_lt(entries[0].0, name) {
        1 + sorted_position(entries.drop_first(), name)
    } else {
        0
    }
}

/// The position is the first entry that does not sort before `name`.
proof fn lemma_sorted_position(entries: Seq<(Seq<char>, Seq<char>)>, name: Seq<char>, k: int)
    requires
        0 <= k <= entries.len(),
        forall|j: int| 0 <= j < k ==> name_lt(#[trigger] entries[j].0, name),
        k < entries.len() ==> !name_lt(entries[k].0, name),
    ensures
        sorted_position(entries, name) == k,
    decreases entries.len(),
{
    if k > 0 {
        assert(name_lt(entries[0].0, name));
        let rest = entries.drop_first();
        assert forall|j: int| 0 <= j < k - 1 implies name_lt(#[trigger] rest[j].0, name) by {
            assert(rest[j] == entries[j + 1]);
        }
        if k < entries.len() {
            assert(rest[k - 1] == entries[k]);
        }
        lemma_sorted_position(rest, name, k - 1);
    }
}

/// The entries after setting `name` to `value`: an entry of that name
/// gets the new value, otherwise a new entry goes where its name sorts.
pub open spec fn set_entry(
    entries: Seq<(Seq<char>, Seq<char>)>,
    name: Seq<char>,
    value: Seq<char>,
) -> Seq<(Seq<char>, Seq<char>)> {
    let p = sorted_position(entries, name);
    if p < entries.len() && entries[p].0 == name {
        entries.update(p, (name, value))
    } else {
        entries.insert(p, (name, value))
    }
}

/// `a` and `b` compare as `bytes_lt` says.
fn bytes_less(a: &[u8], b: &[u8]) -> (r: bool)
    ensures
        r == bytes_lt(a@, b@),
{
    let mut i: usize = 0;
    assert(a@.skip(0) =~= a@ && b@.skip(0) =~= b@);
    while i < a.len() && i < b.len() && a[i] == b[i]
        invariant
            i <= a@.len(),
            i <= b@.len(),
            bytes_lt(a@, b@) == bytes_lt(a@.skip(i as int), b@.skip(i as int)),
        decreases a@.len() - i,
    {
        assert(a@.skip(i as int).drop_first() =~= a@.skip(i + 1));
        assert(b@.skip(i as int).drop_first() =~= b@.skip(i + 1));
        i = i + 1;
    }
    if i < a.len() && i < b.len() {
        a[i] < b[i]
    } else {
        i < b.len()
    }
}

/// Extra HTTP-style headers on an outgoing message: a name maps to one
/// value, setting a name again replaces its value, and the headers are
/// kept (and sent) in the order of their names.
#[derive(Debug, PartialEq, Eq)]
pub struct Headers {
    entries: Vec<(String, String)>,
}

impl Headers {
    /// The entries, ordered by name.
    pub closed spec fn entries(self) -> Seq<(Seq<char>, Seq<char>)> {
        pairs_view(self.entries@)
    }

    #[verifier::type_invariant]
    closed spec fn names_are_sorted(self) -> bool {
        sorted_names(pairs_view(self.entries@))
    }

    /// No headers.
    pub fn new() -> (h: Headers)
        ensures
            h.entries() == Seq::<(Seq<char>, Seq<char>)>::empty(),
            sorted_names(h.entries()),
    {
        let h = Headers { entries: Vec::new() };
        assert(pairs_view(h.entries@) =~= Seq::<(Seq<char>, Seq<char>)>::empty());
        h
    }

    /// The first entry whose name does not sort before `name`.
    fn position(&self, name: &str) -> (pos: usize)
        ensures
            pos == sorted_position(self.entries(), name@),
            pos <= self.entries().len(),
    {
        let mut i: usize = 0;
        while i < self.entries.len() && bytes_less(self.entries[i].0.as_str().as_bytes(), name.as_bytes())
            invariant
                i <= self.entries@.len(),
                forall|j: int|
                    0 <= j < i ==> name_lt(#[trigger] pairs_view(self.entries@)[j].0, name@),
            decreases self.entries@.len() - i,
        {
            i = i + 1;
        }
        proof {
            lemma_sorted_position(self.entries(), name@, i as int);
        }
        i
    }

    /// Set one header, replacing an earlier value of the same name.
    pub fn insert(&mut self, name: &str, value: &str)
        ensures
            final(self).entries() == set_entry(old(self).entries(), name@, value@),
            sorted_names(final(self).entries()),
    {
        proof {
            use_type_invariant(&*self);
        }
        let ghost before = self.entries();
        let p = self.position(name);
        proof {
            lemma_sorted_position_facts(before, name@);
        }
        let mut entries: Vec<(String, String)> = Vec::new();
        std::mem::swap(&mut entries, &mut self.entries);
        let key = name.to_owned();
        let replace = p < entries.len() && entries[p].0 == key;
        let entry = (key, value.to_owned());
        if replace {
            entries.set(p, entry);
            proof {
                assert(pairs_view(entries@) =~= before.update(p as int, (name@, value@)));
            }
        } else {
            entries.insert(p, entry);
            proof {
                let after = pairs_view(entries@);
                assert(after =~= before.insert(p as int, (name@, value@)));
                if (p as int) < before.len() {
                    lemma_name_lt_total(before[p as int].0, name@);
                }
                assert forall|i: int, j: int|
                    0 <= i < j < after.len() implies name_lt(
                    #[trigger] after[i].0,
                    #[trigger] after[j].0,
                ) by {
                    if j == p {
                        assert(name_lt(before[i].0, name@));
                    } else if i == p {
                        assert(after[j] == before[j - 1]);
                        if j - 1 > p {
                            lemma_bytes_lt_transitive(
                                encode_utf8(name@),
                                encode_utf8(before[p as int].0),
                                encode_utf8(before[j - 1].0),
                            );
                        }
                    } else if i < p && j > p {
                        assert(after[j] == before[j - 1]);
                        assert(name_lt(before[i].0, name@));
                        if j - 1 > p {
                            lemma_bytes_lt_transitive(
                                encode_utf8(name@),
                                encode_utf8(before[p as int].0),
                                encode_utf8(before[j - 1].0),
                            );
                        }
                        lemma_bytes_lt_transitive(
                            encode_utf8(before[i].0),
                            encode_utf8(name@),
                            encode_utf8(before[j - 1].0),
                        );
                    } else if i > p {
                        assert(after[i] == before[i - 1]);
                        assert(after[j] == before[j - 1]);
                    }
                }
            }
        }
        self.entries = entries;
    }

    /// The value set for `name`, if any.
    pub fn get(&self, name: &str) -> (v: Option<&str>)
        ensures
            v matches Some(s) ==> exists|i: int|
                0 <= i < self.entries().len() && #[trigger] self.entries()[i] == (name@, s@),
            v is None ==> forall|i: int|
                0 <= i < self.entries().len() ==> #[trigger] self.entries()[i].0 != name@,
    {
        proof {
            use_type_invariant(self);
        }
        let p = self.position(name);
        proof {
            lemma_sorted_position_facts(self.entries(), name@);
        }
        let key = name.to_owned();
        if p < self.entries.len() && self.entries[p].0 == key {
            let v = self.entries[p].1.as_str();
            assert(self.entries()[p as int] == (name@, v@));
            Some(v)
        } else {
            proof {
                let e = self.entries();
                assert forall|i: int| 0 <= i < e.len() implies #[trigger] e[i].0 != name@ by {
                    if i < p {
                        assert(name_lt(e[i].0, name@));
                        lemma_bytes_lt_irreflexive(encode_utf8(name@));
                    } else if i > p {
                        lemma_name_lt_total(e[p as int].0, name@);
                        if e[i].0 == name@ {
                            lemma_bytes_lt_transitive(
                                encode_utf8(name@),
                                encode_utf8(e[p as int].0),
                                encode_utf8(name@),
                            );
                            lemma_bytes_lt_irreflexive(encode_utf8(name@));
                        }
                    }
                }
            }
            None
        }
    }

    /// How many headers are set.
    pub fn len(&self) -> (n: usize)
        ensures
            n == self.entries().len(),
    {
        self.entries.len()
    }

    /// `true` when no header is set.
    pub fn is_empty(&self) -> (b: bool)
        ensures
            b <==> self.entries().len() == 0,
    {
        self.entries.len() == 0
    }

    /// The JSON object of the headers, one member per header.
    pub fn to_json(&self) -> (j: Json)
        ensures
            j@ == JsonV::Object(self.entries().map_values(
                |e: (Seq<char>, Seq<char>)| (e.0, JsonV::Str(e.1)),
            )),
    {
        let mut members: Vec<(String, Json)> = Vec::new();
        let mut i: usize = 0;
        while i < self.entries.len()
            invariant
                i <= self.entries@.len(),
                json_members_view(members@) == pairs_view(self.entries@).take(i as int).map_values(
                    |e: (Seq<char>, Seq<char>)| (e.0, JsonV::Str(e.1)),
                ),
            decreases self.entries@.len() - i,
        {
            let name = self.entries[i].0.as_str();
            let value = self.entries[i].1.clone();
            push_member(&mut members, name, Json::Str(value));
            proof {
                assert(pairs_view(self.entries@).take(i + 1).map_values(
                    |e: (Seq<char>, Seq<char>)| (e.0, JsonV::Str(e.1)),
                ) =~= pairs_view(self.entries@).take(i as int).map_values(
                    |e: (Seq<char>, Seq<char>)| (e.0, JsonV::Str(e.1)),
                ).push((self.entries@[i as int].0@, JsonV::Str(self.entries@[i as int].1@))));
            }
            i = i + 1;
        }
        assert(pairs_view(self.entries@).take(i as int) =~= pairs_view(self.entries@));
        Json::Object(members)
    }
}

impl Clone for Headers {
    fn clone(&self) -> (h: Headers)
        ensures
            h.entries() == self.entries(),
    {
        proof {
            use_type_invariant(self);
        }
        let mut entries: Vec<(String, String)> = Vec::new();
        let mut i: usize = 0;
        while i < self.entries.len()
            invariant
                i <= self.entries@.len(),
                pairs_view(entries@) == pairs_view(self.entries@).take(i as int),
            decreases self.entries@.len() - i,
        {
            let name = self.entries[i].0.clone();
            let value = self.entries[i].1.clone();
            let ghost prev = entries@;
            entries.push((name, value));
            assert(name@ == self.entries@[i as int].0@);
            assert(value@ == self.entries@[i as int].1@);
            assert(pairs_view(entries@) =~= pairs_view(prev).push((name@, value@)));
            assert(pairs_view(entries@) =~= pairs_view(self.entries@).take(i + 1));
            i = i + 1;
        }
        assert(pairs_view(self.entries@).take(i as int) =~= pairs_view(self.entries@));
        Headers { entries }
    }
}

/// What [`sorted_position`] gives: every entry before it sorts before
/// `name`, and the entry at it (if any) does not.
proof fn lemma_sorted_position_facts(entries: Seq<(Seq<char>, Seq<char>)>, name: Seq<char>)
    ensures
        0 <= sorted_position(entries, name) <= entries.len(),
        forall|j: int|
            0 <= j < sorted_position(entries, name) ==> name_lt(#[trigger] entries[j].0, name),
        sorted_position(entries, name) < entries.len() ==> !name_lt(
            entries[sorted_position(entries, name)].0,
            name,
        ),
    decreases entries.len(),
{
    if entries.len() > 0 && name_lt(entries[0].0, name) {
        let rest = entries.drop_first();
        lemma_sorted_position_facts(rest, name);
        assert forall|j: int| 0 <= j < sorted_position(entries, name) implies name_lt(
            #[trigger] entries[j].0,
            name,
        ) by {
            if j > 0 {
                assert(entries[j] == rest[j - 1]);
            }
        }
        if sorted_position(entries, name) < entries.len() {
            assert(entries[sorted_position(entries, name)] == rest[sorted_position(rest, name)]);
        }
    }
}

/// Setting the same header twice keeps only the last value.
pub proof fn lemma_header_set_twice(
    entries: Seq<(Seq<char>, Seq<char>)>,
    name: Seq<char>,
    first: Seq<char>,
    second: Seq<char>,
)
    requires
        sorted_names(entries),
    ensures
        set_entry(set_entry(entries, name, first), name, second) == set_entry(
            entries,
            name,
            second,
        ),
{
    let p = sorted_position(entries, name);
    let once = set_entry(entries, name, first);
    lemma_sorted_position_facts(entries, name);
    lemma_bytes_lt_irreflexive(encode_utf8(name));
    assert(once[p] == (name, first));
    assert forall|j: int| 0 <= j < p implies name_lt(#[trigger] once[j].0, name) by {
        assert(once[j] == entries[j]);
    }
    lemma_sorted_position(once, name, p);
    if p < entries.len() && entries[p].0 == name {
        assert(once.update(p, (name, second)) =~= entries.update(p, (name, second)));
    } else {
        assert(once.update(p, (name, second)) =~= entries.insert(p, (name, second)));
    }
}

/// A header read after it was set gives the value set, and every other
/// header keeps its value.
pub proof fn lemma_header_read_after_set(
    entries: Seq<(Seq<char>, Seq<char>)>,
    name: Seq<char>,
    value: Seq<char>,
)
    requires
        sorted_names(entries),
    ensures
        exists|i: int|
            0 <= i < set_entry(entries, name, value).len() && #[trigger] set_entry(
                entries,
                name,
                value,
            )[i] == (name, value),
        forall|i: int|
            0 <= i < entries.len() && #[trigger] entries[i].0 != name ==> set_entry(
                entries,
                name,
                value,
            ).contains(entries[i]),
{
    let p = sorted_position(entries, name);
    let after = set_entry(entries, name, value);
    lemma_sorted_position_facts(entries, name);
    assert(after[p] == (name, value));
    assert forall|i: int| 0 <= i < entries.len() && #[trigger] entries[i].0 != name implies after.contains(
        entries[i],
    ) by {
        if p < entries.len() && entries[p].0 == name {
            assert(after[i] == entries[i]);
        } else if i < p {
            assert(after[i] == entries[i]);
        } else {
            assert(after[i + 1] == entries[i]);
        }
    }
}

// ------------------------------------------------------------- pagination

/// Pagination info returned by every list endpoint.
#[derive(Debug, Clone, PartialEq, Eq)]
pub struct Pagination {
    /// The current page (1-based).
    pub page: u64,
    /// Entries per page (max 100).
    pub per_page: u64,
    /// Total number of entries.
    pub total: u64,
    /// Total number of pages.
    pub total_pages: u64,
}

} // verus!
