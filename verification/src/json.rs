//! The shape of a JSON request body.
//!
//! Request types describe the body they send as a [`Json`] tree: which
//! fields appear, which are left out, and where an explicit `null`
//! goes. Free-form values that callers pass through untouched (message
//! metadata, template models) ride along as [`serde_json::Value`].

use vstd::prelude::*;

verus! {

/// `serde_json::Value`, carried through request bodies unread.
#[verifier::external_type_specification]
#[verifier::external_body]
pub struct ExValue(serde_json::Value);

/// `Clone` of `serde_json::Value` (derived there): claimed to return a
/// value equal to the original.
pub assume_specification[ <serde_json::Value as Clone>::clone ](v: &serde_json::Value) -> (res:
    serde_json::Value)
    ensures
        res == *v,
;

/// A JSON document to send.
#[derive(Debug)]
pub enum Json {
    /// `null`.
    Null,
    /// `true` / `false`.
    Bool(bool),
    /// A string.
    Str(String),
    /// An array.
    Array(Vec<Json>),
    /// An object; members keep the order given.
    Object(Vec<(String, Json)>),
    /// A caller-supplied value, sent as it is.
    Raw(serde_json::Value),
}

/// The mathematical view of a [`Json`] tree.
pub enum JsonV {
    Null,
    Bool(bool),
    Str(Seq<char>),
    Array(Seq<JsonV>),
    Object(Seq<(Seq<char>, JsonV)>),
    Raw(serde_json::Value),
}

/// The view of one JSON tree.
pub open spec fn json_view(j: Json) -> JsonV
    decreases j,
{
    match j {
        Json::Null => JsonV::Null,
        Json::Bool(b) => JsonV::Bool(b),
        Json::Str(s) => JsonV::Str(s@),
        Json::Array(items) => JsonV::Array(json_seq_view(items@)),
        Json::Object(members) => JsonV::Object(json_members_view(members@)),
        Json::Raw(v) => JsonV::Raw(v),
    }
}

/// The views of a sequence of JSON trees.
pub open spec fn json_seq_view(items: Seq<Json>) -> Seq<JsonV>
    decreases items,
{
    if items.len() == 0 {
        seq![]
    } else {
        seq![json_view(items[0])] + json_seq_view(items.subrange(1, items.len() as int))
    }
}

/// The views of the members of a JSON object.
pub open spec fn json_members_view(members: Seq<(String, Json)>) -> Seq<(Seq<char>, JsonV)>
    decreases members,
{
    if members.len() == 0 {
        seq![]
    } else {
        seq![(members[0].0@, json_view(members[0].1))] + json_members_view(
            members.subrange(1, members.len() as int),
        )
    }
}

impl View for Json {
    type V = JsonV;

    open spec fn view(&self) -> JsonV {
        json_view(*self)
    }
}

/// Appending a tree appends its view.
pub proof fn lemma_json_seq_view_push(items: Seq<Json>, j: Json)
    ensures
        json_seq_view(items.push(j)) == json_seq_view(items).push(json_view(j)),
    decreases items.len(),
{
    let pushed = items.push(j);
    if items.len() == 0 {
        assert(pushed.subrange(1, pushed.len() as int) =~= Seq::<Json>::empty());
        assert(json_seq_view(pushed.subrange(1, pushed.len() as int)) == Seq::<JsonV>::empty());
        assert(json_seq_view(pushed) =~= seq![json_view(j)]);
    } else {
        let rest = items.subrange(1, items.len() as int);
        assert(pushed.subrange(1, pushed.len() as int) =~= rest.push(j));
        lemma_json_seq_view_push(rest, j);
        assert(json_seq_view(pushed) =~= json_seq_view(items).push(json_view(j)));
    }
}

/// Appending a member appends its view.
pub proof fn lemma_json_members_view_push(members: Seq<(String, Json)>, m: (String, Json))
    ensures
        json_members_view(members.push(m)) == json_members_view(members).push((m.0@, json_view(m.1))),
    decreases members.len(),
{
    let pushed = members.push(m);
    if members.len() == 0 {
        assert(pushed.subrange(1, pushed.len() as int) =~= Seq::<(String, Json)>::empty());
        assert(json_members_view(pushed.subrange(1, pushed.len() as int)) == Seq::<
            (Seq<char>, JsonV),
        >::empty());
        assert(json_members_view(pushed) =~= seq![(m.0@, json_view(m.1))]);
    } else {
        let rest = members.subrange(1, members.len() as int);
        assert(pushed.subrange(1, pushed.len() as int) =~= rest.push(m));
        lemma_json_members_view_push(rest, m);
        assert(json_members_view(pushed) =~= json_members_view(members).push(
            (m.0@, json_view(m.1)),
        ));
    }
}

/// Append an item to an array under construction.
pub fn push_item(items: &mut Vec<Json>, item: Json)
    ensures
        json_seq_view(final(items)@) == json_seq_view(old(items)@).push(item@),
{
    proof {
        lemma_json_seq_view_push(old(items)@, item);
    }
    items.push(item);
}

/// Append a member to an object under construction.
pub fn push_member(members: &mut Vec<(String, Json)>, key: &str, value: Json)
    ensures
        json_members_view(final(members)@) == json_members_view(old(members)@).push(
            (key@, value@),
        ),
{
    let k = key.to_owned();
    proof {
        lemma_json_members_view_push(old(members)@, (k, value));
    }
    members.push((k, value));
}

/// The member `key: value` when `value` is given, nothing otherwise.
pub open spec fn opt_member(key: Seq<char>, value: Option<JsonV>) -> Seq<(Seq<char>, JsonV)> {
    match value {
        Some(v) => seq![(key, v)],
        None => seq![],
    }
}

/// The view of an optional string as an optional JSON string.
pub open spec fn opt_str(value: Option<String>) -> Option<JsonV> {
    match value {
        Some(s) => Some(JsonV::Str(s@)),
        None => None,
    }
}

/// `s` holds exactly the text `v`.
pub open spec fn is_text(s: Option<String>, v: Seq<char>) -> bool {
    s matches Some(t) && t@ == v
}

/// The view of an optional flag as an optional JSON boolean.
pub open spec fn opt_bool(value: Option<bool>) -> Option<JsonV> {
    match value {
        Some(b) => Some(JsonV::Bool(b)),
        None => None,
    }
}

/// The view of an optional pass-through value.
pub open spec fn opt_raw(value: Option<serde_json::Value>) -> Option<JsonV> {
    match value {
        Some(v) => Some(JsonV::Raw(v)),
        None => None,
    }
}

/// Append `key: value` only when `value` is given (a field that is
/// skipped when unset).
pub fn push_opt_str(members: &mut Vec<(String, Json)>, key: &str, value: &Option<String>)
    ensures
        json_members_view(final(members)@) == json_members_view(old(members)@) + opt_member(
            key@,
            opt_str(*value),
        ),
{
    match value {
        Some(s) => {
            push_member(members, key, Json::Str(s.clone()));
            assert(json_members_view(members@) =~= json_members_view(old(members)@) + opt_member(
                key@,
                opt_str(*value),
            ));
        },
        None => {
            assert(json_members_view(members@) =~= json_members_view(old(members)@) + opt_member(
                key@,
                opt_str(*value),
            ));
        },
    }
}

/// Append `key: flag` only when the flag is given.
pub fn push_opt_bool(members: &mut Vec<(String, Json)>, key: &str, value: Option<bool>)
    ensures
        json_members_view(final(members)@) == json_members_view(old(members)@) + opt_member(
            key@,
            opt_bool(value),
        ),
{
    match value {
        Some(b) => {
            push_member(members, key, Json::Bool(b));
            assert(json_members_view(members@) =~= json_members_view(old(members)@) + opt_member(
                key@,
                opt_bool(value),
            ));
        },
        None => {
            assert(json_members_view(members@) =~= json_members_view(old(members)@) + opt_member(
                key@,
                opt_bool(value),
            ));
        },
    }
}

/// Append `key: value` for a pass-through value, only when given.
pub fn push_opt_raw(
    members: &mut Vec<(String, Json)>,
    key: &str,
    value: &Option<serde_json::Value>,
)
    ensures
        json_members_view(final(members)@) == json_members_view(old(members)@) + opt_member(
            key@,
            opt_raw(*value),
        ),
{
    match value {
        Some(v) => {
            push_member(members, key, Json::Raw(v.clone()));
            assert(json_members_view(members@) =~= json_members_view(old(members)@) + opt_member(
                key@,
                opt_raw(*value),
            ));
        },
        None => {
            assert(json_members_view(members@) =~= json_members_view(old(members)@) + opt_member(
                key@,
                opt_raw(*value),
            ));
        },
    }
}

/// The items of a JSON array (none for anything else).
pub open spec fn array_items(j: JsonV) -> Seq<JsonV> {
    match j {
        JsonV::Array(items) => items,
        _ => seq![],
    }
}

/// The members of a JSON object (none for anything else).
pub open spec fn object_members(j: JsonV) -> Seq<(Seq<char>, JsonV)> {
    match j {
        JsonV::Object(members) => members,
        _ => seq![],
    }
}

/// An item placed between others is in the whole.
pub proof fn lemma_item_between<A>(pre: Seq<A>, x: A, post: Seq<A>)
    ensures
        (pre + seq![x] + post).contains(x),
{
    assert((pre + seq![x] + post)[pre.len() as int] == x);
}

/// What is in either part is in the whole.
pub proof fn lemma_concat_contains<A>(a: Seq<A>, b: Seq<A>, x: A)
    ensures
        a.contains(x) ==> (a + b).contains(x),
        b.contains(x) ==> (a + b).contains(x),
{
    if a.contains(x) {
        let i = choose|i: int| 0 <= i < a.len() && a[i] == x;
        assert((a + b)[i] == x);
    }
    if b.contains(x) {
        let j = choose|j: int| 0 <= j < b.len() && b[j] == x;
        assert((a + b)[a.len() + j] == x);
    }
}

/// The member `key: [items]` when there are items, nothing otherwise (a
/// list that is left out when empty).
pub open spec fn list_member(key: Seq<char>, items: Seq<JsonV>) -> Seq<(Seq<char>, JsonV)> {
    if items.len() == 0 {
        seq![]
    } else {
        seq![(key, JsonV::Array(items))]
    }
}

/// Append `key: list` unless the list is empty.
pub fn push_list(members: &mut Vec<(String, Json)>, key: &str, list: Json)
    requires
        list@ is Array,
    ensures
        json_members_view(final(members)@) == json_members_view(old(members)@) + list_member(
            key@,
            array_items(list@),
        ),
{
    let empty = match &list {
        Json::Array(items) => items.len() == 0,
        _ => true,
    };
    if empty {
        assert(array_items(list@).len() == 0);
        assert(json_members_view(members@) =~= json_members_view(old(members)@) + list_member(
            key@,
            array_items(list@),
        ));
    } else {
        push_member(members, key, list);
        assert(json_members_view(members@) =~= json_members_view(old(members)@) + list_member(
            key@,
            array_items(list@),
        ));
    }
}

} // verus!
