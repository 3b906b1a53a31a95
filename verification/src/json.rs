//! JSON values, as the plain data that the rest of the crate reads.

use vstd::prelude::*;

use crate::text::same;

verus! {

/// A JSON number: what it is as a signed and as an unsigned integer. A number
/// that is neither (a fraction, a number out of range) is `None` twice.
#[derive(Clone, Copy, Debug, PartialEq, Eq, Structural)]
pub struct JsonNumber {
    pub signed: Option<i64>,
    pub unsigned: Option<u64>,
}

/// A JSON value. The members of an object stand in their order.
#[derive(Debug)]
pub enum Json {
    Null,
    Bool(bool),
    Number(JsonNumber),
    Text(String),
    Array(Vec<Json>),
    Object(Vec<(String, Json)>),
}

/// The mathematical form of a JSON value.
pub enum JsonView {
    Null,
    Bool(bool),
    Number(JsonNumber),
    Text(Seq<char>),
    Array(Seq<JsonView>),
    Object(Seq<(Seq<char>, JsonView)>),
}

impl Json {
    pub open spec fn view(&self) -> JsonView
        decreases self,
    {
        match self {
            Json::Null => JsonView::Null,
            Json::Bool(b) => JsonView::Bool(*b),
            Json::Number(n) => JsonView::Number(*n),
            Json::Text(s) => JsonView::Text(s@),
            Json::Array(a) => JsonView::Array(
                Seq::new(
                    a@.len(),
                    |i: int|
                        if 0 <= i < a@.len() {
                            a@[i].view()
                        } else {
                            JsonView::Null
                        },
                ),
            ),
            Json::Object(a) => JsonView::Object(
                Seq::new(
                    a@.len(),
                    |i: int|
                        if 0 <= i < a@.len() {
                            (a@[i].0@, a@[i].1.view())
                        } else {
                            (Seq::empty(), JsonView::Null)
                        },
                ),
            ),
        }
    }
}

/// The value of the first member named `key`.
pub open spec fn first_member(members: Seq<(Seq<char>, JsonView)>, key: Seq<char>) -> Option<
    JsonView,
>
    decreases members.len(),
{
    if members.len() == 0 {
        None
    } else if members[0].0 == key {
        Some(members[0].1)
    } else {
        first_member(members.skip(1), key)
    }
}

impl JsonView {
    /// The member `key` of an object.
    pub open spec fn member(self, key: Seq<char>) -> Option<JsonView> {
        match self {
            JsonView::Object(members) => first_member(members, key),
            _ => None,
        }
    }

    /// The text that this value is.
    pub open spec fn text(self) -> Option<Seq<char>> {
        match self {
            JsonView::Text(s) => Some(s),
            _ => None,
        }
    }

    /// The unsigned integer that this value is.
    pub open spec fn unsigned(self) -> Option<u64> {
        match self {
            JsonView::Number(n) => n.unsigned,
            _ => None,
        }
    }

    /// The truth value that this value is.
    pub open spec fn boolean(self) -> Option<bool> {
        match self {
            JsonView::Bool(b) => Some(b),
            _ => None,
        }
    }
}

/// The text of the member `key`.
pub open spec fn text_member(v: JsonView, key: Seq<char>) -> Option<Seq<char>> {
    match v.member(key) {
        Some(m) => m.text(),
        None => None,
    }
}

/// The text of the member `key`, empty where there is none.
pub open spec fn member_or_empty(v: JsonView, key: Seq<char>) -> Seq<char> {
    match text_member(v, key) {
        Some(s) => s,
        None => Seq::empty(),
    }
}

impl Json {
    /// The member `key` of an object.
    pub fn get<'a>(&'a self, key: &str) -> (r: Option<&'a Json>)
        ensures
            match r {
                Some(v) => self@.member(key@) == Some(v@),
                None => self@.member(key@) is None,
            },
    {
        match self {
            Json::Object(members) => {
                let ghost all = match self@ {
                    JsonView::Object(m) => m,
                    _ => Seq::empty(),
                };
                let mut i: usize = 0;
                assert(all.skip(0) =~= all);
                while i < members.len()
                    invariant
                        i <= members@.len(),
                        self is Object,
                        self->Object_0 == *members,
                        self@ == JsonView::Object(all),
                        first_member(all.skip(i as int), key@) == first_member(all, key@),
                    decreases members@.len() - i,
                {
                    let member = &members[i];
                    assert(all[i as int] == (members@[i as int].0@, members@[i as int].1@));
                    assert(all.skip(i as int)[0] == all[i as int]);
                    if same(member.0.as_str(), key) {
                        return Some(&member.1);
                    }
                    assert(all.skip(i as int).skip(1) =~= all.skip(i + 1));
                    i += 1;
                }
                None
            },
            _ => None,
        }
    }

    /// The text that this value is.
    pub fn as_str<'a>(&'a self) -> (r: Option<&'a str>)
        ensures
            match r {
                Some(s) => self@.text() == Some(s@),
                None => self@.text() is None,
            },
    {
        match self {
            Json::Text(s) => Some(s.as_str()),
            _ => None,
        }
    }

    /// The unsigned integer that this value is.
    pub fn as_u64(&self) -> (r: Option<u64>)
        ensures
            r == self@.unsigned(),
    {
        match self {
            Json::Number(n) => n.unsigned,
            _ => None,
        }
    }

    /// The truth value that this value is.
    pub fn as_bool(&self) -> (r: Option<bool>)
        ensures
            r == self@.boolean(),
    {
        match self {
            Json::Bool(b) => Some(*b),
            _ => None,
        }
    }

    /// The text of the member `key`.
    pub fn get_str<'a>(&'a self, key: &str) -> (r: Option<&'a str>)
        ensures
            match r {
                Some(s) => text_member(self@, key@) == Some(s@),
                None => text_member(self@, key@) is None,
            },
    {
        match self.get(key) {
            Some(v) => v.as_str(),
            None => None,
        }
    }

    /// The text of the member `key` of an object, empty where there is none.
    pub fn text_or_empty(&self, key: &str) -> (r: String)
        ensures
            r@ == member_or_empty(self@, key@),
    {
        match self.get_str(key) {
            Some(s) => s.to_string(),
            None => String::new(),
        }
    }
}

// ---------- JSON values of serde_json ----------

/// A JSON value of `serde_json`.
#[verifier::external_type_specification]
#[verifier::external_body]
pub struct ExValue(serde_json::Value);

/// What a JSON value of `serde_json` holds.
pub uninterp spec fn json_content(value: serde_json::Value) -> JsonView;

/// The number of an unsigned integer.
pub open spec fn unsigned_number(n: u64) -> JsonNumber {
    JsonNumber {
        signed: if n <= i64::MAX {
            Some(n as i64)
        } else {
            None
        },
        unsigned: Some(n),
    }
}

/// No two members have the same name.
pub open spec fn distinct_names(members: Seq<(Seq<char>, JsonView)>) -> bool {
    forall|i: int, j: int|
        0 <= i < j < members.len() ==> (#[trigger] members[i]).0 != (#[trigger] members[j]).0
}

/// A text, a truth value, an unsigned integer or null.
pub open spec fn is_scalar(v: JsonView) -> bool {
    match v {
        JsonView::Null | JsonView::Bool(_) | JsonView::Text(_) => true,
        JsonView::Number(n) => n.unsigned is Some && n == unsigned_number(n.unsigned->0),
        _ => false,
    }
}

/// An object of scalars whose members have different names.
pub open spec fn is_record(v: JsonView) -> bool {
    v is Object && distinct_names(v->Object_0) && forall|i: int|
        0 <= i < v->Object_0.len() ==> is_scalar((#[trigger] v->Object_0[i]).1)
}

/// An object of scalars and records whose members have different names.
pub open spec fn is_plain(v: JsonView) -> bool {
    v is Object && distinct_names(v->Object_0) && forall|i: int|
        0 <= i < v->Object_0.len() ==> is_scalar((#[trigger] v->Object_0[i]).1) || is_record(
            v->Object_0[i].1,
        )
}

/// The value of `serde_json` as plain data, variant by variant; objects keep
/// the order of their members (`serde_json` is built with `preserve_order`).
#[verifier::external_body]
pub(crate) fn from_value(value: serde_json::Value) -> (r: Json)
    ensures
        r@ == json_content(value),
{
    match value {
        serde_json::Value::Null => Json::Null,
        serde_json::Value::Bool(b) => Json::Bool(b),
        serde_json::Value::Number(n) => Json::Number(
            JsonNumber { signed: n.as_i64(), unsigned: n.as_u64() },
        ),
        serde_json::Value::String(s) => Json::Text(s),
        serde_json::Value::Array(a) => Json::Array(a.into_iter().map(from_value).collect()),
        serde_json::Value::Object(m) => Json::Object(
            m.into_iter().map(|(k, v)| (k, from_value(v))).collect(),
        ),
    }
}

/// A number that is an integer.
pub open spec fn is_integer(n: JsonNumber) -> bool {
    (n.unsigned is Some && n == unsigned_number(n.unsigned->0)) || (n.unsigned is None && n.signed
        is Some && n.signed->0 < 0)
}

/// All numbers are integers, and no object has two members of one name.
pub open spec fn is_whole(v: JsonView) -> bool
    decreases v,
{
    match v {
        JsonView::Null | JsonView::Bool(_) | JsonView::Text(_) => true,
        JsonView::Number(n) => is_integer(n),
        JsonView::Array(items) => forall|i: int|
            0 <= i < items.len() ==> is_whole(#[trigger] items[i]),
        JsonView::Object(members) => distinct_names(members) && forall|i: int|
            0 <= i < members.len() ==> is_whole((#[trigger] members[i]).1),
    }
}

/// Plain data is whole.
pub proof fn lemma_plain_is_whole(v: JsonView)
    requires
        is_plain(v) || is_record(v),
    ensures
        is_whole(v),
{
    reveal_with_fuel(is_whole, 3);
    let members = v->Object_0;
    assert forall|i: int| 0 <= i < members.len() implies is_whole((#[trigger] members[i]).1) by {
        assert(is_scalar(members[i].1) || is_record(members[i].1));
    }
}

/// Plain data as a value of `serde_json`, variant by variant. A number that is
/// no integer becomes null, and of two members of one name the second
/// replaces the first; nothing is said of those.
#[verifier::external_body]
pub(crate) fn to_value(json: Json) -> (r: serde_json::Value)
    ensures
        is_whole(json@) ==> json_content(r) == json@,
{
    match json {
        Json::Null => serde_json::Value::Null,
        Json::Bool(b) => serde_json::Value::Bool(b),
        Json::Number(JsonNumber { signed: Some(i), .. }) => serde_json::Value::from(i),
        Json::Number(n) => serde_json::Value::from(n.unsigned),
        Json::Text(s) => serde_json::Value::String(s),
        Json::Array(a) => serde_json::Value::Array(a.into_iter().map(to_value).collect()),
        Json::Object(m) => serde_json::Value::Object(
            m.into_iter().map(|(k, v)| (k, to_value(v))).collect(),
        ),
    }
}

/// The JSON text of plain data.
pub uninterp spec fn json_text(v: JsonView) -> Seq<char>;

/// `serde_json::Value::to_string`: the compact JSON text of a value. Where its
/// numbers are integers, the text is a function of what it holds.
#[verifier::external_body]
pub(crate) fn value_text(value: &serde_json::Value) -> (r: String)
    ensures
        is_whole(json_content(*value)) ==> r@ == json_text(json_content(*value)),
{
    value.to_string()
}

// ---------- members ----------

/// The members of an object.
pub open spec fn member_views(members: Seq<(String, Json)>) -> Seq<(Seq<char>, JsonView)> {
    Seq::new(members.len(), |i: int| (members[i].0@, members[i].1@))
}

/// An object is its members.
pub proof fn lemma_object_view(members: Vec<(String, Json)>)
    ensures
        Json::Object(members)@ == JsonView::Object(member_views(members@)),
{
    reveal_with_fuel(Json::view, 2);
    assert(Json::Object(members)@->Object_0 =~= member_views(members@));
}

/// The index of the first member named `key`, or the number of members.
pub open spec fn member_index(members: Seq<(Seq<char>, JsonView)>, key: Seq<char>) -> int
    decreases members.len(),
{
    if members.len() == 0 {
        0
    } else if members[0].0 == key {
        0
    } else {
        1 + member_index(members.skip(1), key)
    }
}

/// The members with `value` as the first one named `key`, or as the last one
/// where there is none of the name.
pub open spec fn with_member(
    members: Seq<(Seq<char>, JsonView)>,
    key: Seq<char>,
    value: JsonView,
) -> Seq<(Seq<char>, JsonView)> {
    let k = member_index(members, key);
    if k < members.len() {
        members.update(k, (key, value))
    } else {
        members.push((key, value))
    }
}

/// Finds the first member named `key`.
pub fn find_member(members: &Vec<(String, Json)>, key: &str) -> (r: usize)
    ensures
        r == member_index(member_views(members@), key@),
        r <= members@.len(),
        r < members@.len() ==> members@[r as int].0@ == key@,
{
    let ghost all = member_views(members@);
    let mut i: usize = 0;
    assert(all.skip(0) =~= all);
    while i < members.len()
        invariant
            i <= members@.len(),
            all == member_views(members@),
            member_index(all, key@) == i + member_index(all.skip(i as int), key@),
        decreases members@.len() - i,
    {
        assert(all.skip(i as int)[0] == (members@[i as int].0@, members@[i as int].1@));
        if same(members[i].0.as_str(), key) {
            return i;
        }
        assert(all.skip(i as int).skip(1) =~= all.skip(i + 1));
        i += 1;
    }
    i
}

/// Sets the member named `key`.
pub fn set_member(members: &mut Vec<(String, Json)>, key: &str, value: Json)
    ensures
        member_views(final(members)@) == with_member(member_views(old(members)@), key@, value@),
{
    let ghost before = member_views(members@);
    let ghost shown = value@;
    let k = find_member(members, key);
    if k < members.len() {
        let (name, _) = members.remove(k);
        members.insert(k, (name, value));
        assert(member_views(members@) =~= before.update(k as int, (key@, shown)));
    } else {
        members.push((key.to_string(), value));
        assert(member_views(members@) =~= before.push((key@, shown)));
    }
}

/// The member at the index of a name is the one of the name.
pub proof fn lemma_member_index(members: Seq<(Seq<char>, JsonView)>, key: Seq<char>)
    ensures
        0 <= member_index(members, key) <= members.len(),
        first_member(members, key) == (if member_index(members, key) < members.len() {
            Some(members[member_index(members, key)].1)
        } else {
            None
        }),
    decreases members.len(),
{
    if members.len() > 0 && members[0].0 != key {
        lemma_member_index(members.skip(1), key);
    }
}

/// A member that was set reads back, and the others are what they were.
pub proof fn law_set_member_reads_back(
    members: Seq<(Seq<char>, JsonView)>,
    key: Seq<char>,
    value: JsonView,
    other: Seq<char>,
)
    ensures
        first_member(with_member(members, key, value), other) == (if other == key {
            Some(value)
        } else {
            first_member(members, other)
        }),
    decreases members.len(),
{
    let after = with_member(members, key, value);
    if members.len() == 0 {
        assert(after.skip(1) =~= Seq::empty());
        assert(first_member(after.skip(1), other) is None);
    } else if members[0].0 == key {
        assert(after.skip(1) =~= members.skip(1));
    } else {
        lemma_member_index(members.skip(1), key);
        law_set_member_reads_back(members.skip(1), key, value, other);
        assert(after.skip(1) =~= with_member(members.skip(1), key, value));
    }
}

/// An object has a text under a name, and no two members of one name.
pub open spec fn has_text_member(v: JsonView, name: Seq<char>, text: Seq<char>) -> bool {
    v matches JsonView::Object(members) && distinct_names(members) && members.contains(
        (name, JsonView::Text(text)),
    )
}

/// An object has nothing under a name.
pub open spec fn lacks_member(v: JsonView, name: Seq<char>) -> bool {
    v matches JsonView::Object(members) && forall|i: int|
        0 <= i < members.len() ==> (#[trigger] members[i]).0 != name
}

proof fn lemma_member_is_found(members: Seq<(Seq<char>, JsonView)>, k: int)
    requires
        0 <= k < members.len(),
        distinct_names(members),
    ensures
        first_member(members, members[k].0) == Some(members[k].1),
    decreases members.len(),
{
    if k > 0 {
        let rest = members.skip(1);
        assert(rest[k - 1] == members[k]);
        assert(members[0].0 != members[k].0);
        assert forall|i: int, j: int| 0 <= i < j < rest.len() implies (#[trigger] rest[i]).0 != (
        #[trigger] rest[j]).0 by {
            assert(rest[i] == members[i + 1] && rest[j] == members[j + 1]);
        }
        lemma_member_is_found(rest, k - 1);
    }
}

proof fn lemma_no_member_is_found(members: Seq<(Seq<char>, JsonView)>, name: Seq<char>)
    requires
        forall|i: int| 0 <= i < members.len() ==> (#[trigger] members[i]).0 != name,
    ensures
        first_member(members, name) is None,
    decreases members.len(),
{
    if members.len() > 0 {
        let rest = members.skip(1);
        assert forall|i: int| 0 <= i < rest.len() implies (#[trigger] rest[i]).0 != name by {
            assert(rest[i] == members[i + 1]);
        }
        lemma_no_member_is_found(rest, name);
    }
}

/// The text that an object has under a name is found under it, and none where
/// it has nothing under it.
pub proof fn law_text_member_is_found(v: JsonView, name: Seq<char>, text: Seq<char>)
    ensures
        has_text_member(v, name, text) ==> text_member(v, name) == Some(text),
        has_text_member(v, name, text) ==> member_or_empty(v, name) == text,
        lacks_member(v, name) ==> text_member(v, name) is None,
        lacks_member(v, name) ==> member_or_empty(v, name).len() == 0,
{
    if let JsonView::Object(members) = v {
        if has_text_member(v, name, text) {
            let k = choose|k: int|
                0 <= k < members.len() && members[k] == (name, JsonView::Text(text));
            lemma_member_is_found(members, k);
        }
        if lacks_member(v, name) {
            lemma_no_member_is_found(members, name);
        }
    }
}

} // verus!
