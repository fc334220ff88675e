//! JSON values of `serde_json`, stated over a mathematical JSON tree.

use vstd::prelude::*;

verus! {

/// A JSON document as a mathematical value.
pub enum Json {
    Null,
    Bool(bool),
    /// A number, by its JSON text.
    Number(Seq<char>),
    Text(Seq<char>),
    Array(Seq<Json>),
    Object(Map<Seq<char>, Json>),
}

impl Json {
    /// The member of an object under `key`; nothing where this is no object.
    pub open spec fn member(self, key: Seq<char>) -> Option<Json> {
        match self {
            Json::Object(members) => if members.contains_key(key) {
                Some(members[key])
            } else {
                None
            },
            _ => None,
        }
    }

    /// The characters of a JSON string; nothing where this is no string.
    pub open spec fn text(self) -> Option<Seq<char>> {
        match self {
            Json::Text(s) => Some(s),
            _ => None,
        }
    }

    /// The characters of the string that an object holds under `key`.
    pub open spec fn text_member(self, key: Seq<char>) -> Option<Seq<char>> {
        match self.member(key) {
            Some(value) => value.text(),
            None => None,
        }
    }
}

/// Whether no two members stand under the same key.
pub open spec fn distinct_keys(fields: Seq<(Seq<char>, Json)>) -> bool {
    forall|i: int, j: int|
        0 <= i < j < fields.len() ==> (#[trigger] fields[i]).0 != (#[trigger] fields[j]).0
}

/// The members of the object with the given fields.
pub open spec fn object_of(fields: Seq<(Seq<char>, Json)>) -> Map<Seq<char>, Json>
    decreases fields.len(),
{
    if fields.len() == 0 {
        Map::empty()
    } else {
        object_of(fields.drop_last()).insert(fields.last().0, fields.last().1)
    }
}

/// `serde_json::Value`, a JSON document in memory.
#[verifier::external_type_specification]
#[verifier::external_body]
pub struct ExValue(serde_json::Value);

/// The document that a `serde_json::Value` holds.
pub uninterp spec fn json_view(value: serde_json::Value) -> Json;

/// `serde_json::Value::get` with a string: the member of an object under that key;
/// `None` where the value is no object or has no such member.
#[verifier::external_body]
pub(crate) fn get<'a>(value: &'a serde_json::Value, key: &str) -> (r: Option<&'a serde_json::Value>)
    ensures
        match r {
            Some(member) => json_view(*value).member(key@) == Some(json_view(*member)),
            None => json_view(*value).member(key@) is None,
        },
{
    value.get(key)
}

/// `serde_json::Value::as_str`: the text of a JSON string; `None` for any other value.
pub assume_specification[ serde_json::Value::as_str ](value: &serde_json::Value) -> (r: Option<&str>)
    ensures
        match r {
            Some(s) => json_view(*value).text() == Some(s@),
            None => json_view(*value).text() is None,
        },
;

/// `serde_json::Value::from` for `&str`: the JSON string with that text.
#[verifier::external_body]
pub(crate) fn string(s: &str) -> (r: serde_json::Value)
    ensures
        json_view(r) == Json::Text(s@),
{
    serde_json::Value::from(s)
}

/// `serde_json::Value::from` for `bool`: that JSON truth value.
#[verifier::external_body]
pub(crate) fn boolean(b: bool) -> (r: serde_json::Value)
    ensures
        json_view(r) == Json::Bool(b),
{
    serde_json::Value::from(b)
}

/// `serde_json::Value::from` for `Vec<String>`: the JSON array of those strings, in order.
#[verifier::external_body]
pub(crate) fn strings(items: Vec<String>) -> (r: serde_json::Value)
    ensures
        json_view(r) == Json::Array(items@.map_values(|s: String| Json::Text(s@))),
{
    serde_json::Value::from(items)
}

/// The keys and the documents of a list of fields.
pub open spec fn fields_view(fields: Seq<(String, serde_json::Value)>) -> Seq<(Seq<char>, Json)> {
    fields.map_values(|f: (String, serde_json::Value)| (f.0@, json_view(f.1)))
}

/// `serde_json::Value::from_iter` over pairs: the JSON object with those members.
/// Nothing is said of lists in which a key stands twice.
#[verifier::external_body]
pub(crate) fn object(fields: Vec<(String, serde_json::Value)>) -> (r: serde_json::Value)
    requires
        distinct_keys(fields_view(fields@)),
    ensures
        json_view(r) == Json::Object(object_of(fields_view(fields@))),
{
    serde_json::Value::from_iter(fields)
}

/// The text of the string that an object holds under `key`.
pub fn text_member<'a>(value: &'a serde_json::Value, key: &str) -> (r: Option<&'a str>)
    ensures
        match r {
            Some(s) => json_view(*value).text_member(key@) == Some(s@),
            None => json_view(*value).text_member(key@) is None,
        },
{
    match get(value, key) {
        Some(member) => member.as_str(),
        None => None,
    }
}

// ---------------------------------------------------------------------------
// Laws.

/// An object has the members that stand in it, each under its key; nothing else has members.
pub proof fn law_members_stand_under_their_keys(
    members: Map<Seq<char>, Json>,
    key: Seq<char>,
    other: Json,
)
    ensures
        members.dom().contains(key) ==> Json::Object(members).member(key) == Some(members[key]),
        !members.dom().contains(key) ==> Json::Object(members).member(key) is None,
        !(other is Object) ==> other.member(key) is None,
{
}

/// A string has its characters as its text, all of them; nothing else has a text.
pub proof fn law_only_strings_are_texts(s: Seq<char>, other: Json)
    ensures
        Json::Text(s).text() == Some(s),
        !(other is Text) ==> other.text() is None,
{
}

/// The text under a key is that of the string that stands there; where no string does, there
/// is none.
pub proof fn law_text_members_are_strings(value: Json, key: Seq<char>, s: Seq<char>)
    ensures
        value.text_member(key) == Some(s) <==> value.member(key) == Some(Json::Text(s)),
{
}

/// An object with distinct keys holds every field that it is made of, and nothing else.
pub proof fn law_object_holds_its_fields(fields: Seq<(Seq<char>, Json)>)
    requires
        distinct_keys(fields),
    ensures
        forall|i: int|
            #![trigger fields[i]]
            0 <= i < fields.len() ==> object_of(fields).contains_key(fields[i].0) && object_of(
                fields,
            )[fields[i].0] == fields[i].1,
        forall|key: Seq<char>| #[trigger]
            object_of(fields).contains_key(key) ==> exists|i: int|
                0 <= i < fields.len() && (#[trigger] fields[i]).0 == key,
    decreases fields.len(),
{
    if fields.len() > 0 {
        let rest = fields.drop_last();
        assert forall|i: int, j: int| 0 <= i < j < rest.len() implies (#[trigger] rest[i]).0 != (
        #[trigger] rest[j]).0 by {
            assert(fields[i].0 != fields[j].0);
        }
        law_object_holds_its_fields(rest);
        assert forall|i: int|
            #![trigger fields[i]]
            0 <= i < fields.len() implies object_of(fields).contains_key(fields[i].0) && object_of(
            fields,
        )[fields[i].0] == fields[i].1 by {
            if i < rest.len() {
                assert(rest[i] == fields[i]);
                assert(fields[i].0 != fields[fields.len() - 1].0);
            }
        }
        assert forall|key: Seq<char>| #[trigger] object_of(fields).contains_key(key) implies exists|
            i: int,
        |
            0 <= i < fields.len() && (#[trigger] fields[i]).0 == key by {
            if key == fields.last().0 {
                assert(fields[fields.len() - 1].0 == key);
            } else {
                assert(object_of(rest).contains_key(key));
                let i = choose|i: int| 0 <= i < rest.len() && (#[trigger] rest[i]).0 == key;
                assert(fields[i].0 == key);
            }
        }
    }
}

/// Of a list of fields, every one is seen at its place, with its key and its document.
pub proof fn law_fields_are_seen_whole(fields: Seq<(String, serde_json::Value)>)
    ensures
        fields_view(fields).len() == fields.len(),
        forall|i: int|
            0 <= i < fields.len() ==> #[trigger] fields_view(fields)[i] == (
                fields[i].0@,
                json_view(fields[i].1),
            ),
{
}

/// Where keys are distinct, no two fields stand under the same one.
pub proof fn law_distinct_keys_are_distinct(fields: Seq<(Seq<char>, Json)>, i: int, j: int)
    requires
        distinct_keys(fields),
        0 <= i < fields.len(),
        0 <= j < fields.len(),
        fields[i].0 == fields[j].0,
    ensures
        i == j,
{
}


} // verus!
