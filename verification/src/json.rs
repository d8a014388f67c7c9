//! A plain model of JSON documents, as much of them as the JSON-LD reading
//! of the scraper looks at: member lookup by key and string values.
use vstd::prelude::*;

use crate::search::{find_first, first_such, lemma_find_first_at, lemma_find_first_none};
use crate::text::text_eq;

verus! {

/// A JSON value. Numbers keep their textual form: nothing here computes with them.
pub enum JsonValue {
    Null,
    Bool(bool),
    Number(String),
    Text(String),
    Array(Vec<JsonValue>),
    Object(Vec<JsonMember>),
}

/// One `"key": value` member of a JSON object.
pub struct JsonMember {
    pub key: String,
    pub value: JsonValue,
}

/// The member predicate "has this key".
pub open spec fn key_is(key: Seq<char>) -> spec_fn(JsonMember) -> bool {
    |m: JsonMember| m.key@ == key
}

/// What `value.get(key)` gives: the value of the first member named `key`
/// when `value` is an object, and nothing otherwise.
pub open spec fn json_get(value: JsonValue, key: Seq<char>) -> Option<JsonValue> {
    match value {
        JsonValue::Object(members) => match first_such(members@, key_is(key)) {
            Some(m) => Some(m.value),
            None => None,
        },
        _ => None,
    }
}

/// The text of a JSON string value (`as_str`), and nothing for any other value.
pub open spec fn json_text(value: Option<JsonValue>) -> Option<Seq<char>> {
    match value {
        Some(JsonValue::Text(s)) => Some(s@),
        _ => None,
    }
}

/// The position of the first member named `key`.
pub fn member_position(members: &Vec<JsonMember>, key: &str) -> (r: Option<usize>)
    ensures
        match r {
            Some(k) => find_first(members@, key_is(key@)) == Some(k as int) && k < members@.len(),
            None => find_first(members@, key_is(key@)) is None,
        },
{
    let mut i: usize = 0;
    while i < members.len()
        invariant
            i <= members.len(),
            forall|j: int| 0 <= j < i ==> !key_is(key@)(#[trigger] members@[j]),
        decreases members.len() - i,
    {
        if text_eq(members[i].key.as_str(), key) {
            proof {
                lemma_find_first_at(members@, key_is(key@), i as int);
            }
            return Some(i);
        }
        i += 1;
    }
    proof {
        lemma_find_first_none(members@, key_is(key@));
    }
    None
}

impl JsonValue {
    /// The value of the member named `key`, when `self` is an object that has one.
    pub fn get(&self, key: &str) -> (r: Option<&JsonValue>)
        ensures
            match r {
                Some(v) => json_get(*self, key@) == Some(*v),
                None => json_get(*self, key@) is None,
            },
    {
        match self {
            JsonValue::Object(members) => match member_position(members, key) {
                Some(k) => Some(&members[k].value),
                None => None,
            },
            _ => None,
        }
    }

    /// The text of `self` when it is a JSON string.
    pub fn as_text(&self) -> (r: Option<&String>)
        ensures
            match r {
                Some(s) => json_text(Some(*self)) == Some(s@),
                None => json_text(Some(*self)) is None,
            },
    {
        match self {
            JsonValue::Text(s) => Some(s),
            _ => None,
        }
    }

    /// The text of the member named `key`, when there is one and it is a string.
    pub fn text_of(&self, key: &str) -> (r: Option<String>)
        ensures
            r.deep_view() == json_text(json_get(*self, key@)),
    {
        match self.get(key) {
            Some(v) => match v.as_text() {
                Some(s) => Some(s.clone()),
                None => None,
            },
            None => None,
        }
    }
}

// ---------------------------------------------------------------------------
// Parsing (the `serde_json` crate)
// ---------------------------------------------------------------------------

/// `serde_json`'s parsed value, carried from the parser to its conversion.
#[verifier::external_type_specification]
#[verifier::external_body]
pub struct ExSerdeJsonValue(serde_json::Value);

/// What `serde_json::from_str::<serde_json::Value>` makes of `text`, in this
/// model: `None` when the text is not one JSON document. Numbers keep the text
/// that `serde_json::Number` displays, and an object's members come in the order
/// of its `serde_json::Map` (sorted by key; of a repeated key, the last value).
pub uninterp spec fn json_parsed(text: Seq<char>) -> Option<JsonValue>;

/// Parses `text` with `serde_json::from_str::<serde_json::Value>` and converts
/// the value into the library's model; `None` when serde_json reports an error.
/// The result is named, not stated.
#[verifier::external_body]
pub(crate) fn parse_json(text: &str) -> (r: Option<JsonValue>)
    ensures
        r == json_parsed(text@),
{
    match serde_json::from_str::<serde_json::Value>(text) {
        Ok(v) => Some(from_serde(v)),
        Err(_) => None,
    }
}

/// Converts a `serde_json::Value` into the library's model, variant by variant
/// (used by `parse_json` only).
#[verifier::external_body]
fn from_serde(v: serde_json::Value) -> JsonValue {
    match v {
        serde_json::Value::Null => JsonValue::Null,
        serde_json::Value::Bool(b) => JsonValue::Bool(b),
        serde_json::Value::Number(n) => JsonValue::Number(n.to_string()),
        serde_json::Value::String(s) => JsonValue::Text(s),
        serde_json::Value::Array(items) => JsonValue::Array(items.into_iter().map(from_serde).collect()),
        serde_json::Value::Object(map) => JsonValue::Object(
            map.into_iter().map(|(key, value)| JsonMember { key, value: from_serde(value) }).collect(),
        ),
    }
}

} // verus!
