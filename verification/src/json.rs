//! JSON documents: what `serde_json` parses them to, and how they are looked up.
//!
//! The library reads documents through `serde_json::Value`. To the contracts such a value
//! is the [`Json`] that [`json_of`] gives, and the items below say what each method of
//! `serde_json` that the library calls makes of it.

use serde_json::Value;
use vstd::prelude::*;

verus! {

/// A JSON document as the contracts see it.
pub enum Json {
    Null,
    Bool(bool),
    /// A number kept as an integer.
    Integer(int),
    /// A number kept in floating point.
    Float,
    Text(Seq<char>),
    Array(Seq<Json>),
    Object(Map<Seq<char>, Json>),
}

impl Json {
    /// What the object holds under `key`, if this is an object that has the key.
    pub open spec fn member(self, key: Seq<char>) -> Option<Json> {
        match self {
            Json::Object(members) => if members.contains_key(key) {
                Some(members[key])
            } else {
                None
            },
            _ => None,
        }
    }

    /// What is reached by following `keys` from object to object.
    pub open spec fn at(self, keys: Seq<Seq<char>>) -> Option<Json>
        decreases keys.len(),
    {
        if keys.len() == 0 {
            Some(self)
        } else {
            match self.member(keys[0]) {
                Some(next) => next.at(keys.drop_first()),
                None => None,
            }
        }
    }

    /// The boolean that this is, if it is one.
    pub open spec fn boolean(self) -> Option<bool> {
        match self {
            Json::Bool(b) => Some(b),
            _ => None,
        }
    }

    /// The integer that this is, if it is one from 0 to 2^64 - 1.
    pub open spec fn unsigned(self) -> Option<u64> {
        match self {
            Json::Integer(n) => if 0 <= n <= u64::MAX {
                Some(n as u64)
            } else {
                None
            },
            _ => None,
        }
    }

    /// The integer that this is, if it is one from -2^63 to 2^63 - 1.
    pub open spec fn signed(self) -> Option<i64> {
        match self {
            Json::Integer(n) => if i64::MIN <= n <= i64::MAX {
                Some(n as i64)
            } else {
                None
            },
            _ => None,
        }
    }

    /// The text that this is, if it is one.
    pub open spec fn text(self) -> Option<Seq<char>> {
        match self {
            Json::Text(s) => Some(s),
            _ => None,
        }
    }

    /// The elements of the array that this is; none where it is something else.
    pub open spec fn elements(self) -> Seq<Json> {
        match self {
            Json::Array(items) => items,
            _ => Seq::empty(),
        }
    }
}

/// The unsigned integer that `keys` lead to.
pub open spec fn unsigned_at(doc: Json, keys: Seq<Seq<char>>) -> Option<u64> {
    match doc.at(keys) {
        Some(v) => v.unsigned(),
        None => None,
    }
}

/// The signed integer that `keys` lead to.
pub open spec fn signed_at(doc: Json, keys: Seq<Seq<char>>) -> Option<i64> {
    match doc.at(keys) {
        Some(v) => v.signed(),
        None => None,
    }
}

/// The boolean that `keys` lead to.
pub open spec fn boolean_at(doc: Json, keys: Seq<Seq<char>>) -> Option<bool> {
    match doc.at(keys) {
        Some(v) => v.boolean(),
        None => None,
    }
}

/// The text that `keys` lead to.
pub open spec fn text_at(doc: Json, keys: Seq<Seq<char>>) -> Option<Seq<char>> {
    match doc.at(keys) {
        Some(v) => v.text(),
        None => None,
    }
}

/// The elements of the array that `keys` lead to; none where there is no array.
pub open spec fn elements_at(doc: Json, keys: Seq<Seq<char>>) -> Seq<Json> {
    match doc.at(keys) {
        Some(v) => v.elements(),
        None => Seq::empty(),
    }
}

/// The JSON pointer that spells `keys`, each behind a slash.
pub open spec fn slashed(keys: Seq<Seq<char>>) -> Seq<char>
    decreases keys.len(),
{
    if keys.len() == 0 {
        Seq::empty()
    } else {
        seq!['/'] + keys[0] + slashed(keys.drop_first())
    }
}

/// A key that a JSON pointer spells without escapes and that is no array index.
pub open spec fn plain_key(key: Seq<char>) -> bool {
    &&& key.len() > 0
    &&& !key.contains('/')
    &&& !key.contains('~')
    &&& !('0' <= key[0] <= '9')
}

/// That `pointer` spells `keys`, all of them plain.
pub open spec fn spells(pointer: Seq<char>, keys: Seq<Seq<char>>) -> bool {
    &&& pointer == slashed(keys)
    &&& forall|i: int| 0 <= i < keys.len() ==> plain_key(#[trigger] keys[i])
}

/// The document that a lookup found.
pub open spec fn found(value: Option<&Value>) -> Option<Json> {
    match value {
        Some(v) => Some(json_of(*v)),
        None => None,
    }
}

/// `serde_json::Value`, a JSON document. What it holds is known as [`json_of`].
#[verifier::external_type_specification]
#[verifier::external_body]
pub struct ExValue(serde_json::Value);

/// `serde_json::Error`, why a text is no JSON. Nothing is known of it.
#[verifier::external_type_specification]
#[verifier::external_body]
pub struct ExError(serde_json::Error);

/// What a `serde_json::Value` holds: its objects by key, its arrays in order, its numbers as
/// integers where `serde_json` keeps them so.
pub uninterp spec fn json_of(value: Value) -> Json;

/// What `serde_json::from_slice` makes of a text, or `None` where it reports an error.
pub uninterp spec fn parsed(text: Seq<u8>) -> Option<Json>;

/// Calls `serde_json::from_slice` for a `Value`. Whether the text is accepted, and which
/// document comes back, depends on the bytes alone and has the name [`parsed`].
#[verifier::external_body]
pub(crate) fn parse_json(text: &[u8]) -> (r: Result<Value, serde_json::Error>)
    ensures
        match r {
            Ok(value) => parsed(text@) == Some(json_of(value)),
            Err(_) => parsed(text@) is None,
        },
{
    serde_json::from_slice(text)
}

/// Calls `serde_json::Value::get` with a string: the value under that key of an object, and
/// nothing for any other kind of value.
#[verifier::external_body]
pub(crate) fn get_member<'a>(value: &'a Value, key: &str) -> (r: Option<&'a Value>)
    ensures
        found(r) == json_of(*value).member(key@),
{
    value.get(key)
}

/// `serde_json::Value::pointer`: where the pointer spells keys without escapes, none of them an
/// array index, it follows them from object to object. What it does with escapes and with array
/// indices is not stated.
pub assume_specification<'a>[ serde_json::Value::pointer ](value: &'a Value, pointer: &str) -> (r:
    Option<&'a Value>)
    ensures
        forall|keys: Seq<Seq<char>>| #[trigger]
            spells(pointer@, keys) ==> found(r) == json_of(*value).at(keys),
;

/// `serde_json::Value::as_bool`: the boolean, for a boolean only.
pub assume_specification[ serde_json::Value::as_bool ](value: &Value) -> (r: Option<bool>)
    ensures
        r == json_of(*value).boolean(),
;

/// `serde_json::Value::as_u64`: the number, where it is kept as an integer that fits.
pub assume_specification[ serde_json::Value::as_u64 ](value: &Value) -> (r: Option<u64>)
    ensures
        r == json_of(*value).unsigned(),
;

/// `serde_json::Value::as_i64`: the number, where it is kept as an integer that fits.
pub assume_specification[ serde_json::Value::as_i64 ](value: &Value) -> (r: Option<i64>)
    ensures
        r == json_of(*value).signed(),
;

/// `serde_json::Value::as_str`: the text, for a string only.
pub assume_specification<'a>[ serde_json::Value::as_str ](value: &'a Value) -> (r: Option<&'a str>)
    ensures
        match r {
            Some(s) => json_of(*value).text() == Some(s@),
            None => json_of(*value).text() is None,
        },
;

/// `serde_json::Value::as_array`: the elements in order, for an array only.
pub assume_specification<'a>[ serde_json::Value::as_array ](value: &'a Value) -> (r: Option<
    &'a Vec<Value>,
>)
    ensures
        r is Some <==> json_of(*value) is Array,
        r matches Some(items) ==> json_of(*value).elements() == items@.map_values(
            |v: Value| json_of(v),
        ),
;

/// The unsigned integer under a pointer.
pub(crate) fn u64_at(value: &Value, pointer: &str) -> (r: Option<u64>)
    ensures
        forall|keys: Seq<Seq<char>>| #[trigger]
            spells(pointer@, keys) ==> r == unsigned_at(json_of(*value), keys),
{
    match value.pointer(pointer) {
        Some(v) => v.as_u64(),
        None => None,
    }
}

/// The signed integer under a pointer.
pub(crate) fn i64_at(value: &Value, pointer: &str) -> (r: Option<i64>)
    ensures
        forall|keys: Seq<Seq<char>>| #[trigger]
            spells(pointer@, keys) ==> r == signed_at(json_of(*value), keys),
{
    match value.pointer(pointer) {
        Some(v) => v.as_i64(),
        None => None,
    }
}

/// The boolean under a pointer.
pub(crate) fn bool_at(value: &Value, pointer: &str) -> (r: Option<bool>)
    ensures
        forall|keys: Seq<Seq<char>>| #[trigger]
            spells(pointer@, keys) ==> r == boolean_at(json_of(*value), keys),
{
    match value.pointer(pointer) {
        Some(v) => v.as_bool(),
        None => None,
    }
}

/// A copy of the text under a pointer.
pub(crate) fn string_at(value: &Value, pointer: &str) -> (r: Option<String>)
    ensures
        forall|keys: Seq<Seq<char>>| #[trigger]
            spells(pointer@, keys) ==> r.deep_view() == text_at(json_of(*value), keys),
{
    match value.pointer(pointer) {
        Some(v) => match v.as_str() {
            Some(s) => Some(s.to_string()),
            None => None,
        },
        None => None,
    }
}

/// The unsigned integer under a key.
pub(crate) fn member_u64(value: &Value, key: &str) -> (r: Option<u64>)
    ensures
        r == unsigned_at(json_of(*value), seq![key@]),
{
    proof {
        lemma_one_key(json_of(*value), key@);
    }
    match get_member(value, key) {
        Some(v) => v.as_u64(),
        None => None,
    }
}

/// The signed integer under a key.
pub(crate) fn member_i64(value: &Value, key: &str) -> (r: Option<i64>)
    ensures
        r == signed_at(json_of(*value), seq![key@]),
{
    proof {
        lemma_one_key(json_of(*value), key@);
    }
    match get_member(value, key) {
        Some(v) => v.as_i64(),
        None => None,
    }
}

/// A copy of the text under a key.
pub(crate) fn member_string(value: &Value, key: &str) -> (r: Option<String>)
    ensures
        r.deep_view() == text_at(json_of(*value), seq![key@]),
{
    proof {
        lemma_one_key(json_of(*value), key@);
    }
    match get_member(value, key) {
        Some(v) => match v.as_str() {
            Some(s) => Some(s.to_string()),
            None => None,
        },
        None => None,
    }
}

/// A path of one key leads to the member under that key.
pub proof fn lemma_one_key(doc: Json, key: Seq<char>)
    ensures
        doc.at(seq![key]) == doc.member(key),
{
    reveal_with_fuel(Json::at, 2);
}

/// A path of two keys goes through the member under the first one.
pub proof fn lemma_two_keys(doc: Json, first: Seq<char>, second: Seq<char>)
    ensures
        doc.at(seq![first, second]) == (match doc.member(first) {
            Some(next) => next.member(second),
            None => None,
        }),
{
    reveal_with_fuel(Json::at, 3);
    assert(seq![first, second].drop_first() =~= seq![second]);
}

} // verus!
