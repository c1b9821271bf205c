//! A mathematical model of JSON documents, and the contracts under which
//! `serde_json` is called to read and to write them.

use vstd::prelude::*;

verus! {

/// A JSON document as a mathematical value.
pub enum Json {
    Null,
    Bool(bool),
    /// A number that `serde_json` holds as a 64-bit integer, signed or unsigned.
    Int(int),
    /// Any other number, by the bit pattern of its double.
    Real(int),
    Text(Seq<char>),
    List(Seq<Json>),
    Object(Map<Seq<char>, Json>),
}

impl Json {
    /// The member `key` of an object; `None` for a missing key and for
    /// documents that are no objects.
    pub open spec fn member(self, key: Seq<char>) -> Option<Json> {
        match self {
            Json::Object(m) => if m.contains_key(key) {
                Some(m[key])
            } else {
                None
            },
            _ => None,
        }
    }

    /// The integer that the document stands for, where it fits `i64`.
    pub open spec fn as_i64(self) -> Option<i64> {
        match self {
            Json::Int(i) => if i64::MIN <= i <= i64::MAX {
                Some(i as i64)
            } else {
                None
            },
            _ => None,
        }
    }

    /// The integer that the document stands for, where it fits `u64`.
    pub open spec fn as_u64(self) -> Option<u64> {
        match self {
            Json::Int(i) => if 0 <= i <= u64::MAX {
                Some(i as u64)
            } else {
                None
            },
            _ => None,
        }
    }

    /// The characters of a text.
    pub open spec fn as_text(self) -> Option<Seq<char>> {
        match self {
            Json::Text(t) => Some(t),
            _ => None,
        }
    }

    /// Whether the document is an object of exactly `n` members.
    pub open spec fn has_members(self, n: nat) -> bool {
        match self {
            Json::Object(m) => m.dom().finite() && m.len() == n,
            _ => false,
        }
    }

    /// The items of a list.
    pub open spec fn as_list(self) -> Option<Seq<Json>> {
        match self {
            Json::List(items) => Some(items),
            _ => None,
        }
    }
}

/// The object with the given members. No key occurs twice in the documents
/// that this library writes.
pub open spec fn object_of(entries: Seq<(Seq<char>, Json)>) -> Map<Seq<char>, Json>
    decreases entries.len(),
{
    if entries.len() == 0 {
        Map::empty()
    } else {
        object_of(entries.drop_last()).insert(entries.last().0, entries.last().1)
    }
}

/// Whether no two entries share a key.
pub open spec fn distinct_keys(entries: Seq<(Seq<char>, Json)>) -> bool {
    forall|i: int, j: int|
        0 <= i < j < entries.len() ==> (#[trigger] entries[i]).0 != (#[trigger] entries[j]).0
}

/// `serde_json::Value`, of which nothing is seen but what the contracts below say.
#[verifier::external_type_specification]
#[verifier::external_body]
pub struct ExJsonValue(serde_json::Value);

/// `serde_json::Error`, which is passed on unread.
#[verifier::external_type_specification]
#[verifier::external_body]
pub struct ExJsonError(serde_json::Error);

/// The document that a `serde_json::Value` holds.
pub uninterp spec fn json_view(v: serde_json::Value) -> Json;

/// The document that `serde_json` reads from a text; `None` where it rejects
/// the text.
pub uninterp spec fn json_parsed(text: Seq<char>) -> Option<Json>;

/// The bytes that `serde_json` writes for a document, in its compact form
/// with the members of every object in the order of their keys.
pub uninterp spec fn json_encoding(doc: Json) -> Seq<u8>;

/// The documents of a vector of values, item by item.
pub open spec fn json_views(items: Seq<serde_json::Value>) -> Seq<Json> {
    Seq::new(items.len(), |i: int| json_view(items[i]))
}

/// The keys and documents of a vector of entries, item by item.
pub open spec fn entry_views(entries: Seq<(&str, serde_json::Value)>) -> Seq<(Seq<char>, Json)> {
    Seq::new(entries.len(), |i: int| (entries[i].0@, json_view(entries[i].1)))
}

/// `serde_json::from_str` at `serde_json::Value`. Whether the text is taken,
/// and the document read from it, depend on the text alone.
#[verifier::external_body]
pub(crate) fn parse_value(text: &str) -> (r: Result<serde_json::Value, serde_json::Error>)
    ensures
        match r {
            Ok(v) => json_parsed(text@) == Some(json_view(v)),
            Err(_) => json_parsed(text@) is None,
        },
{
    serde_json::from_str::<serde_json::Value>(text)
}

/// `serde_json::Value::as_i64`: the number, where the value is an integer that fits `i64`.
pub assume_specification[ serde_json::Value::as_i64 ](v: &serde_json::Value) -> (r: Option<i64>)
    ensures
        r == json_view(*v).as_i64(),
;

/// `serde_json::Value::as_u64`: the number, where the value is an integer that fits `u64`.
pub assume_specification[ serde_json::Value::as_u64 ](v: &serde_json::Value) -> (r: Option<u64>)
    ensures
        r == json_view(*v).as_u64(),
;

/// `serde_json::Value::is_null`: whether the value is `null`.
pub assume_specification[ serde_json::Value::is_null ](v: &serde_json::Value) -> (r: bool)
    ensures
        r == (json_view(*v) is Null),
;

/// `serde_json::Value::is_object`: whether the value is an object.
pub assume_specification[ serde_json::Value::is_object ](v: &serde_json::Value) -> (r: bool)
    ensures
        r == (json_view(*v) is Object),
;

/// `serde_json::Value::as_str`: the text, where the value is a string.
pub assume_specification<'a>[ serde_json::Value::as_str ](v: &'a serde_json::Value) -> (r: Option<
    &'a str,
>)
    ensures
        match r {
            Some(s) => json_view(*v).as_text() == Some(s@),
            None => json_view(*v).as_text() is None,
        },
;

/// `serde_json::Value::as_array`: the items, where the value is an array.
pub assume_specification<'a>[ serde_json::Value::as_array ](v: &'a serde_json::Value) -> (r: Option<
    &'a Vec<serde_json::Value>,
>)
    ensures
        match r {
            Some(items) => json_view(*v).as_list() == Some(json_views(items@)),
            None => json_view(*v).as_list() is None,
        },
;

/// `serde_json::Value::get` with a string key: the member of that name, where
/// the value is an object that has one.
#[verifier::external_body]
pub(crate) fn value_member<'a>(v: &'a serde_json::Value, key: &str) -> (r: Option<&'a serde_json::Value>)
    ensures
        match r {
            Some(m) => json_view(*v).member(key@) == Some(json_view(*m)),
            None => json_view(*v).member(key@) is None,
        },
{
    v.get(key)
}

/// `serde_json::Value::as_object` and `serde_json::Map::len`: the number of
/// members, where the value is an object. An object has finitely many.
#[verifier::external_body]
pub(crate) fn value_member_count(v: &serde_json::Value) -> (r: Option<usize>)
    ensures
        match r {
            Some(n) => json_view(*v).has_members(n as nat),
            None => !(json_view(*v) is Object),
        },
{
    match v.as_object() {
        Some(members) => Some(members.len()),
        None => None,
    }
}

/// `From<i64>` of `serde_json::Value`: the number as a JSON integer.
#[verifier::external_body]
pub(crate) fn value_of_int(n: i64) -> (v: serde_json::Value)
    ensures
        json_view(v) == Json::Int(n as int),
{
    serde_json::Value::from(n)
}

/// `From<&str>` of `serde_json::Value`: the text as a JSON string.
#[verifier::external_body]
pub(crate) fn value_of_text(text: &str) -> (v: serde_json::Value)
    ensures
        json_view(v) == Json::Text(text@),
{
    serde_json::Value::from(text)
}

/// `From<Vec<Value>>` of `serde_json::Value`: the items as a JSON array.
#[verifier::external_body]
pub(crate) fn value_of_list(items: Vec<serde_json::Value>) -> (v: serde_json::Value)
    ensures
        json_view(v) == Json::List(json_views(items@)),
{
    serde_json::Value::from(items)
}

/// `FromIterator<(K, V)>` of `serde_json::Value`: the entries as a JSON
/// object. Which of two entries with one key would stay is left open, so
/// the keys are to differ.
#[verifier::external_body]
pub(crate) fn value_of_entries(entries: Vec<(&str, serde_json::Value)>) -> (v: serde_json::Value)
    requires
        distinct_keys(entry_views(entries@)),
    ensures
        json_view(v) == Json::Object(object_of(entry_views(entries@))),
{
    entries.into_iter().collect()
}

/// `serde_json::to_vec` at `serde_json::Value`: the bytes depend on the
/// document alone, and writing a value into memory does not fail.
#[verifier::external_body]
pub(crate) fn value_bytes(v: &serde_json::Value) -> (bytes: Vec<u8>)
    ensures
        bytes@ == json_encoding(json_view(*v)),
{
    serde_json::to_vec(v).unwrap_or_default()
}

} // verus!
