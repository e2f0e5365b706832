//! A JSON document as plain values, and the lookups that the stock check makes in it:
//! indexing by key and by position, where whatever is missing reads as null.

use vstd::prelude::*;

verus! {

/// A JSON number, by what can be read from it: the integer it holds when it is one that
/// fits an `i64`, and the decimal text of its value as a 64-bit float.
pub struct JsonNumber {
    pub int: Option<i64>,
    pub float_text: String,
}

/// A JSON value. An object keeps its members in order; a key is looked up at its first
/// occurrence.
pub enum JsonValue {
    Null,
    Bool(bool),
    Number(JsonNumber),
    Str(String),
    Array(Vec<JsonValue>),
    Object(Vec<(String, JsonValue)>),
}

/// The value of the first member named `key`, or null when there is none.
pub open spec fn lookup(members: Seq<(String, JsonValue)>, key: Seq<char>) -> JsonValue
    decreases members.len(),
{
    if members.len() == 0 {
        JsonValue::Null
    } else if members[0].0@ == key {
        members[0].1
    } else {
        lookup(members.drop_first(), key)
    }
}

/// `value[key]`: the member of an object, null for a missing member or a value that is
/// no object.
pub open spec fn index_key(value: JsonValue, key: Seq<char>) -> JsonValue {
    match value {
        JsonValue::Object(members) => lookup(members@, key),
        _ => JsonValue::Null,
    }
}

/// `value[pos]`: the element of an array, null past its end or for a value that is no array.
pub open spec fn index_pos(value: JsonValue, pos: int) -> JsonValue {
    match value {
        JsonValue::Array(items) => if 0 <= pos < items@.len() {
            items@[pos]
        } else {
            JsonValue::Null
        },
        _ => JsonValue::Null,
    }
}

/// A reference read as a value, an absent one as null.
pub open spec fn or_null(found: Option<&JsonValue>) -> JsonValue {
    match found {
        Some(v) => *v,
        None => JsonValue::Null,
    }
}

/// `value.as_i64()`.
pub open spec fn as_int(value: JsonValue) -> Option<i64> {
    match value {
        JsonValue::Number(n) => n.int,
        _ => None,
    }
}

/// `value.as_str()`, by its characters.
pub open spec fn as_text(value: JsonValue) -> Option<Seq<char>> {
    match value {
        JsonValue::Str(s) => Some(s@),
        _ => None,
    }
}

/// `value.as_f64()`, by the decimal text of the float.
pub open spec fn as_float_text(value: JsonValue) -> Option<Seq<char>> {
    match value {
        JsonValue::Number(n) => Some(n.float_text@),
        _ => None,
    }
}

/// `value[key]`, an absent result meaning null.
pub fn get_key<'a>(value: &'a JsonValue, key: &str) -> (found: Option<&'a JsonValue>)
    ensures
        or_null(found) == index_key(*value, key@),
{
    match value {
        JsonValue::Object(members) => {
            let target = String::from_str(key);
            let mut i: usize = 0;
            assert(members@.skip(0) =~= members@);
            while i < members.len()
                invariant
                    i <= members@.len(),
                    target@ == key@,
                    index_key(*value, key@) == lookup(members@, key@),
                    lookup(members@, key@) == lookup(members@.skip(i as int), key@),
                decreases members@.len() - i,
            {
                assert(members@.skip(i as int)[0] == members@[i as int]);
                if members[i].0 == target {
                    assert(lookup(members@.skip(i as int), key@) == members@[i as int].1);
                    return Some(&members[i].1);
                }
                assert(members@.skip(i as int).drop_first() =~= members@.skip(i + 1));
                i = i + 1;
            }
            assert(members@.skip(i as int).len() == 0);
            None
        },
        _ => None,
    }
}

/// `found[key]` of a looked-up value, an absent result meaning null.
pub fn key_of<'a>(found: Option<&'a JsonValue>, key: &str) -> (next: Option<&'a JsonValue>)
    ensures
        or_null(next) == index_key(or_null(found), key@),
{
    match found {
        Some(v) => get_key(v, key),
        None => None,
    }
}

/// `found[pos]` of a looked-up value, an absent result meaning null.
pub fn pos_of<'a>(found: Option<&'a JsonValue>, pos: usize) -> (next: Option<&'a JsonValue>)
    ensures
        or_null(next) == index_pos(or_null(found), pos as int),
{
    match found {
        Some(v) => get_pos(v, pos),
        None => None,
    }
}

/// `value[pos]`, an absent result meaning null.
pub fn get_pos<'a>(value: &'a JsonValue, pos: usize) -> (found: Option<&'a JsonValue>)
    ensures
        or_null(found) == index_pos(*value, pos as int),
{
    match value {
        JsonValue::Array(items) => {
            if pos < items.len() {
                Some(&items[pos])
            } else {
                None
            }
        },
        _ => None,
    }
}

/// `found.as_i64()` of a looked-up value.
pub fn int_of(found: Option<&JsonValue>) -> (n: Option<i64>)
    ensures
        n == as_int(or_null(found)),
{
    match found {
        Some(JsonValue::Number(num)) => num.int,
        _ => None,
    }
}

/// `found.is_null()` of a looked-up value.
pub fn is_null(found: Option<&JsonValue>) -> (b: bool)
    ensures
        b == (or_null(found) is Null),
{
    match found {
        Some(JsonValue::Null) => true,
        None => true,
        _ => false,
    }
}

/// `found.as_str()` of a looked-up value, copied.
pub fn text_of(found: Option<&JsonValue>) -> (s: Option<String>)
    ensures
        match s {
            Some(t) => as_text(or_null(found)) == Some(t@),
            None => as_text(or_null(found)) is None,
        },
{
    match found {
        Some(JsonValue::Str(t)) => Some(t.clone()),
        _ => None,
    }
}

/// `found.as_f64()` of a looked-up value, as the decimal text of the float.
pub fn float_text_of(found: Option<&JsonValue>) -> (s: Option<String>)
    ensures
        match s {
            Some(t) => as_float_text(or_null(found)) == Some(t@),
            None => as_float_text(or_null(found)) is None,
        },
{
    match found {
        Some(JsonValue::Number(num)) => Some(num.float_text.clone()),
        _ => None,
    }
}

} // verus!
