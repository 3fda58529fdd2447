//! Reading the members of JSON objects.
//!
//! A member that must be there is missing where the value is no object,
//! where the object has no member of that name, and where the member is of
//! another kind. A member that may be missing is also missing where it is
//! `null`, and it is an error where it is of another kind.

use crate::json::{Json, JsonValue};
use vstd::prelude::*;

verus! {

/// The text of an optional string.
pub open spec fn text_of(s: Option<String>) -> Option<Seq<char>> {
    match s {
        Some(t) => Some(t@),
        None => None,
    }
}

/// The text of the member `key`, which must be there and be a string.
pub open spec fn string_member(v: JsonValue, key: Seq<char>) -> Option<Seq<char>> {
    match v.field(key) {
        Some(JsonValue::String(t)) => Some(t),
        _ => None,
    }
}

/// The text of the member `key`, which may be missing or `null`; nothing
/// where it is anything but a string or `null`.
pub open spec fn optional_string_member(v: JsonValue, key: Seq<char>) -> Option<
    Option<Seq<char>>,
> {
    match v.field(key) {
        None => Some(None),
        Some(JsonValue::Null) => Some(None),
        Some(JsonValue::String(t)) => Some(Some(t)),
        _ => None,
    }
}

/// The member `key` as a whole number from 0 to `max`, which must be there.
pub open spec fn unsigned_member(v: JsonValue, key: Seq<char>, max: int) -> Option<int> {
    match v.field(key) {
        Some(JsonValue::UInt(n)) => if 0 <= n <= max {
            Some(n)
        } else {
            None
        },
        _ => None,
    }
}

/// The member `key` as a size, which must be there and be an integer from 0
/// to `usize::MAX`.
pub open spec fn size_member(v: JsonValue, key: Seq<char>) -> Option<int> {
    unsigned_member(v, key, usize::MAX as int)
}

/// The whole number of 64 bits that a value is.
pub open spec fn integer_of(v: JsonValue) -> Option<int> {
    match v {
        JsonValue::UInt(n) => if n <= i64::MAX {
            Some(n)
        } else {
            None
        },
        JsonValue::Int(n) => Some(n),
        _ => None,
    }
}

/// The member `key` as a whole number of 64 bits, which must be there.
pub open spec fn integer_member(v: JsonValue, key: Seq<char>) -> Option<int> {
    match v.field(key) {
        Some(member) => integer_of(member),
        None => None,
    }
}

/// The member `key` as a whole number of 64 bits, which may be missing or
/// `null`; nothing where it is anything else.
pub open spec fn optional_integer_member(v: JsonValue, key: Seq<char>) -> Option<Option<int>> {
    match v.field(key) {
        None => Some(None),
        Some(JsonValue::Null) => Some(None),
        Some(member) => match integer_of(member) {
            Some(n) => Some(Some(n)),
            None => None,
        },
    }
}

/// The member `key` as a truth value, which must be there.
pub open spec fn flag_member(v: JsonValue, key: Seq<char>) -> Option<bool> {
    match v.field(key) {
        Some(JsonValue::Bool(b)) => Some(b),
        _ => None,
    }
}

/// The member `key`, where it is there and not `null`.
pub open spec fn present_member(v: JsonValue, key: Seq<char>) -> Option<JsonValue> {
    match v.field(key) {
        Some(JsonValue::Null) => None,
        other => other,
    }
}

/// The value of an optional whole number.
pub open spec fn number_of(n: Option<i64>) -> Option<int> {
    match n {
        Some(n) => Some(n as int),
        None => None,
    }
}

/// Reads the string member `key`.
pub fn read_string_member(v: &Json, key: &str) -> (r: Option<String>)
    ensures
        text_of(r) == string_member(v@, key@),
{
    match v.get(key) {
        Some(member) => match member.as_str() {
            Some(t) => Some(t.clone()),
            None => None,
        },
        None => None,
    }
}

/// Reads the string member `key`, which may be missing or `null`.
pub fn read_optional_string_member(v: &Json, key: &str) -> (r: Option<Option<String>>)
    ensures
        r is Some <==> optional_string_member(v@, key@) is Some,
        r matches Some(t) ==> Some(text_of(t)) == optional_string_member(v@, key@),
{
    match v.get(key) {
        Some(member) => match member {
            Json::Null => Some(None),
            Json::String(t) => Some(Some(t.clone())),
            _ => None,
        },
        None => Some(None),
    }
}

/// Reads the member `key` as a whole number from 0 to `max`.
pub fn read_unsigned_member(v: &Json, key: &str, max: u64) -> (r: Option<u64>)
    ensures
        r is Some <==> unsigned_member(v@, key@, max as int) is Some,
        r matches Some(n) ==> Some(n as int) == unsigned_member(v@, key@, max as int) && n <= max,
{
    match v.get(key) {
        Some(member) => match member.as_u64() {
            Some(n) => if n <= max {
                Some(n)
            } else {
                None
            },
            None => None,
        },
        None => None,
    }
}

/// Reads the size member `key`.
pub fn read_size_member(v: &Json, key: &str) -> (r: Option<usize>)
    ensures
        r is Some <==> size_member(v@, key@) is Some,
        r matches Some(n) ==> Some(n as int) == size_member(v@, key@),
{
    match read_unsigned_member(v, key, usize::MAX as u64) {
        Some(n) => Some(n as usize),
        None => None,
    }
}

/// Reads a whole number of 64 bits.
pub fn read_integer(v: &Json) -> (r: Option<i64>)
    ensures
        number_of(r) == integer_of(v@),
{
    match v {
        Json::UInt(n) => if *n <= i64::MAX as u64 {
            Some(*n as i64)
        } else {
            None
        },
        Json::Int(n) => Some(*n),
        _ => None,
    }
}

/// Reads the member `key` as a whole number of 64 bits.
pub fn read_integer_member(v: &Json, key: &str) -> (r: Option<i64>)
    ensures
        number_of(r) == integer_member(v@, key@),
{
    match v.get(key) {
        Some(member) => read_integer(member),
        None => None,
    }
}

/// Reads the member `key` as a whole number that may be missing.
pub fn read_optional_integer_member(v: &Json, key: &str) -> (r: Option<Option<i64>>)
    ensures
        r is Some <==> optional_integer_member(v@, key@) is Some,
        r matches Some(n) ==> Some(number_of(n)) == optional_integer_member(v@, key@),
{
    match v.get(key) {
        None => Some(None),
        Some(member) => match member {
            Json::Null => Some(None),
            _ => match read_integer(member) {
                Some(n) => Some(Some(n)),
                None => None,
            },
        },
    }
}

/// Reads the member `key` as a truth value.
pub fn read_flag_member(v: &Json, key: &str) -> (r: Option<bool>)
    ensures
        r == flag_member(v@, key@),
{
    match v.get(key) {
        Some(Json::Bool(b)) => Some(*b),
        _ => None,
    }
}

/// Reads the member `key`, where it is there and not `null`.
pub fn read_present_member<'a>(v: &'a Json, key: &str) -> (r: Option<&'a Json>)
    ensures
        r is Some <==> present_member(v@, key@) is Some,
        r matches Some(j) ==> Some(j@) == present_member(v@, key@),
{
    match v.get(key) {
        Some(member) => match member {
            Json::Null => None,
            _ => Some(member),
        },
        None => None,
    }
}

/// The JSON form of an optional text: the text, or `null`.
pub open spec fn optional_string_json(text: Option<String>) -> JsonValue {
    match text {
        Some(t) => JsonValue::String(t@),
        None => JsonValue::Null,
    }
}

/// The JSON form of an optional text.
pub fn optional_string_to_json(text: &Option<String>) -> (r: Json)
    ensures
        r@ == optional_string_json(*text),
{
    match text {
        Some(t) => Json::string(t.as_str()),
        None => Json::Null,
    }
}

/// The JSON form of a whole number.
pub open spec fn integer_json(n: int) -> JsonValue {
    if n < 0 {
        JsonValue::Int(n)
    } else {
        JsonValue::UInt(n)
    }
}

/// The JSON form of a whole number of 64 bits.
pub fn integer_to_json(n: i64) -> (r: Json)
    ensures
        r@ == integer_json(n as int),
{
    if n < 0 {
        Json::Int(n)
    } else {
        Json::UInt(n as u64)
    }
}

} // verus!
