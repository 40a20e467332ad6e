//! A JSON document as a tree of values, as the caller's parser hands it
//! over, with field lookup in objects.
use vstd::prelude::*;
use crate::error::Error;

verus! {

/// One JSON value. Numbers that are integers within `i64` are kept; any
/// other number (a fraction, an exponent, a larger integer) is `OtherNumber`.
/// An object lists its members in order, each key once.
#[derive(Debug)]
pub enum JsonValue {
    Null,
    Bool(bool),
    Int(i64),
    OtherNumber,
    Str(String),
    Array(Vec<JsonValue>),
    Object(Vec<(String, JsonValue)>),
}

/// The value of the member named `key`; where a key occurs twice the later
/// member counts, as when a parser inserts members into a map in order.
pub open spec fn get_field(fields: Seq<(String, JsonValue)>, key: Seq<char>) -> Option<JsonValue>
    decreases fields.len(),
{
    if fields.len() == 0 {
        None
    } else if fields.last().0@ == key {
        Some(fields.last().1)
    } else {
        get_field(fields.drop_last(), key)
    }
}

/// Whether the member `key` is a string whose text is `s`.
pub open spec fn str_at(fields: Seq<(String, JsonValue)>, key: Seq<char>, s: Seq<char>) -> bool {
    get_field(fields, key) matches Some(JsonValue::Str(t)) && t@ == s
}

/// Whether the member `key` is the integer `n`.
pub open spec fn int_at(fields: Seq<(String, JsonValue)>, key: Seq<char>, n: int) -> bool {
    get_field(fields, key) matches Some(JsonValue::Int(m)) && m as int == n
}

/// Whether the member `key` is an integer in `lo..=hi`.
pub open spec fn int_in(fields: Seq<(String, JsonValue)>, key: Seq<char>, lo: int, hi: int) -> bool {
    get_field(fields, key) matches Some(JsonValue::Int(m)) && lo <= m && m <= hi
}

/// Appending a member changes only the lookup of its own key.
pub proof fn lemma_get_field_push(fields: Seq<(String, JsonValue)>, member: (String, JsonValue))
    ensures
        forall|key: Seq<char>| #[trigger]
            get_field(fields.push(member), key) == (if member.0@ == key {
                Some(member.1)
            } else {
                get_field(fields, key)
            }),
{
    assert(fields.push(member).drop_last() =~= fields);
}

/// Finds the member named `key`, the last one where the key repeats.
pub fn field<'a>(fields: &'a Vec<(String, JsonValue)>, key: &str) -> (r: Option<&'a JsonValue>)
    ensures
        r matches Some(v) ==> get_field(fields@, key@) == Some(*v),
        r is None ==> get_field(fields@, key@) is None,
{
    let wanted = key.to_owned();
    let mut i: usize = fields.len();
    assert(fields@.subrange(0, i as int) =~= fields@);
    while i > 0
        invariant
            i <= fields@.len(),
            wanted@ == key@,
            get_field(fields@, key@) == get_field(fields@.subrange(0, i as int), key@),
        decreases i,
    {
        let ghost prefix = fields@.subrange(0, i as int);
        assert(prefix.drop_last() =~= fields@.subrange(0, i - 1));
        if fields[i - 1].0 == wanted {
            return Some(&fields[i - 1].1);
        }
        i = i - 1;
    }
    None
}

/// The text of the string member `key`; a protocol error where it is
/// missing or not a string.
pub fn field_str(fields: &Vec<(String, JsonValue)>, key: &str) -> (r: Result<String, Error>)
    ensures
        match get_field(fields@, key@) {
            Some(JsonValue::Str(t)) => r matches Ok(s) && s@ == t@,
            _ => r == Err::<String, Error>(Error::Protocol),
        },
{
    match field(fields, key) {
        Some(JsonValue::Str(t)) => Ok(t.clone()),
        _ => Err(Error::Protocol),
    }
}

/// The integer member `key` when it lies in `lo..=hi`; a protocol error
/// where it is missing, not an integer, or out of that range.
pub fn field_int(fields: &Vec<(String, JsonValue)>, key: &str, lo: i64, hi: i64) -> (r: Result<
    i64,
    Error,
>)
    ensures
        int_in(fields@, key@, lo as int, hi as int) ==> (r matches Ok(n) && int_at(
            fields@,
            key@,
            n as int,
        )),
        !int_in(fields@, key@, lo as int, hi as int) ==> r == Err::<i64, Error>(Error::Protocol),
{
    match field(fields, key) {
        Some(JsonValue::Int(n)) => {
            if lo <= *n && *n <= hi {
                Ok(*n)
            } else {
                Err(Error::Protocol)
            }
        },
        _ => Err(Error::Protocol),
    }
}

/// A string member, ready to append to an object.
pub fn str_member(key: &str, value: &String) -> (r: (String, JsonValue))
    ensures
        r.0@ == key@,
        r.1 matches JsonValue::Str(t) && t@ == value@,
{
    (key.to_owned(), JsonValue::Str(value.clone()))
}

/// An integer member, ready to append to an object.
pub fn int_member(key: &str, value: i64) -> (r: (String, JsonValue))
    ensures
        r.0@ == key@,
        r.1 == JsonValue::Int(value),
{
    (key.to_owned(), JsonValue::Int(value))
}

} // verus!
