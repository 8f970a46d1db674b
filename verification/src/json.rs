//! JSON documents as the device clients read them: a document is looked
//! into by member name and by position, and what is missing or of another
//! shape reads as nothing.

use vstd::prelude::*;
use vstd::string::*;

use crate::text::str_eq;

verus! {

/// A JSON value. A number is held when it is a whole number that fits 64
/// bits; any other number is a `Fraction`, whose value nothing here reads.
#[derive(Debug, PartialEq, Eq)]
pub enum Json {
    Null,
    Bool(bool),
    Int(i64),
    Fraction,
    Text(String),
    Array(Vec<Json>),
    Object(Vec<Member>),
}

/// A member of a JSON object.
#[derive(Debug, PartialEq, Eq)]
pub struct Member {
    pub key: String,
    pub value: Json,
}

/// The place of the first member at or after `from` with the key `key`,
/// or the number of members.
pub open spec fn member_from(members: Seq<Member>, key: Seq<char>, from: int) -> int
    decreases members.len() - from,
{
    if from < 0 || from >= members.len() {
        members.len() as int
    } else if members[from].key@ == key {
        from
    } else {
        member_from(members, key, from + 1)
    }
}

/// The member `key` of an object; nothing for a value that is no object
/// or has no such member.
pub open spec fn member(json: Json, key: Seq<char>) -> Option<Json> {
    match json {
        Json::Object(members) => {
            let at = member_from(members@, key, 0);
            if at < members@.len() {
                Some(members@[at].value)
            } else {
                None
            }
        },
        _ => None,
    }
}

/// The element at `index` of an array; nothing for a value that is no
/// array or is shorter.
pub open spec fn element(json: Json, index: int) -> Option<Json> {
    match json {
        Json::Array(items) => if 0 <= index < items@.len() {
            Some(items@[index])
        } else {
            None
        },
        _ => None,
    }
}

/// The text of a value that is a text.
pub open spec fn text_of(json: Json) -> Option<Seq<char>> {
    match json {
        Json::Text(text) => Some(text@),
        _ => None,
    }
}

/// The number of a value that is a whole number.
pub open spec fn int_of(json: Json) -> Option<i64> {
    match json {
        Json::Int(number) => Some(number),
        _ => None,
    }
}

/// The flag of a value that is a boolean.
pub open spec fn bool_of(json: Json) -> Option<bool> {
    match json {
        Json::Bool(flag) => Some(flag),
        _ => None,
    }
}

/// The member `key` of what may be a value.
pub open spec fn member_in(json: Option<Json>, key: Seq<char>) -> Option<Json> {
    match json {
        Some(json) => member(json, key),
        None => None,
    }
}

/// The element at `index` of what may be a value.
pub open spec fn element_in(json: Option<Json>, index: int) -> Option<Json> {
    match json {
        Some(json) => element(json, index),
        None => None,
    }
}

/// The text of what may be a value.
pub open spec fn text_in(json: Option<Json>) -> Option<Seq<char>> {
    match json {
        Some(json) => text_of(json),
        None => None,
    }
}

/// The whole number of what may be a value.
pub open spec fn int_in(json: Option<Json>) -> Option<i64> {
    match json {
        Some(json) => int_of(json),
        None => None,
    }
}

/// The value that a reference may point at.
pub open spec fn pointee(found: Option<&Json>) -> Option<Json> {
    match found {
        Some(json) => Some(*json),
        None => None,
    }
}

impl Json {
    /// The member `key` of an object.
    pub fn get(&self, key: &str) -> (found: Option<&Json>)
        ensures
            pointee(found) == member(*self, key@),
    {
        match self {
            Json::Object(members) => {
                let mut i: usize = 0;
                while i < members.len()
                    invariant
                        i <= members.len(),
                        *self == Json::Object(*members),
                        member_from(members@, key@, 0) == member_from(members@, key@, i as int),
                    decreases members.len() - i,
                {
                    if str_eq(members[i].key.as_str(), key) {
                        return Some(&members[i].value);
                    }
                    i += 1;
                }
                None
            },
            _ => None,
        }
    }

    /// The element at `index` of an array.
    pub fn at(&self, index: usize) -> (found: Option<&Json>)
        ensures
            pointee(found) == element(*self, index as int),
    {
        match self {
            Json::Array(items) => if index < items.len() {
                Some(&items[index])
            } else {
                None
            },
            _ => None,
        }
    }

    /// The text of a value that is a text.
    pub fn as_text(&self) -> (text: Option<String>)
        ensures
            text.deep_view() == text_of(*self),
    {
        match self {
            Json::Text(text) => Some(text.clone()),
            _ => None,
        }
    }

    /// The number of a value that is a whole number.
    pub fn as_int(&self) -> (number: Option<i64>)
        ensures
            number == int_of(*self),
    {
        match self {
            Json::Int(number) => Some(*number),
            _ => None,
        }
    }

    /// The flag of a value that is a boolean.
    pub fn as_flag(&self) -> (flag: Option<bool>)
        ensures
            flag == bool_of(*self),
    {
        match self {
            Json::Bool(flag) => Some(*flag),
            _ => None,
        }
    }

    /// Is the value null?
    pub fn is_null(&self) -> (yes: bool)
        ensures
            yes == (*self is Null),
    {
        match self {
            Json::Null => true,
            _ => false,
        }
    }
}

/// The member `key` of what may be a value.
pub fn get_in<'a>(json: Option<&'a Json>, key: &str) -> (found: Option<&'a Json>)
    ensures
        pointee(found) == member_in(pointee(json), key@),
{
    match json {
        Some(json) => json.get(key),
        None => None,
    }
}

/// The element at `index` of what may be a value.
pub fn at_in<'a>(json: Option<&'a Json>, index: usize) -> (found: Option<&'a Json>)
    ensures
        pointee(found) == element_in(pointee(json), index as int),
{
    match json {
        Some(json) => json.at(index),
        None => None,
    }
}

/// The text of what may be a value.
pub fn text_at(json: Option<&Json>) -> (text: Option<String>)
    ensures
        text.deep_view() == text_in(pointee(json)),
{
    match json {
        Some(json) => json.as_text(),
        None => None,
    }
}

/// The whole number of what may be a value.
pub fn int_at(json: Option<&Json>) -> (number: Option<i64>)
    ensures
        number == int_in(pointee(json)),
{
    match json {
        Some(json) => json.as_int(),
        None => None,
    }
}

} // verus!
