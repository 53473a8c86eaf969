//! The library's model of a JSON document.
//!
//! A number is kept as its decimal text (the logic never does arithmetic on
//! one), and an object as its members in source order, looked up by first
//! match.

use vstd::prelude::*;

verus! {

/// A JSON value as the library models it.
#[derive(Debug, PartialEq, Eq)]
pub enum JsonValue {
    Null,
    Bool(bool),
    /// A number, kept as the text of its literal.
    Number(String),
    Text(String),
    Array(Vec<JsonValue>),
    Object(Vec<(String, JsonValue)>),
}

/// The value of the first member named `key`, if any.
pub open spec fn spec_member(pairs: Seq<(String, JsonValue)>, key: Seq<char>) -> Option<JsonValue>
    decreases pairs.len(),
{
    if pairs.len() == 0 {
        None
    } else if pairs[0].0@ == key {
        Some(pairs[0].1)
    } else {
        spec_member(pairs.drop_first(), key)
    }
}

/// The value of member `key` of `v`, when `v` is an object that has one.
pub open spec fn spec_field(v: JsonValue, key: Seq<char>) -> Option<JsonValue> {
    match v {
        JsonValue::Object(pairs) => spec_member(pairs@, key),
        _ => None,
    }
}

/// The text of member `key` of `v`, when `v` is an object whose member
/// `key` is a string.
pub open spec fn spec_str_field(v: JsonValue, key: Seq<char>) -> Option<Seq<char>> {
    match spec_field(v, key) {
        Some(JsonValue::Text(s)) => Some(s@),
        _ => None,
    }
}

/// Whether two string slices hold the same characters.
pub fn str_eq(a: &str, b: &str) -> (r: bool)
    ensures
        r == (a@ == b@),
{
    let sa: String = a.to_owned();
    let sb: String = b.to_owned();
    sa == sb
}

/// Looks up the first member named `key`.
pub fn get_member<'a>(pairs: &'a Vec<(String, JsonValue)>, key: &str) -> (r: Option<
    &'a JsonValue,
>)
    ensures
        match r {
            Some(v) => spec_member(pairs@, key@) == Some(*v),
            None => spec_member(pairs@, key@) is None,
        },
{
    let mut i: usize = 0;
    proof {
        assert(pairs@.skip(0) =~= pairs@);
    }
    while i < pairs.len()
        invariant
            i <= pairs.len(),
            spec_member(pairs@, key@) == spec_member(pairs@.skip(i as int), key@),
        decreases pairs.len() - i,
    {
        if str_eq(pairs[i].0.as_str(), key) {
            assert(pairs@.skip(i as int)[0] == pairs@[i as int]);
            return Some(&pairs[i].1);
        }
        proof {
            assert(pairs@.skip(i as int).drop_first() =~= pairs@.skip(i + 1));
            assert(pairs@.skip(i as int)[0] == pairs@[i as int]);
        }
        i = i + 1;
    }
    proof {
        assert(pairs@.skip(i as int).len() == 0);
    }
    None
}

/// The member `key` of `v`, when `v` is an object that has one.
pub fn get_field<'a>(v: &'a JsonValue, key: &str) -> (r: Option<&'a JsonValue>)
    ensures
        match r {
            Some(f) => spec_field(*v, key@) == Some(*f),
            None => spec_field(*v, key@) is None,
        },
{
    match v {
        JsonValue::Object(pairs) => get_member(pairs, key),
        _ => None,
    }
}

/// The text of member `key` of `v`, when that member is a string.
pub fn get_str_field<'a>(v: &'a JsonValue, key: &str) -> (r: Option<&'a String>)
    ensures
        match r {
            Some(s) => spec_str_field(*v, key@) == Some(s@),
            None => spec_str_field(*v, key@) is None,
        },
{
    match get_field(v, key) {
        Some(JsonValue::Text(s)) => Some(s),
        _ => None,
    }
}

} // verus!
