//! The prober's JSON report, modelled as a value the verifier can see.
//!
//! Parsing the report's text is delegated to `serde_json`; everything
//! read out of the parsed tree afterwards is verified code over
//! [`JsonValue`].

use crate::paths::str_eq;
use vstd::prelude::*;

verus! {

/// A JSON document.  Numbers that are non-negative integers fitting in 64
/// bits are held exactly; any other number is only remembered to be one.
#[derive(Debug)]
pub enum JsonValue {
    Null,
    Bool(bool),
    /// A number that is a non-negative integer fitting in 64 bits.
    UInt(u64),
    /// Any other number: negative, fractional, or out of range.
    NumOther,
    Str(String),
    Arr(Vec<JsonValue>),
    Obj(Vec<(String, JsonValue)>),
}

/// What `serde_json` parses the text into, converted member for member
/// into a [`JsonValue`]; `None` when the text is not valid JSON.
pub uninterp spec fn json_of(text: Seq<char>) -> Option<JsonValue>;

#[verifier::external_type_specification]
#[verifier::external_body]
pub struct ExSerdeJsonValue(serde_json::Value);

/// Converts `serde_json`'s tree into the library's, variant by variant.
/// A number is kept when `as_u64` can read it and marked otherwise.
#[verifier::external_body]
fn convert_json(v: serde_json::Value) -> JsonValue {
    match v {
        serde_json::Value::Null => JsonValue::Null,
        serde_json::Value::Bool(b) => JsonValue::Bool(b),
        serde_json::Value::Number(n) => match n.as_u64() {
            Some(u) => JsonValue::UInt(u),
            None => JsonValue::NumOther,
        },
        serde_json::Value::String(s) => JsonValue::Str(s),
        serde_json::Value::Array(items) => JsonValue::Arr(
            items.into_iter().map(convert_json).collect(),
        ),
        serde_json::Value::Object(members) => JsonValue::Obj(
            members.into_iter().map(|(k, m)| (k, convert_json(m))).collect(),
        ),
    }
}

/// Relies on `serde_json::from_str`: the parse of a JSON text is a
/// function of the text alone, here named [`json_of`].
#[verifier::external_body]
pub fn parse_json(text: &str) -> (r: Option<JsonValue>)
    ensures
        r == json_of(text@),
{
    match serde_json::from_str::<serde_json::Value>(text) {
        Ok(v) => Some(convert_json(v)),
        Err(_) => None,
    }
}

/// The first member of `pairs` carrying `key`, if any.
pub open spec fn spec_obj_lookup(pairs: Seq<(String, JsonValue)>, key: Seq<char>) -> Option<
    JsonValue,
>
    decreases pairs.len(),
{
    if pairs.len() == 0 {
        Option::None
    } else if pairs[0].0@ == key {
        Option::Some(pairs[0].1)
    } else {
        spec_obj_lookup(pairs.drop_first(), key)
    }
}

/// The member `key` of `v`, when `v` is an object that has it.
pub open spec fn spec_json_get(v: JsonValue, key: Seq<char>) -> Option<JsonValue> {
    match v {
        JsonValue::Obj(pairs) => spec_obj_lookup(pairs@, key),
        _ => Option::None,
    }
}

/// The element `i` of `v`, when `v` is an array that long.
pub open spec fn spec_json_index(v: JsonValue, i: int) -> Option<JsonValue> {
    match v {
        JsonValue::Arr(items) => if 0 <= i < items@.len() {
            Option::Some(items@[i])
        } else {
            Option::None
        },
        _ => Option::None,
    }
}

impl JsonValue {
    /// Looks up a member of an object; `None` on any other kind of value.
    pub fn get<'a>(&'a self, key: &str) -> (r: Option<&'a JsonValue>)
        ensures
            r matches Some(m) ==> spec_json_get(*self, key@) == Some(*m),
            r is None ==> spec_json_get(*self, key@) is None,
    {
        let pairs = match self {
            JsonValue::Obj(pairs) => pairs,
            _ => {
                return None;
            }
        };
        proof {
            assert(pairs@.skip(0) =~= pairs@);
        }
        let n = pairs.len();
        let mut i: usize = 0;
        while i < n
            invariant
                i <= n,
                n == pairs@.len(),
                spec_json_get(*self, key@) == spec_obj_lookup(pairs@, key@),
                spec_obj_lookup(pairs@, key@) == spec_obj_lookup(pairs@.skip(i as int), key@),
            decreases n - i,
        {
            proof {
                assert(pairs@.skip(i as int)[0] == pairs@[i as int]);
                assert(pairs@.skip(i as int).drop_first() =~= pairs@.skip(i + 1));
            }
            if str_eq(pairs[i].0.as_str(), key) {
                return Some(&pairs[i].1);
            }
            i = i + 1;
        }
        proof {
            assert(pairs@.skip(n as int).len() == 0);
        }
        None
    }

    /// Indexes into an array; `None` on any other kind of value or out of
    /// range.
    pub fn at<'a>(&'a self, i: usize) -> (r: Option<&'a JsonValue>)
        ensures
            r matches Some(m) ==> spec_json_index(*self, i as int) == Some(*m),
            r is None ==> spec_json_index(*self, i as int) is None,
    {
        match self {
            JsonValue::Arr(items) => {
                if i < items.len() {
                    Some(&items[i])
                } else {
                    None
                }
            }
            _ => None,
        }
    }

    /// The string this value holds, if it is one.
    pub fn as_str<'a>(&'a self) -> (r: Option<&'a String>)
        ensures
            r matches Some(s) ==> *self matches JsonValue::Str(v) && v == *s,
            r is None ==> !(*self is Str),
    {
        match self {
            JsonValue::Str(s) => Some(s),
            _ => None,
        }
    }

    /// Whether this value is JSON `null`.
    pub fn is_null(&self) -> (r: bool)
        ensures
            r == (*self is Null),
    {
        matches!(self, JsonValue::Null)
    }
}

} // verus!
