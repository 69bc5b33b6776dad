//! A JSON document as plain values, and the lookups that the adapters make
//! in one. Indexing follows `serde_json::Value`: a missing key, or a key
//! looked up in anything but an object, gives nothing.
use vstd::prelude::*;
use crate::decimal::Decimal;
use crate::text::same_text;

verus! {

/// A JSON number: a non-negative integer, a negative integer or a float.
pub enum Number {
    PosInt(u64),
    NegInt(i64),
    Float(Decimal),
}

/// What a [`Number`] holds, with a float as its literal.
pub enum NumberView {
    PosInt(u64),
    NegInt(i64),
    Float(Seq<char>),
}

impl View for Number {
    type V = NumberView;

    open spec fn view(&self) -> NumberView {
        match self {
            Number::PosInt(u) => NumberView::PosInt(*u),
            Number::NegInt(i) => NumberView::NegInt(*i),
            Number::Float(d) => NumberView::Float(d@),
        }
    }
}

impl Number {
    /// The number `0`.
    pub fn zero() -> (r: Number)
        ensures
            r@ == NumberView::PosInt(0),
    {
        Number::PosInt(0)
    }
}

impl Clone for Number {
    fn clone(&self) -> (r: Number)
        ensures
            r@ == self@,
    {
        match self {
            Number::PosInt(u) => Number::PosInt(*u),
            Number::NegInt(i) => Number::NegInt(*i),
            Number::Float(d) => Number::Float(d.clone()),
        }
    }
}

/// A JSON value. An object keeps its members in order, each key once.
pub enum JsonValue {
    Null,
    Bool(bool),
    Number(Number),
    Str(String),
    Array(Vec<JsonValue>),
    Object(Vec<(String, JsonValue)>),
}

/// The value of the first member of `members` named `key`.
pub open spec fn member(members: Seq<(String, JsonValue)>, key: Seq<char>) -> Option<JsonValue>
    decreases members.len(),
{
    if members.len() == 0 {
        None
    } else if members[0].0@ == key {
        Some(members[0].1)
    } else {
        member(members.drop_first(), key)
    }
}

/// `v[key]`, where nothing stands for JSON's null.
pub open spec fn field_of(v: Option<JsonValue>, key: Seq<char>) -> Option<JsonValue> {
    match v {
        Some(JsonValue::Object(members)) => member(members@, key),
        _ => None,
    }
}

/// `v.as_f64()`, with the number kept as it is.
pub open spec fn number_of(v: Option<JsonValue>) -> Option<NumberView> {
    match v {
        Some(JsonValue::Number(n)) => Some(n@),
        _ => None,
    }
}

/// `v.as_i64()`.
pub open spec fn int_of(v: Option<JsonValue>) -> Option<i64> {
    match v {
        Some(JsonValue::Number(Number::PosInt(u))) => if u <= i64::MAX {
            Some(u as i64)
        } else {
            None
        },
        Some(JsonValue::Number(Number::NegInt(i))) => Some(i),
        _ => None,
    }
}

/// `v.as_str()`.
pub open spec fn str_of(v: Option<JsonValue>) -> Option<Seq<char>> {
    match v {
        Some(JsonValue::Str(s)) => Some(s@),
        _ => None,
    }
}

pub open spec fn ref_view(r: Option<&JsonValue>) -> Option<JsonValue> {
    match r {
        Some(x) => Some(*x),
        None => None,
    }
}

/// `v[key]` for a value that may itself be missing.
pub fn field<'a>(v: Option<&'a JsonValue>, key: &str) -> (r: Option<&'a JsonValue>)
    ensures
        ref_view(r) == field_of(ref_view(v), key@),
{
    match v {
        Some(JsonValue::Object(members)) => {
            let mut i: usize = 0;
            assert(members@.skip(0) =~= members@);
            while i < members.len()
                invariant
                    i <= members@.len(),
                    field_of(ref_view(v), key@) == member(members@, key@),
                    member(members@, key@) == member(members@.skip(i as int), key@),
                decreases members.len() - i,
            {
                proof {
                    assert(members@.skip(i as int).drop_first() =~= members@.skip(i + 1));
                    assert(members@.skip(i as int)[0] == members@[i as int]);
                }
                let m = &members[i];
                if same_text(m.0.as_str(), key) {
                    assert(member(members@.skip(i as int), key@) == Some(m.1));
                    return Some(&m.1);
                }
                i = i + 1;
            }
            None
        },
        _ => None,
    }
}

/// `v.as_f64()`, with the number kept as it is.
pub fn number_at(v: Option<&JsonValue>) -> (r: Option<Number>)
    ensures
        match r {
            Some(n) => number_of(ref_view(v)) == Some(n@),
            None => number_of(ref_view(v)) is None,
        },
{
    match v {
        Some(JsonValue::Number(n)) => Some(n.clone()),
        _ => None,
    }
}

/// `v.as_i64()`.
pub fn int_at(v: Option<&JsonValue>) -> (r: Option<i64>)
    ensures
        r == int_of(ref_view(v)),
{
    match v {
        Some(JsonValue::Number(Number::PosInt(u))) => if *u <= i64::MAX as u64 {
            Some(*u as i64)
        } else {
            None
        },
        Some(JsonValue::Number(Number::NegInt(i))) => Some(*i),
        _ => None,
    }
}

/// `v.as_str()`.
pub fn str_at(v: Option<&JsonValue>) -> (r: Option<&str>)
    ensures
        match r {
            Some(s) => str_of(ref_view(v)) == Some(s@),
            None => str_of(ref_view(v)) is None,
        },
{
    match v {
        Some(JsonValue::Str(s)) => Some(s.as_str()),
        _ => None,
    }
}

} // verus!
