//! JSON values as the protocol code reads them.

use vstd::prelude::*;
use crate::text::str_eq;

verus! {

/// A JSON number: a non-negative integer, a negative integer, or any other
/// number (kept as the bits of its `f64`).
#[derive(Debug, Clone, Copy, PartialEq, Eq, Structural)]
pub enum JsonNumber {
    PosInt(u64),
    NegInt(i64),
    Float(u64),
}

/// A JSON value. An object is its entries in order.
#[derive(Debug)]
pub enum JsonValue {
    Null,
    Bool(bool),
    Number(JsonNumber),
    Str(String),
    Array(Vec<JsonValue>),
    Object(Vec<(String, JsonValue)>),
}

/// The value of the first entry with the given key.
pub open spec fn lookup(entries: Seq<(String, JsonValue)>, key: Seq<char>) -> Option<JsonValue>
    decreases entries.len(),
{
    if entries.len() == 0 {
        None
    } else if entries[0].0@ == key {
        Some(entries[0].1)
    } else {
        lookup(entries.drop_first(), key)
    }
}

/// The value as a `u64`, if it is a non-negative integer.
pub open spec fn u64_value(v: JsonValue) -> Option<u64> {
    match v {
        JsonValue::Number(JsonNumber::PosInt(n)) => Some(n),
        _ => None,
    }
}

/// The value as an `i64`, if it is an integer in range.
pub open spec fn i64_value(v: JsonValue) -> Option<i64> {
    match v {
        JsonValue::Number(JsonNumber::PosInt(n)) => if n <= i64::MAX { Some(n as i64) } else { None },
        JsonValue::Number(JsonNumber::NegInt(n)) => Some(n),
        _ => None,
    }
}

/// The number for an `i64`.
pub open spec fn int_number(n: i64) -> JsonValue {
    JsonValue::Number(if n < 0 { JsonNumber::NegInt(n) } else { JsonNumber::PosInt(n as u64) })
}

/// The number for an `i64`.
pub fn number_from_i64(n: i64) -> (v: JsonValue)
    ensures
        v == int_number(n),
{
    if n < 0 {
        JsonValue::Number(JsonNumber::NegInt(n))
    } else {
        JsonValue::Number(JsonNumber::PosInt(n as u64))
    }
}

/// The value as a `u64`, if it is a non-negative integer.
pub fn value_as_u64(v: &JsonValue) -> (r: Option<u64>)
    ensures
        r == u64_value(*v),
{
    match v {
        JsonValue::Number(JsonNumber::PosInt(n)) => Some(*n),
        _ => None,
    }
}

/// The value as an `i64`, if it is an integer in range.
pub fn value_as_i64(v: &JsonValue) -> (r: Option<i64>)
    ensures
        r == i64_value(*v),
{
    match v {
        JsonValue::Number(JsonNumber::PosInt(n)) => {
            if *n <= i64::MAX as u64 {
                Some(*n as i64)
            } else {
                None
            }
        },
        JsonValue::Number(JsonNumber::NegInt(n)) => Some(*n),
        _ => None,
    }
}

/// The keys are pairwise different.
pub open spec fn distinct_keys(keys: Seq<&str>) -> bool {
    forall|i: int, j: int| 0 <= i < j < keys.len() ==> keys[i]@ != keys[j]@
}

/// Moves the values of the given keys out of an object's entries: for
/// each key, the value of its first entry.
pub fn take_fields(entries: Vec<(String, JsonValue)>, keys: &Vec<&str>) -> (r: Vec<Option<JsonValue>>)
    requires
        distinct_keys(keys@),
    ensures
        r@.len() == keys@.len(),
        forall|k: int| 0 <= k < keys@.len() ==> #[trigger] r@[k] == lookup(entries@, keys@[k]@),
{
    let ghost all = entries@;
    let n = entries.len();
    let mut rest = entries;
    let mut slots: Vec<Option<JsonValue>> = Vec::new();
    let mut k: usize = 0;
    while k < keys.len()
        invariant
            k <= keys@.len(),
            slots@.len() == k,
            forall|m: int| 0 <= m < k ==> #[trigger] slots@[m] is None,
        decreases keys@.len() - k,
    {
        slots.push(None);
        k = k + 1;
    }
    assert forall|m: int| 0 <= m < keys@.len() implies #[trigger] slots@[m] == lookup(
        all.subrange(n as int, n as int),
        keys@[m]@,
    ) by {
        assert(all.subrange(n as int, n as int).len() == 0);
    }
    while rest.len() > 0
        invariant
            n == all.len(),
            rest@ == all.take(rest@.len() as int),
            rest@.len() <= n,
            slots@.len() == keys@.len(),
            distinct_keys(keys@),
            forall|m: int| 0 <= m < keys@.len() ==> #[trigger] slots@[m] == lookup(
                all.subrange(rest@.len() as int, n as int),
                keys@[m]@,
            ),
        decreases rest@.len(),
    {
        let ghost i = rest@.len() - 1;
        let ghost before = slots@;
        let (key, value) = rest.pop().unwrap();
        assert(all[i] == (key, value));
        let ghost suffix = all.subrange(i, n as int);
        assert(suffix.drop_first() =~= all.subrange(i + 1, n as int));
        assert(suffix[0] == all[i]);
        let mut j: usize = 0;
        while j < keys.len() && !str_eq(key.as_str(), keys[j])
            invariant
                j <= keys@.len(),
                forall|m: int| 0 <= m < j ==> keys@[m]@ != key@,
            decreases keys@.len() - j,
        {
            j = j + 1;
        }
        if j < keys.len() {
            slots.set(j, Some(value));
        }
        assert forall|m: int| 0 <= m < keys@.len() implies #[trigger] slots@[m] == lookup(suffix, keys@[m]@) by {
            if j < keys@.len() && m != j {
                assert(keys@[m]@ != keys@[j as int]@);
            }
        }
        assert(rest@ =~= all.take(i));
    }
    assert(all.subrange(0, n as int) =~= all);
    slots
}

} // verus!
