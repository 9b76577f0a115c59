//! A JSON value held as plain data, in the order its members were given.

use vstd::prelude::*;

use crate::text::str_eq;

verus! {

/// A JSON document. Numbers keep the exact text that a JSON writer gives
/// them; object members keep their order.
#[derive(Debug, PartialEq)]
pub enum JsonValue {
    Null,
    Bool(bool),
    Number(String),
    Str(String),
    Array(Vec<JsonValue>),
    Object(Vec<(String, JsonValue)>),
}

impl JsonValue {
    /// The member `key` of an object, if it has one (the first such member).
    pub fn get(&self, key: &str) -> (r: Option<&JsonValue>)
        ensures
            !(*self is Object) ==> r is None,
            *self is Object ==> match r {
                Some(v) => exists|i: int|
                    0 <= i < self->Object_0@.len() && (#[trigger] self->Object_0@[i]).0@ == key@
                        && self->Object_0@[i].1 == *v,
                None => forall|i: int|
                    0 <= i < self->Object_0@.len() ==> (#[trigger] self->Object_0@[i]).0@ != key@,
            },
    {
        match self {
            JsonValue::Object(entries) => match find_member(entries, key) {
                Some(i) => Some(&entries[i].1),
                None => None,
            },
            _ => None,
        }
    }
}

/// The position of the first member named `key`.
fn find_member(entries: &Vec<(String, JsonValue)>, key: &str) -> (r: Option<usize>)
    ensures
        match r {
            Some(i) => i < entries@.len() && entries@[i as int].0@ == key@,
            None => forall|i: int| 0 <= i < entries@.len() ==> (#[trigger] entries@[i]).0@ != key@,
        },
{
    let mut i: usize = 0;
    while i < entries.len()
        invariant
            0 <= i <= entries@.len(),
            forall|j: int| 0 <= j < i ==> (#[trigger] entries@[j]).0@ != key@,
        decreases entries.len() - i,
    {
        if str_eq(entries[i].0.as_str(), key) {
            return Some(i);
        }
        i = i + 1;
    }
    None
}

} // verus!
