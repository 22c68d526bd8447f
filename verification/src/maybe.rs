//! Three-state optionality for partial updates.

use vstd::prelude::*;

verus! {

/// Distinguishes "field absent" from "field explicitly null".
///
/// A partial update needs all three: leave the value alone, clear it, or set
/// it. Plain `Option` collapses the first two.
#[derive(Debug, Clone, PartialEq, Eq)]
pub enum MaybeUndefined<T> {
    /// The key was not present: leave the current value alone.
    Undefined,
    /// The key was present and null: clear the current value.
    Null,
    Value(T),
}

impl<T> MaybeUndefined<T> {
    pub fn is_undefined(&self) -> (b: bool)
        ensures
            b == (*self is Undefined),
    {
        match self {
            MaybeUndefined::Undefined => true,
            _ => false,
        }
    }

    /// `None` covers both "unchanged" and "cleared" for callers that treat
    /// them alike.
    pub fn value(self) -> (v: Option<T>)
        ensures
            v == (match self {
                MaybeUndefined::Value(x) => Some(x),
                _ => None,
            }),
    {
        match self {
            MaybeUndefined::Value(v) => Some(v),
            _ => None,
        }
    }
}

impl<T> Default for MaybeUndefined<T> {
    /// An absent field.
    fn default() -> (m: MaybeUndefined<T>)
        ensures
            m is Undefined,
    {
        MaybeUndefined::Undefined
    }
}

/// What a JSON field that was present reads as: `null` clears, anything
/// else sets.
pub open spec fn present_field<T>(value: Option<T>) -> MaybeUndefined<T> {
    match value {
        Some(x) => MaybeUndefined::Value(x),
        None => MaybeUndefined::Null,
    }
}

impl<T> From<Option<T>> for MaybeUndefined<T> {
    fn from(value: Option<T>) -> (m: MaybeUndefined<T>) {
        match value {
            Some(v) => MaybeUndefined::Value(v),
            None => MaybeUndefined::Null,
        }
    }
}

impl<T> vstd::std_specs::convert::FromSpecImpl<Option<T>> for MaybeUndefined<T> {
    open spec fn obeys_from_spec() -> bool {
        true
    }

    open spec fn from_spec(v: Option<T>) -> MaybeUndefined<T> {
        present_field(v)
    }
}

/// What a field reads as, asked for its value, gives back what the field
/// held: the value when one was set, `None` when it was `null`.
pub proof fn lemma_value_of_present_field<T>(value: Option<T>)
    ensures
        (match present_field(value) {
            MaybeUndefined::Value(x) => Some(x),
            _ => None,
        }) == value,
        !(present_field(value) is Undefined),
{
}

} // verus!
