//! Field resolution for const-style builders.
//!
//! A builder keeps each field of the value it builds as an `Option`: `None` until a setter
//! has run. At build time a required field must have been set, and an optional field (one
//! whose own type is an `Option`) falls back to `None`.

use vstd::prelude::*;

use crate::text::str_eq;

verus! {

/// The value of a required builder field; the field must have been set.
pub fn require_field<T>(slot: Option<T>) -> (v: T)
    requires
        slot is Some,
    ensures
        slot == Some(v),
{
    match slot {
        Some(v) => v,
        None => {
            assert(false);
            unreached()
        },
    }
}

/// The value of an optional builder field: what was set, or `None` when it never was.
pub fn optional_field<T>(slot: Option<Option<T>>) -> (v: Option<T>)
    ensures
        v == match slot {
            Some(inner) => inner,
            None => None,
        },
{
    match slot {
        Some(v) => v,
        None => None,
    }
}

/// Whether a field type is `Option<..>`, from the last segment of its type path (`None` for
/// a type that is not a path): such a field is optional, every other field is required.
pub fn is_option_type(last_segment: Option<&str>) -> (b: bool)
    ensures
        b == (last_segment matches Some(s) && s@ == "Option"@),
{
    match last_segment {
        Some(s) => str_eq(s, "Option"),
        None => false,
    }
}

} // verus!
