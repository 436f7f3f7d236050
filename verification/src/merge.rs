//! The overlay-precedence rule shared by every per-field merge: a field the
//! caller submitted with a value overwrites the stored one; a field the
//! caller omitted or left null preserves the stored value.

use vstd::prelude::*;

verus! {

/// Overlay precedence on one field: the submitted side wins when present.
pub open spec fn spec_overlay<T>(submitted: Option<T>, stored: Option<T>) -> Option<T> {
    if submitted is Some {
        submitted
    } else {
        stored
    }
}

/// Merges one field by overlay precedence.
pub fn overlay_field<T>(submitted: Option<T>, stored: Option<T>) -> (r: Option<T>)
    ensures
        r == spec_overlay(submitted, stored),
{
    match submitted {
        Some(v) => Some(v),
        None => stored,
    }
}

} // verus!
