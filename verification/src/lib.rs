//! Record reconciliation core for a network-controller front end.
//!
//! The library merges an authoritative remote configuration object with a
//! locally owned sidecar record, derives the computed fields, and decides
//! where the result is persisted.  All I/O stays with the caller: every
//! function here maps plain values to plain values.

pub mod collect;
pub mod error;
pub mod member;
pub mod merge;
pub mod network;
pub mod remote;
pub mod store;
pub mod text;

use vstd::prelude::*;

verus! {

/// Clamps a possibly missing version component to a non-negative value.
pub open spec fn spec_clamp_component(v: Option<i64>) -> i64 {
    match v {
        Some(x) => if x >= 0 { x } else { 0 },
        None => 0,
    }
}

/// Missing numeric version fields default to zero; negative ones clamp to zero.
pub fn clamp_component(v: Option<i64>) -> (r: i64)
    ensures
        r == spec_clamp_component(v),
        r >= 0,
{
    match v {
        Some(x) => if x >= 0 { x } else { 0 },
        None => 0,
    }
}

} // verus!
