//! A small polymorphic rendering and hit-testing registry.
//!
//! Entities that implement the [`visible::Visible`] capability are placed on
//! a shared [`canvas::Canvas`], drawn in insertion order, and queried by
//! spatial hit-test through a [`registry::Registry`].

pub mod canvas;
pub mod registry;
pub mod sink;
pub mod visible;

use vstd::prelude::*;

verus! {

use vstd::std_specs::cmp::PartialOrdSpec;

/// Returns the smaller of the two values, preferring the first on ties.
///
/// The exact result is pinned whenever the type's comparison operators obey
/// their specification (as all primitive integer types do).
pub fn min<T: Ord>(value1: T, value2: T) -> (r: T)
    ensures
        r == value1 || r == value2,
        T::obeys_partial_cmp_spec() ==> {
            &&& (value1.partial_cmp_spec(&value2) matches Some(
                core::cmp::Ordering::Less
                | core::cmp::Ordering::Equal,
            )) ==> r == value1
            &&& value1.partial_cmp_spec(&value2) == Some(core::cmp::Ordering::Greater) ==> r
                == value2
        },
{
    if value1.le(&value2) {
        value1
    } else {
        value2
    }
}

} // verus!
