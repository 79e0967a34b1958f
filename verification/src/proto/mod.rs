//! The backend's data model: what a frame carries.

use vstd::prelude::*;

pub mod sync;
pub mod torrents;
pub mod transfer;

verus! {

/// The value a field takes under a delta: the delta's, where it names one,
/// and the current value otherwise.
pub open spec fn overlay<T>(current: T, delta: Option<T>) -> T {
    match delta {
        Some(v) => v,
        None => current,
    }
}

/// The value of a field under a delta.
pub(crate) fn overlaid<T: Copy>(current: T, delta: Option<T>) -> (r: T)
    ensures
        r == overlay(current, delta),
{
    match delta {
        Some(new_value) => new_value,
        None => current,
    }
}

} // verus!
