//! The one source of randomness: the spawner and the session setup draw
//! positions and velocities uniformly from fixed ranges.
//!
//! Nothing can be promised of a random value, so the trusted declaration
//! below carries no `ensures`; the reduction of the raw draw into a
//! closed interval is ordinary verified code.

use vstd::prelude::*;

verus! {

/// Relies on `rand::random`: draws a value of `T` from the thread-local
/// generator.  The result depends on the generator's state, so nothing
/// is stated about it.
pub assume_specification<T>[ rand::random::<T> ]() -> (r: T)
    where
        rand::distributions::Standard: rand::distributions::Distribution<T>,
;

/// A fresh draw, reduced into the closed interval `[lo, hi]`.
///
/// The remainder reduction does not keep the draw perfectly uniform,
/// but every value of the interval can come out and none outside it.
pub fn draw_in_range(lo: i64, hi: i64) -> (r: i64)
    requires
        lo <= hi,
        hi - lo < i64::MAX,
    ensures
        lo <= r <= hi,
{
    let raw: u64 = rand::random::<u64>();
    let span: u64 = (hi - lo) as u64 + 1;
    lo + (raw % span) as i64
}

} // verus!
