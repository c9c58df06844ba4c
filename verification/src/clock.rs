//! The monotonic clock, as far as the bucket reads it.

use vstd::prelude::*;
use std::time::{Duration, Instant};
use crate::model::least;

verus! {

/// A point on std's monotonic clock. Nothing is known of what is inside.
#[verifier::external_type_specification]
#[verifier::external_body]
pub struct ExInstant(Instant);

/// `Instant::now` reads the clock. Nothing is claimed of what it returns.
pub assume_specification[ Instant::now ]() -> (t: Instant);

/// `Instant::elapsed` measures the time since an instant against the clock.
/// Nothing is claimed of what it returns.
pub assume_specification[ Instant::elapsed ](since: &Instant) -> (d: Duration);

/// `Duration::as_millis` gives a duration in whole milliseconds. The bucket
/// hands it clock readings only, so no value is claimed for it.
pub assume_specification[ Duration::as_millis ](d: &Duration) -> (ms: u128);

/// A clock reading as the bucket keeps it: the milliseconds themselves where
/// they fit in a `u64`, and `u64::MAX` from there on.
pub fn tick_of_millis(millis: u128) -> (tick: u64)
    ensures
        tick as nat == least(millis as nat, u64::MAX as nat),
{
    if millis > u64::MAX as u128 {
        u64::MAX
    } else {
        millis as u64
    }
}

} // verus!
