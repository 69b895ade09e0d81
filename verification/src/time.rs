//! The clock of the bar, which ticks once a second; the time itself is read
//! and formatted where the clock is read.
use vstd::prelude::*;

verus! {

/// The clock module.
#[derive(Debug, Clone, Copy)]
pub struct Time;

impl Time {
    /// Seconds between two ticks.
    pub const INTERVAL: u64 = 1;

    /// The clock.
    pub fn new() -> (t: Time) {
        Time
    }
}

} // verus!
