//! Discovery of consumers before the measured phase.
use vstd::prelude::*;

verus! {

/// Milliseconds between two discovery scans.
pub const DISCOVERY_SCAN_SLEEP_MS: u64 = 150;

/// How many discovery scans to make: eight, and one more for each consumer
/// where there are several.
pub fn discovery_scan_rounds(num_consumers: usize) -> (r: usize)
    requires
        num_consumers <= usize::MAX - 8,
    ensures
        r == if num_consumers > 1 {
            8 + num_consumers
        } else {
            8
        },
{
    if num_consumers > 1 {
        8 + num_consumers
    } else {
        8
    }
}

} // verus!
