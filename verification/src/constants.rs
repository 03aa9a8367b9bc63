//! Fixed parameters of the distribution cycle.

use vstd::prelude::*;

verus! {

/// Length of one distribution window, in seconds (24 hours).
pub const DISTRIBUTION_WINDOW_SECONDS: i64 = 86_400;

/// Basis-point denominator: 10000 bps are 100%.
pub const BPS_DENOMINATOR: u64 = 10_000;

/// Largest number of investors that one page may carry.
pub const MAX_INVESTORS_PER_PAGE: usize = 100;

} // verus!
