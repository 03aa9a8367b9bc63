//! The distribution cursor that persists across calls.

use vstd::prelude::*;

verus! {

/// Mutable ledger of the distribution state. There is one instance, and it
/// lives as long as the program.
#[derive(Clone, Copy, Debug, PartialEq, Eq, Structural)]
pub struct Progress {
    /// Start time of the most recently opened day.
    pub last_distribution_ts: i64,
    /// Day counter; grows by one with each opened day.
    pub current_day: u64,
    /// Running total paid to investors in the current day.
    pub daily_distributed_to_investors: u64,
    /// Dust rolled forward from below-threshold payouts and cap overflow.
    pub carry_over_lamports: u64,
    /// Next expected page index within the current day.
    pub current_page: u16,
    /// Pages processed in the current day.
    pub pages_processed_today: u16,
    /// Size of the investor set, kept for validation.
    pub total_investors: u16,
    /// Whether the creator's remainder was settled in the current day.
    pub creator_payout_sent: bool,
    /// Quarantine flag: a claim of the current day brought base-currency fees.
    pub has_base_fees: bool,
    /// Lifetime total of rounding dust; audited, never redistributed.
    pub total_rounding_dust: u64,
    /// Bump seed of the record's derived address.
    pub bump: u8,
}

impl Progress {
    /// Size of the stored record in bytes, its 8-byte tag included.
    pub const LEN: usize = 8 + 8 + 8 + 8 + 8 + 2 + 2 + 2 + 1 + 1 + 8 + 1;

    /// The two page counters agree: the next expected page is the number of
    /// pages processed in the current day.
    pub open spec fn counters_agree(&self) -> bool {
        self.current_page == self.pages_processed_today
    }
}

} // verus!
