//! One-time creation of the progress record.

use vstd::prelude::*;
use crate::state::Progress;

verus! {

/// Who creates the progress record, and the bump seed of its address.
#[derive(Clone, Copy, Debug, PartialEq, Eq)]
pub struct InitializeProgress {
    /// The signer.
    pub authority: [u8; 32],
    /// Bump seed of the progress record's derived address.
    pub bump: u8,
}

/// The record before any distribution took place: every counter at zero
/// and no flag raised.
pub open spec fn fresh_progress(bump: u8) -> Progress {
    Progress {
        last_distribution_ts: 0,
        current_day: 0,
        daily_distributed_to_investors: 0,
        carry_over_lamports: 0,
        current_page: 0,
        pages_processed_today: 0,
        total_investors: 0,
        creator_payout_sent: false,
        has_base_fees: false,
        total_rounding_dust: 0,
        bump,
    }
}

/// Creates the progress record with every counter at zero.
pub fn initialize_progress_handler(ctx: &InitializeProgress) -> (progress: Progress)
    ensures
        progress == fresh_progress(ctx.bump),
        progress.counters_agree(),
{
    Progress {
        last_distribution_ts: 0,
        current_day: 0,
        daily_distributed_to_investors: 0,
        carry_over_lamports: 0,
        current_page: 0,
        pages_processed_today: 0,
        total_investors: 0,
        creator_payout_sent: false,
        has_base_fees: false,
        total_rounding_dust: 0,
        bump: ctx.bump,
    }
}

} // verus!
