//! Records emitted for observers; nothing in the library reads them back.

use vstd::prelude::*;

verus! {

/// The honorary position was set up.
#[derive(Clone, Copy, Debug, PartialEq, Eq)]
pub struct HonoraryPositionInitialized {
    pub position: [u8; 32],
    pub owner_pda: [u8; 32],
    pub quote_mint: [u8; 32],
    pub timestamp: i64,
}

/// Fees were claimed on the first page of a day.
#[derive(Clone, Copy, Debug, PartialEq, Eq, Structural)]
pub struct QuoteFeesClaimed {
    pub amount: u64,
    pub timestamp: i64,
    pub distribution_day: u64,
}

/// One page of investors was settled.
#[derive(Clone, Copy, Debug, PartialEq, Eq, Structural)]
pub struct InvestorPayoutPage {
    pub page_index: u16,
    pub investors_paid: u16,
    pub total_distributed: u64,
    pub rounding_dust: u64,
    pub timestamp: i64,
}

/// The creator's remainder was paid and the day closed.
#[derive(Clone, Copy, Debug, PartialEq, Eq, Structural)]
pub struct CreatorPayoutDayClosed {
    pub day: u64,
    pub creator_amount: u64,
    pub total_distributed_to_investors: u64,
    pub timestamp: i64,
}

} // verus!
