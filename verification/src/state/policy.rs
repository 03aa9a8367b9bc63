//! The distribution policy, fixed at setup.

use vstd::prelude::*;

verus! {

/// Configuration of the distribution, set once and never changed.
#[derive(Clone, Copy, Debug, PartialEq, Eq)]
pub struct Policy {
    /// Total investor allocation at the start of the program (Y0).
    pub y0: u64,
    /// Cap on the investors' share of the proceeds, in basis points.
    pub investor_fee_share_bps: u16,
    /// Ceiling on what investors receive per day; 0 means no ceiling.
    pub daily_cap_lamports: u64,
    /// Smallest transfer that is sent; smaller payouts are pooled as dust.
    pub min_payout_lamports: u64,
    /// Identity of the quote currency.
    pub quote_mint: [u8; 32],
    /// Destination of the creator's remainder.
    pub creator_wallet: [u8; 32],
    /// Authority over the configuration.
    pub authority: [u8; 32],
    /// Bump seed of the record's derived address.
    pub bump: u8,
}

impl Policy {
    /// Size of the stored record in bytes, its 8-byte tag included.
    pub const LEN: usize = 8 + 8 + 2 + 8 + 8 + 32 + 32 + 32 + 1;
}

} // verus!
