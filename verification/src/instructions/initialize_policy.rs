//! One-time creation of the policy.

use vstd::prelude::*;
use crate::state::Policy;

verus! {

/// Who creates the policy, and the bump seed of the record's address.
#[derive(Clone, Copy, Debug, PartialEq, Eq)]
pub struct InitializePolicy {
    /// The signer, who becomes the policy's authority.
    pub authority: [u8; 32],
    /// Bump seed of the policy record's derived address.
    pub bump: u8,
}

/// Creates the policy from the given configuration. The signer becomes its
/// authority.
pub fn initialize_policy_handler(
    ctx: &InitializePolicy,
    y0: u64,
    investor_fee_share_bps: u16,
    daily_cap_lamports: u64,
    min_payout_lamports: u64,
    quote_mint: [u8; 32],
    creator_wallet: [u8; 32],
) -> (policy: Policy)
    ensures
        policy == (Policy {
            y0,
            investor_fee_share_bps,
            daily_cap_lamports,
            min_payout_lamports,
            quote_mint,
            creator_wallet,
            authority: ctx.authority,
            bump: ctx.bump,
        }),
{
    Policy {
        y0,
        investor_fee_share_bps,
        daily_cap_lamports,
        min_payout_lamports,
        quote_mint,
        creator_wallet,
        authority: ctx.authority,
        bump: ctx.bump,
    }
}

} // verus!
