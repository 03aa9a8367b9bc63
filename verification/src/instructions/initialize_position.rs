//! One-time setup of the honorary position.

use vstd::prelude::*;
use crate::accounts::{is_default, is_default_address};
use crate::errors::FeeRoutingError;
use crate::events::HonoraryPositionInitialized;

verus! {

/// The addresses that the setup of the position names.
#[derive(Clone, Copy, Debug, PartialEq, Eq)]
pub struct InitializePosition {
    /// The derived address that owns the position.
    pub position_owner_pda: [u8; 32],
    /// The position account.
    pub position: [u8; 32],
    /// The quote currency.
    pub quote_mint: [u8; 32],
}

/// Sets up the honorary position at `now`. A quote currency must be named:
/// the default address is refused. Gives the record to emit.
pub fn initialize_position_handler(ctx: &InitializePosition, now: i64) -> (r: Result<
    HonoraryPositionInitialized,
    FeeRoutingError,
>)
    ensures
        is_default(ctx.quote_mint) ==> r == Err::<HonoraryPositionInitialized, FeeRoutingError>(
            FeeRoutingError::InvalidQuoteMint,
        ),
        !is_default(ctx.quote_mint) ==> r == Ok::<HonoraryPositionInitialized, FeeRoutingError>(
            HonoraryPositionInitialized {
                position: ctx.position,
                owner_pda: ctx.position_owner_pda,
                quote_mint: ctx.quote_mint,
                timestamp: now,
            },
        ),
{
    if is_default_address(&ctx.quote_mint) {
        return Err(FeeRoutingError::InvalidQuoteMint);
    }
    Ok(
        HonoraryPositionInitialized {
            position: ctx.position,
            owner_pda: ctx.position_owner_pda,
            quote_mint: ctx.quote_mint,
            timestamp: now,
        },
    )
}

} // verus!
