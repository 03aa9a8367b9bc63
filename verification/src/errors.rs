//! The named conditions under which a call is refused.

use vstd::prelude::*;

verus! {

/// Every way in which a distribution call can fail. Each variant is one stable,
/// named condition, so that monitoring can tell "try again later" from a
/// configuration problem or a quarantine.
#[derive(Clone, Copy, Debug, PartialEq, Eq, Structural)]
pub enum FeeRoutingError {
    BaseFeesNotAllowed,
    DistributionWindowNotElapsed,
    InvalidPageIndex,
    PayoutBelowMinimum,
    DailyCapExceeded,
    ArithmeticOverflow,
    InvalidQuoteMint,
    LockedExceedsTotal,
    AllPagesProcessed,
    CreatorPayoutAlreadySent,
    InvalidStreamflowAccount,
    InvalidPoolAuthority,
    InvalidProgram,
    InvalidTreasuryAuthority,
    BaseFeesDetected,
    InvalidAccountOwnership,
    TooManyInvestors,
    InvalidTokenAccount,
}

impl FeeRoutingError {
    /// The human-readable text of the condition.
    pub fn message(&self) -> (text: &'static str)
        ensures
            text@ == Self::message_text(*self)@,
    {
        match self {
            FeeRoutingError::BaseFeesNotAllowed => "Position must accrue fees in quote mint only",
            FeeRoutingError::DistributionWindowNotElapsed => "Distribution can only be called once per 24 hour window",
            FeeRoutingError::InvalidPageIndex => "Invalid page index for current distribution day",
            FeeRoutingError::PayoutBelowMinimum => "Investor payout below minimum threshold",
            FeeRoutingError::DailyCapExceeded => "Daily distribution cap exceeded",
            FeeRoutingError::ArithmeticOverflow => "Arithmetic overflow in fee calculation",
            FeeRoutingError::InvalidQuoteMint => "Invalid quote mint provided",
            FeeRoutingError::LockedExceedsTotal => "Total locked amount exceeds Y0",
            FeeRoutingError::AllPagesProcessed => "All pages for current day already processed",
            FeeRoutingError::CreatorPayoutAlreadySent => "Creator payout already sent for this day",
            FeeRoutingError::InvalidStreamflowAccount => "Invalid Streamflow account provided",
            FeeRoutingError::InvalidPoolAuthority => "Invalid pool authority provided",
            FeeRoutingError::InvalidProgram => "Invalid program ID provided",
            FeeRoutingError::InvalidTreasuryAuthority => "Invalid treasury authority",
            FeeRoutingError::BaseFeesDetected => "Base token fees detected - position must be quote-only",
            FeeRoutingError::InvalidAccountOwnership => "Invalid account ownership",
            FeeRoutingError::TooManyInvestors => "Too many investors for one page",
            FeeRoutingError::InvalidTokenAccount => "Invalid token account provided",
        }
    }

    /// The text that `message` returns for each condition.
    pub open spec fn message_text(e: FeeRoutingError) -> &'static str {
        match e {
            FeeRoutingError::BaseFeesNotAllowed => "Position must accrue fees in quote mint only",
            FeeRoutingError::DistributionWindowNotElapsed => "Distribution can only be called once per 24 hour window",
            FeeRoutingError::InvalidPageIndex => "Invalid page index for current distribution day",
            FeeRoutingError::PayoutBelowMinimum => "Investor payout below minimum threshold",
            FeeRoutingError::DailyCapExceeded => "Daily distribution cap exceeded",
            FeeRoutingError::ArithmeticOverflow => "Arithmetic overflow in fee calculation",
            FeeRoutingError::InvalidQuoteMint => "Invalid quote mint provided",
            FeeRoutingError::LockedExceedsTotal => "Total locked amount exceeds Y0",
            FeeRoutingError::AllPagesProcessed => "All pages for current day already processed",
            FeeRoutingError::CreatorPayoutAlreadySent => "Creator payout already sent for this day",
            FeeRoutingError::InvalidStreamflowAccount => "Invalid Streamflow account provided",
            FeeRoutingError::InvalidPoolAuthority => "Invalid pool authority provided",
            FeeRoutingError::InvalidProgram => "Invalid program ID provided",
            FeeRoutingError::InvalidTreasuryAuthority => "Invalid treasury authority",
            FeeRoutingError::BaseFeesDetected => "Base token fees detected - position must be quote-only",
            FeeRoutingError::InvalidAccountOwnership => "Invalid account ownership",
            FeeRoutingError::TooManyInvestors => "Too many investors for one page",
            FeeRoutingError::InvalidTokenAccount => "Invalid token account provided",
        }
    }
}

} // verus!
