//! Locked balances of investors, read from their vesting streams.
//!
//! A stream is decoded by the stream program's SDK, and the vested amount
//! is the SDK's own. Of the decoded record the engine keeps the ten terms
//! that decide what is unlocked: from them it tells beforehand whether the
//! SDK's arithmetic is defined, so that a stream that has not started, a
//! zero period or an overflow is an error and never a panic.

use vstd::prelude::*;
use anchor_lang::prelude::Pubkey;
use anchor_lang::AnchorDeserialize;
use streamflow_sdk::state::Contract;
use crate::errors::FeeRoutingError;

verus! {

/// The terms of a vesting stream that decide how much of it is unlocked.
#[derive(Clone, Copy, Debug, PartialEq, Eq, Structural)]
pub struct StreamTerms {
    /// When the tokens start vesting.
    pub start_time: u64,
    /// Deposited amount.
    pub net_amount_deposited: u64,
    /// Length of one release period in seconds.
    pub period: u64,
    /// Amount released per period.
    pub amount_per_period: u64,
    /// Cliff time; zero means no cliff.
    pub cliff: u64,
    /// Amount unlocked at the cliff.
    pub cliff_amount: u64,
    /// Start of the current pause; zero means not paused.
    pub current_pause_start: u64,
    /// Total time the stream was paused for.
    pub pause_cumulative: u64,
    /// Time of the last change of the release rate.
    pub last_rate_change_time: u64,
    /// What had unlocked before the last rate change, the cliff excluded.
    pub funds_unlocked_at_last_rate_change: u64,
}

/// The terms that the stream's stored form `data` decodes to, or `None`
/// where the bytes are not exactly one stream record.
pub uninterp spec fn decoded_stream(data: Seq<u8>) -> Option<StreamTerms>;

/// Whether `owner` is the address of the vesting program.
pub uninterp spec fn is_streamflow_program(owner: Seq<u8>) -> bool;

/// Trusted: calls `streamflow_sdk::check_id`, which compares an address with
/// the program id that the SDK declares. The contract only names the
/// outcome as a function of the address.
#[verifier::external_body]
pub(crate) fn owned_by_streamflow(owner: &[u8; 32]) -> (r: bool)
    ensures
        r == is_streamflow_program(owner@),
{
    streamflow_sdk::check_id(&Pubkey::new_from_array(*owner))
}

/// Trusted: calls `streamflow_sdk::state::Contract::try_from_slice`, the
/// Borsh decoding of a stream record, which fails unless the bytes hold
/// exactly one record. The contract only names the outcome as a function of
/// the bytes; the ten fields are copied out of the decoded record.
#[verifier::external_body]
pub(crate) fn decode_stream(data: &[u8]) -> (r: Option<StreamTerms>)
    ensures
        r == decoded_stream(data@),
{
    match Contract::try_from_slice(data) {
        Ok(c) => Some(StreamTerms {
            start_time: c.ix.start_time, net_amount_deposited: c.ix.net_amount_deposited,
            period: c.ix.period, amount_per_period: c.ix.amount_per_period,
            cliff: c.ix.cliff, cliff_amount: c.ix.cliff_amount,
            current_pause_start: c.current_pause_start, pause_cumulative: c.pause_cumulative,
            last_rate_change_time: c.last_rate_change_time,
            funds_unlocked_at_last_rate_change: c.funds_unlocked_at_last_rate_change,
        }),
        Err(_) => None,
    }
}

/// Trusted: calls `streamflow_sdk::state::Contract::vested_available` on the
/// record that `data` decodes to. That method subtracts, divides and
/// multiplies in 64 bits: it is called only where `vesting_defined` holds of
/// the record's terms, which is where every one of those steps is in range.
/// The contract says that the result is then `vested` of those terms, and
/// `None` where the bytes do not decode.
#[verifier::external_body]
pub(crate) fn stream_vested_available(data: &[u8], now: u64) -> (r: Option<u64>)
    requires
        decoded_stream(data@) matches Some(terms) ==> terms.vesting_defined(now),
    ensures
        r == match decoded_stream(data@) {
            Some(terms) => Some(terms.vested(now) as u64),
            None => None,
        },
{
    match Contract::try_from_slice(data) {
        Ok(c) => Some(c.vested_available(now)),
        Err(_) => None,
    }
}

/// The locked balance of a deposit of which `vested` has vested and `cliff`
/// has been unlocked by the cliff: what is left of the deposit, and zero
/// once the two reach it. It is an arithmetic error where their sum leaves
/// 64 bits.
pub open spec fn locked_of(deposited: u64, vested: u64, cliff: u64) -> Result<u64, FeeRoutingError> {
    if vested + cliff > u64::MAX {
        Err(FeeRoutingError::ArithmeticOverflow)
    } else if deposited >= vested + cliff {
        Ok((deposited - vested - cliff) as u64)
    } else {
        Ok(0)
    }
}

/// The locked balance of a deposit, from what has vested and what the cliff
/// has unlocked.
pub fn locked_from(deposited: u64, vested: u64, cliff: u64) -> (r: Result<u64, FeeRoutingError>)
    ensures
        r == locked_of(deposited, vested, cliff),
{
    let unlocked = match vested.checked_add(cliff) {
        Some(v) => v,
        None => {
            return Err(FeeRoutingError::ArithmeticOverflow);
        },
    };
    if deposited >= unlocked {
        Ok(deposited - unlocked)
    } else {
        Ok(0)
    }
}

impl StreamTerms {
    /// The time from which the stream releases: the cliff if there is one,
    /// else the start time.
    pub open spec fn release_start(self) -> u64 {
        if self.cliff > 0 {
            self.cliff
        } else {
            self.start_time
        }
    }

    /// The start of the streaming at the current rate.
    pub open spec fn effective_start(self) -> u64 {
        if self.last_rate_change_time >= self.release_start() {
            self.last_rate_change_time
        } else {
            self.release_start()
        }
    }

    /// Whether a pause that began before the release start is still on.
    pub open spec fn paused_before_release(self) -> bool {
        self.current_pause_start < self.release_start() && self.current_pause_start != 0
    }

    /// Time spent paused up to `now`.
    pub open spec fn pause_time(self, now: u64) -> int {
        if self.current_pause_start > 0 {
            self.pause_cumulative + now - self.current_pause_start
        } else {
            self.pause_cumulative as int
        }
    }

    /// Whole periods that have streamed at the current rate up to `now`.
    pub open spec fn periods_passed(self, now: u64) -> int {
        (now - self.effective_start() - self.pause_time(now)) / (self.period as int)
    }

    /// Whether the vested amount at `now` is defined in 64-bit arithmetic:
    /// every intermediate value is in range and the period is not zero.
    pub open spec fn vesting_defined(self, now: u64) -> bool {
        self.paused_before_release() || {
            &&& self.current_pause_start > 0 ==> self.pause_cumulative + now <= u64::MAX
                && self.pause_cumulative + now >= self.current_pause_start
            &&& now >= self.effective_start()
            &&& now - self.effective_start() >= self.pause_time(now)
            &&& self.period > 0
            &&& self.periods_passed(now) * self.amount_per_period <= u64::MAX
            &&& self.periods_passed(now) * self.amount_per_period
                + self.funds_unlocked_at_last_rate_change <= u64::MAX
        }
    }

    /// The amount vested at `now`, the cliff excluded.
    pub open spec fn vested(self, now: u64) -> int {
        if self.paused_before_release() {
            0
        } else {
            self.periods_passed(now) * self.amount_per_period
                + self.funds_unlocked_at_last_rate_change
        }
    }

    /// The amount that the cliff has unlocked at `now`.
    pub open spec fn cliff_unlocked(self, now: u64) -> u64 {
        if (self.current_pause_start < self.cliff && self.current_pause_start != 0) || now
            < self.cliff {
            0
        } else {
            self.cliff_amount
        }
    }

    /// The locked balance at `now`: the deposit less what has vested and what
    /// the cliff has unlocked, and zero once those reach the deposit. It is
    /// an arithmetic error where the vested amount is not defined or the
    /// unlocked sum leaves 64 bits.
    pub open spec fn locked_balance(self, now: u64) -> Result<u64, FeeRoutingError> {
        if !self.vesting_defined(now) {
            Err(FeeRoutingError::ArithmeticOverflow)
        } else {
            locked_of(self.net_amount_deposited, self.vested(now) as u64, self.cliff_unlocked(now))
        }
    }

    /// Whether the vested amount at `now` is defined in 64-bit arithmetic.
    pub fn vesting_is_defined(&self, now: u64) -> (r: bool)
        ensures
            r == self.vesting_defined(now),
            r ==> 0 <= self.vested(now) <= u64::MAX,
    {
        let start = if self.cliff > 0 {
            self.cliff
        } else {
            self.start_time
        };
        if self.current_pause_start < start && self.current_pause_start != 0 {
            return true;
        }
        let effective_start = if self.last_rate_change_time >= start {
            self.last_rate_change_time
        } else {
            start
        };
        let pause_time: u64 = if self.current_pause_start > 0 {
            let until_now = match self.pause_cumulative.checked_add(now) {
                Some(v) => v,
                None => {
                    return false;
                },
            };
            if until_now < self.current_pause_start {
                return false;
            }
            until_now - self.current_pause_start
        } else {
            self.pause_cumulative
        };
        if now < effective_start || now - effective_start < pause_time || self.period == 0 {
            return false;
        }
        let periods: u64 = (now - effective_start - pause_time) / self.period;
        match periods.checked_mul(self.amount_per_period) {
            Some(streamed) => streamed.checked_add(self.funds_unlocked_at_last_rate_change).is_some(),
            None => false,
        }
    }

    /// The amount that the cliff has unlocked at `now`, as the stream
    /// program's own `cliff_available` gives it.
    pub fn cliff_available(&self, now: u64) -> (r: u64)
        ensures
            r == self.cliff_unlocked(now),
    {
        if self.current_pause_start < self.cliff && self.current_pause_start != 0 {
            return 0;
        }
        if now < self.cliff {
            return 0;
        }
        self.cliff_amount
    }
}

/// The locked balance at `now` of the stream stored in `data`, whose terms
/// are `terms`. The vested amount is the stream program's own.
pub(crate) fn stream_locked_amount(data: &[u8], terms: &StreamTerms, now: u64) -> (r: Result<
    u64,
    FeeRoutingError,
>)
    requires
        decoded_stream(data@) == Some(*terms),
    ensures
        r == terms.locked_balance(now),
{
    if !terms.vesting_is_defined(now) {
        return Err(FeeRoutingError::ArithmeticOverflow);
    }
    match stream_vested_available(data, now) {
        Some(vested) => locked_from(terms.net_amount_deposited, vested, terms.cliff_available(now)),
        None => Err(FeeRoutingError::InvalidStreamflowAccount),
    }
}

} // verus!
