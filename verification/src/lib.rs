//! A permissionless, periodic fee-distribution engine.
//!
//! Once per 24-hour window the quote-currency fees that a managed position
//! has earned are claimed and split: investors share pro rata by how much of
//! their allocation is still locked, held to a share cap and a daily cap,
//! and the creator receives the remainder. The investor set is processed in
//! pages over several calls, so the state machine is built to stop and
//! resume without losing or double-paying anything, and all arithmetic is on
//! integers and rounds down.
//!
//! - [`math`]: the pro-rata formulas and what holds of them.
//! - [`state`]: the immutable policy and the progress record.
//! - [`instructions::settlement`]: one crank call on plain values.
//! - [`instructions::distribute_fees`]: the crank call on the accounts it is
//!   given.
//! - [`instructions::settlement_laws`]: conservation, pagination, quarantine
//!   and the single creator payout, proved of every call.
//! - [`accounts`], [`vesting`], [`meteora`]: token accounts, vesting streams
//!   and the calls into the AMM, as the engine reads and builds them.
//!
//! The library decides; it moves no funds. A call returns the transfers to
//! make and the events to emit, and the caller carries them out.

pub mod accounts;
pub mod constants;
pub mod errors;
pub mod events;
pub mod instructions;
pub mod math;
pub mod meteora;
pub mod state;
pub mod vesting;
