//! The operations of the engine: one-time setup and the distribution crank.

pub mod distribute_fees;
pub mod initialize_policy;
pub mod initialize_position;
pub mod initialize_progress;
pub mod settlement;
pub mod settlement_laws;

pub use distribute_fees::{distribute_fees_handler, AccountSnapshot, DistributeFees};
pub use initialize_policy::{initialize_policy_handler, InitializePolicy};
pub use initialize_position::{initialize_position_handler, InitializePosition};
pub use initialize_progress::{initialize_progress_handler, InitializeProgress};
pub use settlement::{settle_page, InvestorPayout, PageResult};
