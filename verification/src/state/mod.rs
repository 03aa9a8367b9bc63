//! The two persistent records: the immutable policy and the mutable progress.

pub mod policy;
pub mod progress;

pub use policy::Policy;
pub use progress::Progress;
