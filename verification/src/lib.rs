//! A pooled escrow-and-wager ledger.
//!
//! Players lock a stake into a shared pool to start a session of a risk
//! game; a trusted authority reports the outcome.  A death forfeits the
//! escrow to the pool, a victory pays the escrow back with a bonus, and a
//! finished session can be closed to reclaim its storage.  The fee split,
//! the payout computation, the available-funds check and the session state
//! machine are all verified here; moving the actual funds, verifying
//! signatures and persisting the records are the runtime's business.

pub mod errors;
pub mod math;
pub mod session;
pub mod pool;
pub mod store;
pub mod intake;
pub mod resolution;
pub mod lifecycle;
