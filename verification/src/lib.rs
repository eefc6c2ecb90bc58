//! A capped token-sale ledger with linear vesting.
//!
//! The crate tracks how much value a campaign may raise, which sale rounds
//! release tokens at what price, how much each investor has contributed, and
//! how much of an investor's allocation has become claimable over time. It is
//! a pure accounting engine: identity checks, fund custody and the clock are
//! collaborators of the caller, which hands the engine plain values and
//! applies the transfers it decides on.

pub mod errors;
pub mod purchase;
pub mod registry;
pub mod rounds;
pub mod state;
pub mod vesting;
