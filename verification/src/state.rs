//! The four records of the engine and their well-formedness conditions.
//!
//! Each record is independently addressable and is mutated only by the one
//! operation responsible for it: a `Launchpad` by sale registration, a
//! `TokenSale` and a `SaleRound` by purchases, a `VestingSchedule` by claims.

use vstd::prelude::*;

verus! {

/// An opaque 32-byte identity, as the host environment's account keys are.
/// The engine never inspects it: authorization is the caller's concern.
#[derive(Clone, Copy, Debug, PartialEq, Eq)]
pub struct Identity {
    pub bytes: [u8; 32],
}

/// One launchpad instance: its administrator and how many sales have
/// registered under it.
#[derive(Clone, Copy, Debug, PartialEq, Eq)]
pub struct Launchpad {
    pub admin: Identity,
    pub total_projects: u64,
}

/// One token offering: its raise caps, the amount raised so far, and its
/// activation state.
#[derive(Clone, Copy, Debug, PartialEq, Eq)]
pub struct TokenSale {
    pub registrant: Identity,
    pub token_mint: Identity,
    pub soft_cap: u64,
    pub hard_cap: u64,
    pub total_raised: u64,
    pub is_active: bool,
}

/// One pricing tier within a sale: its price, remaining and sold supply,
/// per-contribution bounds, and time window.
#[derive(Clone, Copy, Debug, PartialEq, Eq)]
pub struct SaleRound {
    pub price_per_token: u64,
    pub tokens_available: u64,
    pub tokens_sold: u64,
    pub min_contribution: u64,
    pub max_contribution: u64,
    pub start_time: i64,
    pub end_time: i64,
    pub is_active: bool,
}

/// One investor's allocation and how much of it has been released, on a
/// linear schedule of `duration` seconds starting at `start_time`.
#[derive(Clone, Copy, Debug, PartialEq, Eq)]
pub struct VestingSchedule {
    pub investor: Identity,
    pub total_allocation: u64,
    pub released: u64,
    pub start_time: i64,
    pub duration: u64,
}

impl TokenSale {
    /// The raised amount never passes the hard cap. Registration establishes
    /// this and every purchase preserves it.
    pub open spec fn wf(self) -> bool {
        self.total_raised <= self.hard_cap
    }
}

impl SaleRound {
    /// Remaining and sold supply together fit the counter: their sum is the
    /// round's initial supply, which purchases only shift from one side to
    /// the other.
    pub open spec fn wf(self) -> bool {
        self.tokens_available + self.tokens_sold <= u64::MAX
    }
}

impl VestingSchedule {
    /// No more than the whole allocation is ever released.
    pub open spec fn wf(self) -> bool {
        self.released <= self.total_allocation
    }
}

} // verus!
