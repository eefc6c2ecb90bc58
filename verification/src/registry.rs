//! Campaign bookkeeping: creating a launchpad and registering sales under it.

use vstd::prelude::*;

use crate::state::{Identity, Launchpad, TokenSale};

verus! {

/// Creates a launchpad with no registered projects, administered by `admin`.
pub fn initialize(admin: Identity) -> (launchpad: Launchpad)
    ensures
        launchpad.admin == admin,
        launchpad.total_projects == 0,
{
    Launchpad { admin, total_projects: 0 }
}

/// Registers a new token sale under `launchpad` and counts it.
///
/// The new sale starts with nothing raised and inactive. No ordering between
/// `soft_cap` and `hard_cap` is demanded or checked: by design the caps are
/// recorded as given, and only the hard cap ever constrains purchases.
pub fn register_token(
    launchpad: &mut Launchpad,
    registrant: Identity,
    soft_cap: u64,
    hard_cap: u64,
    token_mint: Identity,
) -> (sale: TokenSale)
    requires
        old(launchpad).total_projects < u64::MAX,
    ensures
        sale.registrant == registrant,
        sale.token_mint == token_mint,
        sale.soft_cap == soft_cap,
        sale.hard_cap == hard_cap,
        sale.total_raised == 0,
        !sale.is_active,
        sale.wf(),
        final(launchpad).admin == old(launchpad).admin,
        final(launchpad).total_projects == old(launchpad).total_projects + 1,
{
    launchpad.total_projects = launchpad.total_projects + 1;
    TokenSale {
        registrant,
        token_mint,
        soft_cap,
        hard_cap,
        total_raised: 0,
        is_active: false,
    }
}

} // verus!
