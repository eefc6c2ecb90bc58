//! The purchase engine: validating a contribution, pricing it in token
//! units, and minting the vesting grant.

use vstd::prelude::*;

use crate::errors::LaunchpadError;
use crate::state::{Identity, SaleRound, TokenSale, VestingSchedule};

verus! {

/// Tokens are priced in a fixed-point unit with nine implied decimal places.
pub const TOKEN_DECIMAL_SCALE: u64 = 1_000_000_000;

/// Every grant vests linearly over thirty days.
pub const VESTING_DURATION_SECS: u64 = 30 * 86400;

/// How many token units a contribution of `amount` buys at `price_per_token`:
/// the scaled amount divided by the price, the fractional remainder
/// truncated toward zero.
pub open spec fn tokens_of(amount: u64, price_per_token: u64) -> int
    recommends
        price_per_token > 0,
{
    amount * TOKEN_DECIMAL_SCALE / (price_per_token as int)
}

/// What a purchase of `amount` against `round` and `sale` decides: the token
/// allocation it buys, or the first failing check, in validation order.
pub open spec fn purchase_outcome(
    round: SaleRound,
    sale: TokenSale,
    amount: u64,
) -> Result<u64, LaunchpadError> {
    if amount < round.min_contribution {
        Err(LaunchpadError::ContributionTooLow)
    } else if amount > round.max_contribution {
        Err(LaunchpadError::ContributionExceeded)
    } else if sale.total_raised + amount > sale.hard_cap {
        Err(LaunchpadError::HardCapReached)
    } else if amount * TOKEN_DECIMAL_SCALE > u64::MAX {
        Err(LaunchpadError::ArithmeticOverflow)
    } else if round.price_per_token == 0 {
        Err(LaunchpadError::DivisionByZero)
    } else if tokens_of(amount, round.price_per_token) > round.tokens_available {
        Err(LaunchpadError::InsufficientTokens)
    } else {
        Ok(tokens_of(amount, round.price_per_token) as u64)
    }
}

/// Purchases tokens from `round` within `sale` for `investor`.
///
/// On success the bought allocation moves from the round's available supply
/// to its sold supply, the contribution is added to the sale's raised total,
/// and a fresh vesting grant over the allocation is returned, starting at
/// `current_time`. Any failed check rejects the whole purchase with the
/// matching error and changes nothing. The caller is responsible for moving
/// the contributed funds to custody together with this mutation,
/// all-or-nothing.
///
/// By design neither the round's activation flag nor its time window is
/// consulted here: which round is offered for purchase is the caller's
/// decision, made when it activates rounds.
pub fn purchase_tokens(
    round: &mut SaleRound,
    sale: &mut TokenSale,
    investor: Identity,
    amount: u64,
    current_time: i64,
) -> (result: Result<VestingSchedule, LaunchpadError>)
    requires
        old(round).wf(),
        old(sale).wf(),
    ensures
        final(round).wf(),
        final(sale).wf(),
        // Conservation of supply: the purchase only shifts tokens from
        // available to sold.
        final(round).tokens_available + final(round).tokens_sold
            == old(round).tokens_available + old(round).tokens_sold,
        // The raised total never passes the hard cap.
        final(sale).total_raised <= final(sale).hard_cap,
        // A contribution within the round's bounds that would pass the hard
        // cap is always rejected for that reason.
        old(round).min_contribution <= amount <= old(round).max_contribution
            && old(sale).total_raised + amount > old(sale).hard_cap
            ==> result == Err::<VestingSchedule, LaunchpadError>(LaunchpadError::HardCapReached),
        // Everything but the supply and raised counters is untouched.
        final(round).price_per_token == old(round).price_per_token,
        final(round).min_contribution == old(round).min_contribution,
        final(round).max_contribution == old(round).max_contribution,
        final(round).start_time == old(round).start_time,
        final(round).end_time == old(round).end_time,
        final(round).is_active == old(round).is_active,
        final(sale).registrant == old(sale).registrant,
        final(sale).token_mint == old(sale).token_mint,
        final(sale).soft_cap == old(sale).soft_cap,
        final(sale).hard_cap == old(sale).hard_cap,
        final(sale).is_active == old(sale).is_active,
        // The exact outcome, for every input.
        match result {
            Ok(grant) => {
                &&& purchase_outcome(*old(round), *old(sale), amount)
                    == Ok::<u64, LaunchpadError>(grant.total_allocation)
                &&& grant.investor == investor
                &&& grant.released == 0
                &&& grant.start_time == current_time
                &&& grant.duration == VESTING_DURATION_SECS
                &&& grant.wf()
                &&& final(round).tokens_available
                    == old(round).tokens_available - grant.total_allocation
                &&& final(round).tokens_sold
                    == old(round).tokens_sold + grant.total_allocation
                &&& final(sale).total_raised == old(sale).total_raised + amount
            },
            Err(e) => {
                &&& purchase_outcome(*old(round), *old(sale), amount)
                    == Err::<u64, LaunchpadError>(e)
                &&& *final(round) == *old(round)
                &&& *final(sale) == *old(sale)
            },
        },
{
    if amount < round.min_contribution {
        return Err(LaunchpadError::ContributionTooLow);
    }
    if amount > round.max_contribution {
        return Err(LaunchpadError::ContributionExceeded);
    }
    // total_raised <= hard_cap holds on entry, so the cap check can be
    // phrased without the sum overflowing.
    if amount > sale.hard_cap - sale.total_raised {
        return Err(LaunchpadError::HardCapReached);
    }
    let scaled: u64 = match amount.checked_mul(TOKEN_DECIMAL_SCALE) {
        Some(s) => s,
        None => {
            return Err(LaunchpadError::ArithmeticOverflow);
        },
    };
    if round.price_per_token == 0 {
        return Err(LaunchpadError::DivisionByZero);
    }
    let tokens: u64 = scaled / round.price_per_token;
    if tokens > round.tokens_available {
        return Err(LaunchpadError::InsufficientTokens);
    }
    round.tokens_available = round.tokens_available - tokens;
    round.tokens_sold = round.tokens_sold + tokens;
    sale.total_raised = sale.total_raised + amount;
    Ok(VestingSchedule {
        investor,
        total_allocation: tokens,
        released: 0,
        start_time: current_time,
        duration: VESTING_DURATION_SECS,
    })
}

} // verus!
