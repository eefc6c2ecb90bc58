//! Round management: adding a pricing tier to a sale and activating it.

use vstd::prelude::*;

use crate::state::SaleRound;

verus! {

/// Creates a sale round with nothing sold and inactive.
///
/// By design no ordering between `start_time` and `end_time` is checked, and
/// a zero `price_per_token` is accepted here: a purchase against such a round
/// fails with a division error rather than the round being rejected up front.
pub fn add_sale_round(
    price_per_token: u64,
    tokens_available: u64,
    min_contribution: u64,
    max_contribution: u64,
    start_time: i64,
    end_time: i64,
) -> (round: SaleRound)
    ensures
        round.price_per_token == price_per_token,
        round.tokens_available == tokens_available,
        round.tokens_sold == 0,
        round.min_contribution == min_contribution,
        round.max_contribution == max_contribution,
        round.start_time == start_time,
        round.end_time == end_time,
        !round.is_active,
        round.wf(),
{
    SaleRound {
        price_per_token,
        tokens_available,
        tokens_sold: 0,
        min_contribution,
        max_contribution,
        start_time,
        end_time,
        is_active: false,
    }
}

/// Marks the round active. Unconditional: neither the round's time window
/// nor any previous round's state is consulted.
pub fn activate_sale_round(round: &mut SaleRound)
    ensures
        final(round).is_active,
        final(round).price_per_token == old(round).price_per_token,
        final(round).tokens_available == old(round).tokens_available,
        final(round).tokens_sold == old(round).tokens_sold,
        final(round).min_contribution == old(round).min_contribution,
        final(round).max_contribution == old(round).max_contribution,
        final(round).start_time == old(round).start_time,
        final(round).end_time == old(round).end_time,
{
    round.is_active = true;
}

} // verus!
