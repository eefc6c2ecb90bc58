use launchpad::errors::LaunchpadError;
use launchpad::purchase::purchase_tokens;
use launchpad::state::{Identity, SaleRound, TokenSale, VestingSchedule};
use launchpad::vesting::claim_tokens;

fn identity(tag: u8) -> Identity {
    Identity { bytes: [tag; 32] }
}

fn grant_with(total_allocation: u64, released: u64, start_time: i64, duration: u64) -> VestingSchedule {
    VestingSchedule {
        investor: identity(7),
        total_allocation,
        released,
        start_time,
        duration,
    }
}

#[test]
fn half_elapsed_releases_half() {
    // 1,296,000 of 2,592,000 seconds have elapsed: half the allocation has
    // vested and none was released yet.
    let mut grant = grant_with(1_000_000, 0, 0, 2_592_000);
    let released = claim_tokens(&mut grant, 1_296_000);
    assert_eq!(released, Ok(500_000));
    assert_eq!(grant.released, 500_000);
    assert_eq!(grant.total_allocation, 1_000_000);
}

#[test]
fn immediate_second_claim_is_rejected() {
    // With no further elapsed time nothing has newly vested, so the second
    // claim releases nothing rather than the same share again.
    let mut grant = grant_with(1_000_000, 0, 0, 2_592_000);
    assert_eq!(claim_tokens(&mut grant, 1_296_000), Ok(500_000));
    let again = claim_tokens(&mut grant, 1_296_000);
    assert_eq!(again, Err(LaunchpadError::NothingToClaim));
    assert_eq!(grant.released, 500_000);
}

#[test]
fn elapsed_schedule_releases_everything_left() {
    let mut grant = grant_with(1_000_000, 0, 0, 2_592_000);
    assert_eq!(claim_tokens(&mut grant, 1_296_000), Ok(500_000));

    // At the end of the schedule exactly the remainder comes out.
    let remainder = claim_tokens(&mut grant, 2_592_000);
    assert_eq!(remainder, Ok(500_000));
    assert_eq!(grant.released, 1_000_000);

    // A fully claimed grant has nothing further to release, ever.
    let after = claim_tokens(&mut grant, 9_999_999);
    assert_eq!(after, Err(LaunchpadError::NothingToClaim));
    assert_eq!(grant.released, 1_000_000);
}

#[test]
fn claim_past_schedule_end_releases_all_at_once() {
    let mut grant = grant_with(123_457, 0, 1_000, 2_592_000);
    let released = claim_tokens(&mut grant, 1_000 + 2_592_001);
    assert_eq!(released, Ok(123_457));
    assert_eq!(grant.released, 123_457);
}

#[test]
fn claim_before_start_is_rejected() {
    let mut grant = grant_with(1_000_000, 0, 5_000, 2_592_000);
    let result = claim_tokens(&mut grant, 4_999);
    assert_eq!(result, Err(LaunchpadError::VestingNotStarted));
    assert_eq!(grant.released, 0);
}

#[test]
fn claim_at_start_instant_is_rejected() {
    // Zero seconds elapsed: the linear share is zero.
    let mut grant = grant_with(1_000_000, 0, 5_000, 2_592_000);
    let result = claim_tokens(&mut grant, 5_000);
    assert_eq!(result, Err(LaunchpadError::NothingToClaim));
    assert_eq!(grant.released, 0);
}

#[test]
fn vested_share_truncates_fractions() {
    // 10 * 1 / 3 truncates to 3, then 10 * 2 / 3 to 6, and the tail claim
    // releases the remainder lost to truncation.
    let mut grant = grant_with(10, 0, 0, 3);
    assert_eq!(claim_tokens(&mut grant, 1), Ok(3));
    assert_eq!(claim_tokens(&mut grant, 2), Ok(3));
    assert_eq!(grant.released, 6);
    assert_eq!(claim_tokens(&mut grant, 3), Ok(4));
    assert_eq!(grant.released, 10);
}

#[test]
fn zero_duration_grant_releases_all_at_once() {
    let mut grant = grant_with(42, 0, 0, 0);
    assert_eq!(claim_tokens(&mut grant, 0), Ok(42));
    assert_eq!(grant.released, 42);
}

#[test]
fn empty_grant_has_nothing_to_claim() {
    let mut grant = grant_with(0, 0, 0, 2_592_000);
    let result = claim_tokens(&mut grant, 9_999_999);
    assert_eq!(result, Err(LaunchpadError::NothingToClaim));
}

#[test]
fn purchase_then_claim_round_trip() {
    let mut sale = TokenSale {
        registrant: identity(2),
        token_mint: identity(3),
        soft_cap: 1_000_000,
        hard_cap: 10_000_000,
        total_raised: 0,
        is_active: true,
    };
    let mut round = SaleRound {
        price_per_token: 1_000_000,
        tokens_available: 5_000_000_000,
        tokens_sold: 0,
        min_contribution: 1_000,
        max_contribution: 2_000_000,
        start_time: 0,
        end_time: 100,
        is_active: true,
    };
    let purchase_time: i64 = 1_700_000_000;
    let mut grant =
        purchase_tokens(&mut round, &mut sale, identity(7), 2_000_000, purchase_time).unwrap();
    assert_eq!(grant.total_allocation, 2_000_000_000);
    assert_eq!(grant.duration, 2_592_000);

    // Nothing is claimable at the instant of purchase.
    assert_eq!(
        claim_tokens(&mut grant, purchase_time),
        Err(LaunchpadError::NothingToClaim)
    );

    // A quarter of the schedule in, a quarter of the allocation comes out.
    assert_eq!(
        claim_tokens(&mut grant, purchase_time + 648_000),
        Ok(500_000_000)
    );

    // After the schedule the rest comes out, and the grant is exhausted.
    assert_eq!(
        claim_tokens(&mut grant, purchase_time + 2_592_000),
        Ok(1_500_000_000)
    );
    assert_eq!(grant.released, grant.total_allocation);
}
