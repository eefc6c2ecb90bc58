//! The vesting release engine: how much of a grant has vested at a given
//! time and what a claim releases.
//!
//! A grant vests linearly: after `elapsed` of `duration` seconds the vested
//! share of the allocation is `total_allocation * elapsed / duration`, and
//! from the end of the schedule onward it is the whole allocation. A claim
//! releases the vested-to-date amount minus what was already released, so
//! repeated claims never release more than the allocation.

use vstd::arithmetic::div_mod::{lemma_div_is_ordered, lemma_div_multiples_vanish};
use vstd::arithmetic::mul::lemma_mul_inequality;
use vstd::prelude::*;

use crate::errors::LaunchpadError;
use crate::state::VestingSchedule;

verus! {

/// How much of `grant`'s allocation has vested `elapsed` seconds into the
/// schedule: the linear share, truncated toward zero, and the whole
/// allocation once the schedule has run out.
pub open spec fn vested_to_date(grant: VestingSchedule, elapsed: int) -> int
    recommends
        0 <= elapsed,
{
    if elapsed >= grant.duration as int {
        grant.total_allocation as int
    } else {
        grant.total_allocation as int * elapsed / grant.duration as int
    }
}

/// How much a claim `elapsed` seconds into the schedule releases: the
/// vested-to-date amount minus what earlier claims already released.
pub open spec fn releasable_amount(grant: VestingSchedule, elapsed: int) -> int
    recommends
        0 <= elapsed,
{
    vested_to_date(grant, elapsed) - grant.released
}

/// What a claim against `grant` at `current_time` decides: the amount it
/// releases, or why it is rejected.
pub open spec fn claim_outcome(grant: VestingSchedule, current_time: i64) -> Result<
    u64,
    LaunchpadError,
> {
    let elapsed = current_time - grant.start_time;
    if elapsed < 0 {
        Err(LaunchpadError::VestingNotStarted)
    } else if releasable_amount(grant, elapsed) <= 0 {
        Err(LaunchpadError::NothingToClaim)
    } else {
        Ok(releasable_amount(grant, elapsed) as u64)
    }
}

/// Law: the vested-to-date amount never exceeds the total allocation.
pub proof fn lemma_vested_le_allocation(grant: VestingSchedule, elapsed: int)
    requires
        0 <= elapsed,
    ensures
        vested_to_date(grant, elapsed) <= grant.total_allocation,
{
    let a: int = grant.total_allocation as int;
    let d: int = grant.duration as int;
    if elapsed < d {
        lemma_mul_inequality(elapsed, d, a);
        lemma_div_is_ordered(a * elapsed, a * d, d);
        lemma_div_multiples_vanish(a, d);
    }
}

/// Law: the vested-to-date amount never decreases as time elapses.
pub proof fn lemma_vested_monotonic(grant: VestingSchedule, e1: int, e2: int)
    requires
        0 <= e1 <= e2,
    ensures
        vested_to_date(grant, e1) <= vested_to_date(grant, e2),
{
    let a: int = grant.total_allocation as int;
    let d: int = grant.duration as int;
    if e1 >= d {
        // both sides are the whole allocation
    } else if e2 >= d {
        lemma_vested_le_allocation(grant, e1);
    } else {
        lemma_mul_inequality(e1, e2, a);
        lemma_div_is_ordered(a * e1, a * e2, d);
    }
}

/// Claims the currently releasable portion of `grant` at `current_time`.
///
/// Releases the vested-to-date amount minus what was already released,
/// adding it to `grant.released` and returning it; the caller is responsible
/// for transferring that many tokens from custody to the investor together
/// with this mutation, all-or-nothing. Rejected with `VestingNotStarted`
/// when the clock reads earlier than the grant's start, and with
/// `NothingToClaim` when nothing has newly vested; a rejected claim changes
/// nothing.
pub fn claim_tokens(grant: &mut VestingSchedule, current_time: i64) -> (result: Result<
    u64,
    LaunchpadError,
>)
    requires
        old(grant).wf(),
        i64::MIN <= current_time - old(grant).start_time <= i64::MAX,
        0 <= current_time - old(grant).start_time < old(grant).duration as int
            ==> old(grant).total_allocation as int * (current_time - old(grant).start_time)
                <= u64::MAX,
    ensures
        final(grant).wf(),
        final(grant).investor == old(grant).investor,
        final(grant).total_allocation == old(grant).total_allocation,
        final(grant).start_time == old(grant).start_time,
        final(grant).duration == old(grant).duration,
        // The exact outcome, for every input.
        result == claim_outcome(*old(grant), current_time),
        // A rejected claim changes nothing.
        result is Err ==> *final(grant) == *old(grant),
        // A successful claim releases exactly the returned amount.
        match result {
            Ok(released_now) => final(grant).released == old(grant).released + released_now,
            Err(_) => true,
        },
        // The released amount never decreases.
        old(grant).released <= final(grant).released,
        // A claim at or past the end of the schedule releases everything
        // that is left, driving `released` to the whole allocation.
        old(grant).duration as int <= current_time - old(grant).start_time && old(grant).released
            < old(grant).total_allocation ==> result == Ok::<u64, LaunchpadError>(
            (old(grant).total_allocation - old(grant).released) as u64,
        ) && final(grant).released == old(grant).total_allocation,
        // Exactly the claims with nothing newly vested are rejected as such.
        0 <= current_time - old(grant).start_time ==> (result == Err::<u64, LaunchpadError>(
            LaunchpadError::NothingToClaim,
        ) <==> releasable_amount(*old(grant), current_time - old(grant).start_time) <= 0),
{
    let elapsed: i64 = current_time - grant.start_time;
    if elapsed < 0 {
        return Err(LaunchpadError::VestingNotStarted);
    }
    let elapsed_secs: u64 = elapsed as u64;
    let releasable: u64 = if elapsed_secs >= grant.duration {
        grant.total_allocation - grant.released
    } else {
        let vested: u64 = grant.total_allocation * elapsed_secs / grant.duration;
        proof {
            lemma_vested_le_allocation(*grant, elapsed as int);
        }
        if vested > grant.released {
            vested - grant.released
        } else {
            0
        }
    };
    if releasable == 0 {
        return Err(LaunchpadError::NothingToClaim);
    }
    grant.released = grant.released + releasable;
    Ok(releasable)
}

} // verus!
