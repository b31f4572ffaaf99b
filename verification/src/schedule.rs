//! The vesting calculation: how much of an allocation has vested at a given
//! time, and how much of it a beneficiary can claim.
//!
//! A schedule unlocks `total_amount` linearly between `start_time` and
//! `end_time`. Nothing can be claimed before `cliff_time`. Times are signed
//! seconds, amounts are unsigned.

use vstd::arithmetic::div_mod::{lemma_div_by_multiple, lemma_div_is_ordered};
use vstd::arithmetic::mul::{lemma_mul_inequality, lemma_mul_is_commutative, lemma_mul_nonnegative};
use vstd::prelude::*;

verus! {

/// Why a claim is refused.
#[derive(Clone, Copy, Debug, PartialEq, Eq, Structural)]
pub enum ErrorCode {
    /// The current time precedes the cliff.
    ClaimNotAvailableYet,
    /// The schedule has no duration: it does not end after it starts.
    InvalidVestingPeriod,
    /// The product of the allocation and the elapsed time does not fit in
    /// the amount type.
    CalculationOverflow,
    /// Nothing has vested beyond what was withdrawn already.
    NothingtoClaim,
}

/// The seconds from `from` to `to`, zero where `to` does not come after `from`.
pub open spec fn seconds_between(from: int, to: int) -> nat {
    if to > from {
        (to - from) as nat
    } else {
        0
    }
}

/// The time that has passed since the schedule started, never negative.
pub open spec fn elapsed_time(start_time: int, now: int) -> nat {
    seconds_between(start_time, now)
}

/// The length of the schedule, never negative.
pub open spec fn total_duration(start_time: int, end_time: int) -> nat {
    seconds_between(start_time, end_time)
}

/// The amount that has vested at `now`: all of it from `end_time` on, before
/// that the part of `total_amount` that corresponds to the elapsed share of
/// the duration, rounded down. A schedule without duration vests nothing
/// before its end.
pub open spec fn vested_amount(start_time: int, end_time: int, total_amount: nat, now: int) -> nat {
    if now >= end_time {
        total_amount
    } else if total_duration(start_time, end_time) == 0 {
        0
    } else {
        total_amount * elapsed_time(start_time, now) / total_duration(start_time, end_time)
    }
}

/// Whether the linear formula has to be evaluated at `now`, and its
/// intermediate product leaves the range of an amount.
pub open spec fn product_overflows(start_time: int, end_time: int, total_amount: nat, now: int) -> bool {
    now < end_time && total_amount * elapsed_time(start_time, now) > u64::MAX
}

/// What a claim at `now` yields: the amount that can be withdrawn, or the
/// reason why there is none. The cliff is tested first, then the duration,
/// then the range of the product, then whether anything is left to claim.
pub open spec fn claim_outcome(
    now: i64,
    start_time: i64,
    end_time: i64,
    cliff_time: i64,
    total_amount: u64,
    total_withdrawn: u64,
) -> Result<u64, ErrorCode> {
    let vested = vested_amount(start_time as int, end_time as int, total_amount as nat, now as int);
    if now < cliff_time {
        Err(ErrorCode::ClaimNotAvailableYet)
    } else if total_duration(start_time as int, end_time as int) == 0 {
        Err(ErrorCode::InvalidVestingPeriod)
    } else if product_overflows(start_time as int, end_time as int, total_amount as nat, now as int) {
        Err(ErrorCode::CalculationOverflow)
    } else if vested <= total_withdrawn {
        Err(ErrorCode::NothingtoClaim)
    } else {
        Ok((vested - total_withdrawn) as u64)
    }
}

/// The vested amount never exceeds the allocation.
pub proof fn lemma_vested_bounded(start_time: int, end_time: int, total_amount: nat, now: int)
    ensures
        vested_amount(start_time, end_time, total_amount, now) <= total_amount,
{
    let duration = total_duration(start_time, end_time) as int;
    let elapsed = elapsed_time(start_time, now) as int;
    let total = total_amount as int;
    if now < end_time && duration > 0 {
        assert(elapsed <= duration);
        lemma_mul_inequality(elapsed, duration, total);
        lemma_mul_is_commutative(elapsed, total);
        lemma_mul_is_commutative(duration, total);
        lemma_mul_nonnegative(total, elapsed);
        lemma_div_is_ordered(total * elapsed, total * duration, duration);
        lemma_div_by_multiple(total, duration);
    }
}

/// The vested amount never decreases as time passes.
pub proof fn lemma_vested_monotonic(
    start_time: int,
    end_time: int,
    total_amount: nat,
    earlier: int,
    later: int,
)
    requires
        earlier <= later,
    ensures
        vested_amount(start_time, end_time, total_amount, earlier) <= vested_amount(
            start_time,
            end_time,
            total_amount,
            later,
        ),
{
    let duration = total_duration(start_time, end_time) as int;
    let total = total_amount as int;
    if later >= end_time {
        lemma_vested_bounded(start_time, end_time, total_amount, earlier);
    } else if duration > 0 {
        let before = elapsed_time(start_time, earlier) as int;
        let after = elapsed_time(start_time, later) as int;
        lemma_mul_inequality(before, after, total);
        lemma_mul_is_commutative(before, total);
        lemma_mul_is_commutative(after, total);
        lemma_mul_nonnegative(total, before);
        lemma_div_is_ordered(total * before, total * after, duration);
    }
}

/// At the end of the schedule the whole allocation has vested.
pub proof fn lemma_vested_at_end(start_time: int, end_time: int, total_amount: nat)
    ensures
        vested_amount(start_time, end_time, total_amount, end_time) == total_amount,
{
}

/// The seconds from `from` to `to` as an amount of time, zero where `to`
/// does not come after `from`. The difference of two signed 64-bit times
/// always fits in 64 unsigned bits.
pub fn time_between(from: i64, to: i64) -> (seconds: u64)
    ensures
        seconds == seconds_between(from as int, to as int),
{
    if to > from {
        let difference: i128 = to as i128 - from as i128;
        difference as u64
    } else {
        0
    }
}

/// The amount that has vested at `now`, whatever the cliff: the whole
/// allocation from `end_time` on, else the elapsed share of it.
///
/// Fails with `InvalidVestingPeriod` where the schedule has no duration, and
/// with `CalculationOverflow` where the product of allocation and elapsed
/// time leaves the range of an amount.
pub fn vested_at(now: i64, start_time: i64, end_time: i64, total_amount: u64) -> (outcome: Result<
    u64,
    ErrorCode,
>)
    ensures
        outcome == Err::<u64, ErrorCode>(ErrorCode::InvalidVestingPeriod) <==> end_time
            <= start_time,
        outcome == Err::<u64, ErrorCode>(ErrorCode::CalculationOverflow) <==> start_time < end_time
            && product_overflows(start_time as int, end_time as int, total_amount as nat, now as int),
        outcome is Ok <==> start_time < end_time && !product_overflows(
            start_time as int,
            end_time as int,
            total_amount as nat,
            now as int,
        ),
        outcome matches Ok(vested) ==> vested == vested_amount(
            start_time as int,
            end_time as int,
            total_amount as nat,
            now as int,
        ),
{
    let duration = time_between(start_time, end_time);
    if duration == 0 {
        return Err(ErrorCode::InvalidVestingPeriod);
    }
    if now >= end_time {
        return Ok(total_amount);
    }
    let elapsed = time_between(start_time, now);
    match total_amount.checked_mul(elapsed) {
        Some(product) => Ok(product / duration),
        None => Err(ErrorCode::CalculationOverflow),
    }
}

/// The amount that can be claimed at `now`: what has vested less what was
/// withdrawn already, or the reason why nothing can be claimed.
///
/// Before the cliff a claim is too early, whatever has vested. From the
/// cliff on, a schedule without duration is invalid, and a product of
/// allocation and elapsed time that leaves the range of an amount is an
/// overflow, unless the schedule has ended and the whole allocation has
/// vested without a product.
pub fn claimable_amount(
    now: i64,
    start_time: i64,
    end_time: i64,
    cliff_time: i64,
    total_amount: u64,
    total_withdrawn: u64,
) -> (outcome: Result<u64, ErrorCode>)
    ensures
        outcome == claim_outcome(
            now,
            start_time,
            end_time,
            cliff_time,
            total_amount,
            total_withdrawn,
        ),
        now < cliff_time ==> outcome == Err::<u64, ErrorCode>(ErrorCode::ClaimNotAvailableYet),
        now >= cliff_time && end_time <= start_time ==> outcome == Err::<u64, ErrorCode>(
            ErrorCode::InvalidVestingPeriod,
        ),
        now >= cliff_time && start_time < end_time && now < end_time && total_amount
            * elapsed_time(start_time as int, now as int) > u64::MAX ==> outcome == Err::<
            u64,
            ErrorCode,
        >(ErrorCode::CalculationOverflow),
        outcome matches Ok(amount) ==> 0 < amount && total_withdrawn + amount == vested_amount(
            start_time as int,
            end_time as int,
            total_amount as nat,
            now as int,
        ) && total_withdrawn + amount <= total_amount,
{
    proof {
        lemma_vested_bounded(start_time as int, end_time as int, total_amount as nat, now as int);
    }
    if now < cliff_time {
        return Err(ErrorCode::ClaimNotAvailableYet);
    }
    let vested = match vested_at(now, start_time, end_time, total_amount) {
        Ok(vested) => vested,
        Err(code) => {
            return Err(code);
        },
    };
    let claimable = vested.saturating_sub(total_withdrawn);
    if claimable == 0 {
        return Err(ErrorCode::NothingtoClaim);
    }
    Ok(claimable)
}

} // verus!
