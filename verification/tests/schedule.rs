use vesting::schedule::{claimable_amount, time_between, vested_at};
use vesting::ErrorCode;

#[test]
fn nothing_has_vested_at_the_start() {
    assert_eq!(vested_at(0, 0, 1000, 1000), Ok(0));
    assert_eq!(claimable_amount(0, 0, 1000, 0, 1000, 0), Err(ErrorCode::NothingtoClaim));
}

#[test]
fn half_has_vested_at_half_time() {
    assert_eq!(vested_at(500, 0, 1000, 1000), Ok(500));
    assert_eq!(claimable_amount(500, 0, 1000, 0, 1000, 0), Ok(500));
}

#[test]
fn a_second_claim_at_the_same_time_finds_nothing() {
    assert_eq!(claimable_amount(500, 0, 1000, 0, 1000, 500), Err(ErrorCode::NothingtoClaim));
}

#[test]
fn the_rest_is_claimable_at_the_end() {
    assert_eq!(vested_at(1000, 0, 1000, 1000), Ok(1000));
    assert_eq!(claimable_amount(1000, 0, 1000, 0, 1000, 500), Ok(500));
}

#[test]
fn nothing_is_left_after_the_end() {
    assert_eq!(vested_at(2000, 0, 1000, 1000), Ok(1000));
    assert_eq!(claimable_amount(2000, 0, 1000, 0, 1000, 1000), Err(ErrorCode::NothingtoClaim));
}

#[test]
fn a_claim_before_the_cliff_is_too_early() {
    assert_eq!(claimable_amount(499, 0, 1000, 500, 1000, 0), Err(ErrorCode::ClaimNotAvailableYet));
    assert_eq!(claimable_amount(500, 0, 1000, 500, 1000, 0), Ok(500));
}

#[test]
fn the_cliff_is_tested_before_the_duration() {
    assert_eq!(claimable_amount(5, 10, 10, 6, 1000, 0), Err(ErrorCode::ClaimNotAvailableYet));
    assert_eq!(
        claimable_amount(-1, 0, 4, 0, u64::MAX, 0),
        Err(ErrorCode::ClaimNotAvailableYet)
    );
}

#[test]
fn a_schedule_without_duration_is_invalid() {
    assert_eq!(vested_at(20, 10, 10, 1000), Err(ErrorCode::InvalidVestingPeriod));
    assert_eq!(claimable_amount(20, 10, 10, 0, 1000, 0), Err(ErrorCode::InvalidVestingPeriod));
    assert_eq!(claimable_amount(10, 10, 10, 10, 1000, 0), Err(ErrorCode::InvalidVestingPeriod));
}

#[test]
fn a_schedule_that_ends_before_it_starts_is_invalid() {
    assert_eq!(vested_at(20, 10, 5, 1000), Err(ErrorCode::InvalidVestingPeriod));
    assert_eq!(claimable_amount(20, 10, 5, 0, 1000, 0), Err(ErrorCode::InvalidVestingPeriod));
    assert_eq!(claimable_amount(0, 10, 5, 0, 1000, 0), Err(ErrorCode::InvalidVestingPeriod));
}

#[test]
fn a_product_out_of_range_is_an_overflow() {
    assert_eq!(vested_at(3, 0, 4, u64::MAX), Err(ErrorCode::CalculationOverflow));
    assert_eq!(claimable_amount(3, 0, 4, 0, u64::MAX, 0), Err(ErrorCode::CalculationOverflow));
    assert_eq!(claimable_amount(2, 0, 4, 0, 1 << 63, 0), Err(ErrorCode::CalculationOverflow));
}

#[test]
fn the_largest_product_in_range_is_no_overflow() {
    assert_eq!(vested_at(1, 0, 4, u64::MAX), Ok(u64::MAX / 4));
    assert_eq!(vested_at(3, 0, 4, u64::MAX / 3), Ok(u64::MAX / 4));
    assert_eq!(claimable_amount(1, 0, 2, 0, u64::MAX, 0), Ok(u64::MAX / 2));
}

#[test]
fn the_whole_amount_vests_at_the_end_without_a_product() {
    assert_eq!(vested_at(4, 0, 4, u64::MAX), Ok(u64::MAX));
    assert_eq!(vested_at(i64::MAX, 0, 4, u64::MAX), Ok(u64::MAX));
    assert_eq!(claimable_amount(4, 0, 4, 0, u64::MAX, 0), Ok(u64::MAX));
}

#[test]
fn the_vested_amount_is_rounded_down() {
    assert_eq!(vested_at(1, 0, 3, 10), Ok(3));
    assert_eq!(vested_at(2, 0, 3, 10), Ok(6));
    assert_eq!(vested_at(3, 0, 3, 10), Ok(10));
    assert_eq!(vested_at(999, 0, 1000, 1), Ok(0));
    assert_eq!(claimable_amount(999, 0, 1000, 0, 1, 0), Err(ErrorCode::NothingtoClaim));
}

#[test]
fn time_before_the_start_counts_as_none() {
    assert_eq!(vested_at(-50, 100, 200, 1000), Ok(0));
    assert_eq!(vested_at(99, 100, 200, 1000), Ok(0));
    assert_eq!(vested_at(100, 100, 200, 1000), Ok(0));
    assert_eq!(vested_at(101, 100, 200, 1000), Ok(10));
    assert_eq!(claimable_amount(50, 100, 200, 0, u64::MAX, 0), Err(ErrorCode::NothingtoClaim));
}

#[test]
fn what_was_withdrawn_beyond_what_vested_leaves_nothing() {
    assert_eq!(claimable_amount(500, 0, 1000, 0, 1000, 501), Err(ErrorCode::NothingtoClaim));
    assert_eq!(claimable_amount(500, 0, 1000, 0, 1000, u64::MAX), Err(ErrorCode::NothingtoClaim));
}

#[test]
fn a_cliff_after_the_end_releases_everything_at_once() {
    assert_eq!(claimable_amount(1500, 0, 1000, 2000, 1000, 0), Err(ErrorCode::ClaimNotAvailableYet));
    assert_eq!(claimable_amount(2000, 0, 1000, 2000, 1000, 0), Ok(1000));
}

#[test]
fn negative_times_are_times_like_others() {
    assert_eq!(vested_at(-500, -1000, 0, 1000), Ok(500));
    assert_eq!(claimable_amount(-250, -1000, 0, -750, 1000, 250), Ok(500));
}

#[test]
fn the_vested_amount_never_decreases() {
    let total: u64 = 1_000_003;
    let mut last: u64 = 0;
    let mut now: i64 = -20;
    while now <= 120 {
        let vested = vested_at(now, 7, 97, total).unwrap();
        assert!(vested >= last);
        assert!(vested <= total);
        last = vested;
        now += 1;
    }
    assert_eq!(last, total);
    assert_eq!(vested_at(97, 7, 97, total), Ok(total));
    assert_eq!(vested_at(96, 7, 97, total), Ok(total * 89 / 90));
}

#[test]
fn the_time_between_two_times_is_never_negative() {
    assert_eq!(time_between(0, 1000), 1000);
    assert_eq!(time_between(1000, 0), 0);
    assert_eq!(time_between(5, 5), 0);
    assert_eq!(time_between(-3, 4), 7);
}

#[test]
fn the_time_between_the_extremes_fits() {
    assert_eq!(time_between(i64::MIN, i64::MAX), u64::MAX);
    assert_eq!(time_between(i64::MAX, i64::MIN), 0);
    assert_eq!(time_between(i64::MIN, 0), 1 << 63);
    assert_eq!(time_between(0, i64::MAX), (1 << 63) - 1);
}

#[test]
fn the_longest_schedule_vests_by_its_formula() {
    assert_eq!(vested_at(0, i64::MIN, i64::MAX, 1), Ok(0));
    assert_eq!(vested_at(i64::MAX, i64::MIN, i64::MAX, 1), Ok(1));
    assert_eq!(vested_at(i64::MAX - 1, i64::MIN, i64::MAX, 1), Ok(0));
    assert_eq!(
        vested_at(i64::MAX - 1, i64::MIN, i64::MAX, 2),
        Err(ErrorCode::CalculationOverflow)
    );
    assert_eq!(vested_at(i64::MIN, i64::MIN, i64::MAX, u64::MAX), Ok(0));
}
