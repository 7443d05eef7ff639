//! The fixed-point kernel against hand-computed values, including the
//! corrective rounding rule's trigger and non-trigger cases.

use fctr_staking::arith::{
    apr_calculation, curency_to_sol_in_lamports, part_calculation_x10_5, ACCURACY, BCDEV, FCTR,
};

#[test]
fn proportion_correction_does_not_trigger() {
    // 3500 / 1000: q = 3, r = 500; q*10/r = 30/500 = 0, not > 4, so the
    // quotient stays 3 (round-half-up would have given 4).
    assert_eq!(part_calculation_x10_5(3500, 1000, 1), 3);
}

#[test]
fn proportion_correction_triggers() {
    // 999 / 10: q = 99, r = 9; q*10/r = 990/9 = 110 > 4, so 100.
    assert_eq!(part_calculation_x10_5(999, 10, 1), 100);
}

#[test]
fn proportion_exact_division_has_no_correction() {
    assert_eq!(part_calculation_x10_5(500, 1000, ACCURACY), 50_000);
    assert_eq!(part_calculation_x10_5(1000, 1000, ACCURACY), 100_000);
}

#[test]
fn proportion_small_remainder_rounds_up() {
    // 10001 / 10: q = 1000, r = 1; 10000/1 > 4, so 1001.
    assert_eq!(part_calculation_x10_5(10001, 10, 1), 1001);
}

#[test]
fn reward_half_round_one_percent_tiny_stake_is_zero() {
    // A 100-unit stake, 1% rate, half the round left: the prorated amount
    // is 50, the rate step yields 5_000_000 / 10_000_000 = 0 with the
    // correction keyed to the previous step's remainder (zero), so the
    // reward is 0.
    assert_eq!(apr_calculation(100, 100_000, 1000, 500), 0);
}

#[test]
fn reward_half_round_one_percent_hundred_tokens() {
    // 100 whole tokens staked for half the round at 1%: half a reward
    // token, in reward smallest units.
    assert_eq!(
        apr_calculation(100 * FCTR, 100_000, 1000, 500),
        500_000_000_000_000_000
    );
    assert_eq!(BCDEV / 2, 500_000_000_000_000_000);
}

#[test]
fn reward_full_round_one_percent_hundred_tokens() {
    // The full round at 1% yields exactly one reward token.
    assert_eq!(apr_calculation(100 * FCTR, 100_000, 1000, 1000), BCDEV);
}

#[test]
fn native_price_rounds_with_the_house_rule() {
    // 10 tokens at 109 native coins per whole token:
    // unit = 109 * FCTR / 1e9 = 109_000; 1e13 / 109_000 = 91_743_119
    // remainder 29_000; 917_431_190 / 29_000 > 4, so 91_743_120.
    assert_eq!(curency_to_sol_in_lamports(10 * FCTR, FCTR, 109), 91_743_120);
}

#[test]
fn native_price_correction_not_triggered() {
    // One reward token at 11 coins per whole token: unit = 1.1e10;
    // 1e18 / 1.1e10 = 90_909_090 remainder 1e10; 909_090_900 / 1e10 = 0.
    assert_eq!(curency_to_sol_in_lamports(BCDEV, BCDEV, 11), 90_909_090);
}
