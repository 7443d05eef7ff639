//! Fixed-point arithmetic kernel.
//!
//! All money math is integer-only, base-scaled by `ACCURACY` (five decimal
//! digits of fixed-point precision).  Every division goes through the same
//! corrective rounding rule: with quotient `q` and remainder `r`, the
//! quotient is incremented when `r != 0` and `q * 10 / r > 4`.  This is not
//! round-half-up; it is the house rule, and every reward amount depends on
//! it bit for bit, so it is reproduced exactly and never "fixed".

use vstd::prelude::*;

verus! {

/// Smallest-unit scale of the tradable token (twelve decimal places).
pub const FCTR: u64 = 1_000_000_000_000;

/// Smallest-unit scale of the reward token (eighteen decimal places).
pub const BCDEV: u64 = 1_000_000_000_000_000_000;

/// Fixed-point scale: five decimal digits.
pub const ACCURACY: u64 = 100_000;

/// Smallest native-currency units per whole native coin.
pub const LAMPORTS_PER_SOL: u64 = 1_000_000_000;

/// The corrective rounding rule applied after an integer division that
/// produced quotient `q` and remainder `r`.
pub open spec fn corrected(q: int, r: int) -> int {
    if r != 0 && q * 10 / r > 4 {
        q + 1
    } else {
        q
    }
}

/// `part * acc / all`, rounded by `corrected`.  With `acc == ACCURACY` this
/// expresses "what fraction of `all` is `part`" as a scale-100000
/// fixed-point number.
pub open spec fn spec_part_calculation_x10_5(part: int, all: int, acc: int) -> int {
    corrected(part * acc / all, part * acc % all)
}

/// The machine limits under which `part_calculation_x10_5` neither divides
/// by zero nor overflows.
pub open spec fn part_calculation_fits(part: int, all: int, acc: int) -> bool {
    &&& 0 < all
    &&& part * acc <= u64::MAX
    &&& (part * acc % all != 0 ==> (part * acc / all) * 10 <= u64::MAX)
}

/// Fraction of `all` represented by `part`, scaled by `acc` and rounded by
/// the corrective rule.
pub fn part_calculation_x10_5(part: u64, all: u64, acc: u64) -> (r: u64)
    requires
        part_calculation_fits(part as int, all as int, acc as int),
    ensures
        r == spec_part_calculation_x10_5(part as int, all as int, acc as int),
{
    let prod: u64 = part * acc;
    let mut part_x10_5: u64 = prod / all;
    let reminder: u64 = prod % all;
    if reminder != 0 {
        if part_x10_5 * 10 / reminder > 4 {
            part_x10_5 += 1;
        }
    }
    part_x10_5
}

/// A token amount converted to native-currency smallest units at a fixed
/// conversion rate, rounded by `corrected`.
pub open spec fn spec_curency_to_sol_in_lamports(
    amount_of_carency: int,
    carency: int,
    course: int,
) -> int {
    let unit = course * carency / (LAMPORTS_PER_SOL as int);
    corrected(amount_of_carency / unit, amount_of_carency % unit)
}

/// The machine limits under which `curency_to_sol_in_lamports` neither
/// divides by zero nor overflows.
pub open spec fn curency_to_sol_fits(amount_of_carency: int, carency: int, course: int) -> bool {
    let unit = course * carency / (LAMPORTS_PER_SOL as int);
    &&& course * carency <= u64::MAX
    &&& 0 < unit
    &&& (amount_of_carency % unit != 0 ==> (amount_of_carency / unit) * 10 <= u64::MAX)
}

/// Every u64 amount fits the native-currency pricing arithmetic whenever
/// a whole token is worth at least eleven native smallest units.
pub proof fn lemma_curency_to_sol_fits(amount: u64, carency: u64, course: u64)
    requires
        course as int * carency as int <= u64::MAX,
        course as int * carency as int / (LAMPORTS_PER_SOL as int) >= 11,
    ensures
        curency_to_sol_fits(amount as int, carency as int, course as int),
{
    let unit = course as int * carency as int / (LAMPORTS_PER_SOL as int);
    assert(amount as int / unit * 10 <= u64::MAX) by (nonlinear_arith)
        requires
            unit >= 11,
            0 <= amount as int <= u64::MAX,
    ;
}

/// Price of `amount_of_carency` smallest token units in native-currency
/// smallest units, at `course` native coins per whole token.
pub fn curency_to_sol_in_lamports(amount_of_carency: u64, carency: u64, course: u64) -> (r: u64)
    requires
        curency_to_sol_fits(amount_of_carency as int, carency as int, course as int),
    ensures
        r == spec_curency_to_sol_in_lamports(
            amount_of_carency as int,
            carency as int,
            course as int,
        ),
{
    let unit: u64 = course * carency / LAMPORTS_PER_SOL;
    let mut lamports_amount: u64 = amount_of_carency / unit;
    let reminder: u64 = amount_of_carency % unit;
    if reminder != 0 {
        if lamports_amount * 10 / reminder > 4 {
            lamports_amount += 1;
        }
    }
    lamports_amount
}

/// The time-weighted reward in reward-token smallest units for staking
/// `amount_of_stake` at rate `percent_x10_5` (scale-100000 percent) with
/// `staked_time` of the `round_duration`-second round still to run:
///
/// 1. `part`: the remaining time fraction, scaled by `ACCURACY`;
/// 2. `amount`: the stake prorated by that fraction;
/// 3. `fctr_amount`: the rate applied to the prorated stake;
/// 4. the result rescaled from tradable-token to reward-token denomination.
///
/// Steps 1 and 2 round by `corrected`.  Step 3's correction tests step 2's
/// remainder but divides by its own remainder; the asymmetry is part of the
/// rule this ledger implements and must not be repaired, since every issued
/// reward depends on it.
pub open spec fn spec_apr_calculation(
    amount_of_stake: int,
    percent_x10_5: int,
    round_duration: int,
    staked_time: int,
) -> int {
    let acc = ACCURACY as int;
    let part = spec_part_calculation_x10_5(staked_time, round_duration, acc);
    let amount = corrected(part * amount_of_stake / acc, part * amount_of_stake % acc);
    let fctr_q = amount * percent_x10_5 / (100 * acc);
    let fctr_r = amount * percent_x10_5 % (100 * acc);
    let fctr_amount = if part * amount_of_stake % acc != 0 && fctr_q * 10 / fctr_r > 4 {
        fctr_q + 1
    } else {
        fctr_q
    };
    fctr_amount * ((BCDEV / FCTR) as int)
}

/// The machine limits under which `apr_calculation` neither divides by zero
/// nor overflows.
pub open spec fn apr_calculation_fits(
    amount_of_stake: int,
    percent_x10_5: int,
    round_duration: int,
    staked_time: int,
) -> bool {
    let acc = ACCURACY as int;
    let part = spec_part_calculation_x10_5(staked_time, round_duration, acc);
    let a_q = part * amount_of_stake / acc;
    let a_r = part * amount_of_stake % acc;
    let amount = corrected(a_q, a_r);
    let f_q = amount * percent_x10_5 / (100 * acc);
    let f_r = amount * percent_x10_5 % (100 * acc);
    let fctr_amount = if a_r != 0 && f_q * 10 / f_r > 4 {
        f_q + 1
    } else {
        f_q
    };
    &&& 0 <= staked_time
    &&& 0 < round_duration
    &&& part_calculation_fits(staked_time, round_duration, acc)
    &&& part * amount_of_stake <= u64::MAX
    &&& (a_r != 0 ==> a_q * 10 <= u64::MAX)
    &&& amount * percent_x10_5 <= u64::MAX
    &&& (a_r != 0 ==> f_r != 0 && f_q * 10 <= u64::MAX)
    &&& fctr_amount * ((BCDEV / FCTR) as int) <= u64::MAX
}

/// Time-weighted reward for a stake; see `spec_apr_calculation`.
pub fn apr_calculation(
    amount_of_stake: u64,
    percent_x10_5: u64,
    round_duration: i64,
    staked_time: i64,
) -> (r: u64)
    requires
        apr_calculation_fits(
            amount_of_stake as int,
            percent_x10_5 as int,
            round_duration as int,
            staked_time as int,
        ),
    ensures
        r == spec_apr_calculation(
            amount_of_stake as int,
            percent_x10_5 as int,
            round_duration as int,
            staked_time as int,
        ),
{
    let part: u64 = part_calculation_x10_5(staked_time as u64, round_duration as u64, ACCURACY);

    let prod: u64 = part * amount_of_stake;
    let mut amount: u64 = prod / ACCURACY;
    let reminder_u64: u64 = prod % ACCURACY;
    if reminder_u64 != 0 {
        if amount * 10 / reminder_u64 > 4 {
            amount += 1;
        }
    }

    let prod2: u64 = amount * percent_x10_5;
    let mut fctr_amount: u64 = prod2 / (100 * ACCURACY);
    let reminder_amount: u64 = prod2 % (100 * ACCURACY);
    if reminder_u64 != 0 {
        if fctr_amount * 10 / reminder_amount > 4 {
            fctr_amount += 1;
        }
    }

    fctr_amount * (BCDEV / FCTR)
}

} // verus!
