//! One whole life of the ledger: purchase, round, stake, a trust that
//! auto-stakes, the next round, the multi-party unstake, and the lender's
//! reconciliation.

use fctr_staking::arith::FCTR;
use fctr_staking::ledger::{create_member, initialize, AccountId, TrusterToMember, VaultRef};
use fctr_staking::rounds::start_round;
use fctr_staking::sharing::{check_unstaked, trust_to_member, TrustOutcome};
use fctr_staking::staking::{stake, unstake};
use fctr_staking::trading::buy_fctr;

#[test]
fn full_cycle_with_a_lender() {
    let registrar_key = AccountId(2);
    let a_key = AccountId(30);
    let a_fctr = AccountId(31);
    let a_bcdev = AccountId(32);
    let b_key = AccountId(40);
    let round1_key = AccountId(101);
    let round2_key = AccountId(102);

    let mut registrar = initialize(AccountId(10), AccountId(11), AccountId(1), 7, 1000);
    let mut lender = create_member(registrar_key, AccountId(20), 9, false);
    let mut staker = create_member(registrar_key, AccountId(21), 9, false);
    let mut pair = TrusterToMember { last_time_trusted: 0 };

    // Both buy 100 whole tokens.
    let price = buy_fctr(&mut lender, 1_000_000_000, 100 * FCTR).unwrap();
    assert_eq!(price, 917_431_193);
    buy_fctr(&mut staker, 1_000_000_000, 100 * FCTR).unwrap();

    // Round one opens; the staker locks everything with 900 of 1000
    // seconds left: 0.9% of 100 tokens at the base 1% rate.
    let round1 = start_round(&mut registrar, registrar_key, round1_key, 39_500, false).unwrap();
    stake(&registrar, &round1, round1_key, &mut staker, 39_600).unwrap();
    assert_eq!(staker.staked, 100 * FCTR);
    assert_eq!(staker.reward, 900_000_000_000_000_000);

    // The lender trusts 10 tokens mid-round; they are staked at once at
    // the lender's 10% rate plus the 2% new-edge bonus, for half the
    // round: 0.6 reward tokens more.
    let out = trust_to_member(
        &registrar, &round1, round1_key, &mut lender, a_key, a_fctr, a_bcdev, &mut staker,
        b_key, &mut pair, 10 * FCTR, 40_000,
    )
    .unwrap();
    match out {
        TrustOutcome::Linked { auto_staked, check } => {
            assert!(auto_staked);
            assert!(!check.burn);
        }
        TrustOutcome::Reverted => panic!("expected a link"),
    }
    assert_eq!(staker.staked_trusted, 10 * FCTR);
    assert_eq!(staker.reward, 1_500_000_000_000_000_000);
    assert_eq!(lender.shared, 10 * FCTR);

    // Round two opens; the stake of round one can be unwound.
    start_round(&mut registrar, registrar_key, round2_key, 41_000, false).unwrap();
    let provided = vec![
        VaultRef { key: a_fctr, token_owned: true },
        VaultRef { key: a_bcdev, token_owned: true },
    ];
    let settled = unstake(&registrar, &round1, &mut staker, 41_600, &provided).unwrap();
    assert_eq!(settled.principal, 100 * FCTR);
    assert_eq!(settled.member_reward, 750_000_000_000_000_000);
    assert_eq!(settled.truster_payouts.len(), 1);
    assert_eq!(settled.truster_payouts[0].fctr, a_fctr);
    assert_eq!(settled.truster_payouts[0].principal, 10 * FCTR);
    assert_eq!(settled.truster_payouts[0].reward, 750_000_000_000_000_000);
    assert_eq!(staker.bought, 100 * FCTR);
    assert!(staker.unstaked);

    // The lender proves the unstake and reconciles its shared counter.
    let mut receipt = match out {
        TrustOutcome::Linked { check, .. } => check,
        TrustOutcome::Reverted => unreachable!(),
    };
    check_unstaked(&registrar, &round1, round1_key, &staker, &mut lender, &mut receipt).unwrap();
    assert_eq!(lender.shared, 0);
    assert!(receipt.burn);
}
