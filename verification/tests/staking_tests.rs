//! Stake and unstake: the staking invariant, the round gates, the
//! worked half-round scenario and the multi-party reward split.

use fctr_staking::arith::FCTR;
use fctr_staking::ledger::{
    create_member, initialize, AccountId, ErrorCode, MemberToMember, Round, VaultRef,
};
use fctr_staking::rounds::start_round;
use fctr_staking::staking::{stake, unstake};

const RK: AccountId = AccountId(100);

#[test]
fn stake_moves_the_whole_free_balance() {
    let mut registrar = initialize(AccountId(10), AccountId(11), AccountId(1), 7, 1000);
    let round = start_round(&mut registrar, AccountId(2), RK, 0, false).unwrap();
    let mut member = create_member(AccountId(2), AccountId(20), 9, false);
    member.bought = 100 * FCTR;

    let moved = stake(&registrar, &round, RK, &mut member, 500).unwrap();
    assert_eq!(moved, 100 * FCTR);
    assert_eq!(member.bought, 0);
    assert_eq!(member.trusted, 0);
    assert_eq!(member.staked, 100 * FCTR);
    assert_eq!(member.staked_trusted, 0);
    // Half the round at the base 1% rate: half a reward token.
    assert_eq!(member.reward, 500_000_000_000_000_000);
    assert!(!member.unstaked);
    assert_eq!(member.staked_round, Some(RK));
}

#[test]
fn stake_counts_trusted_and_shared_balances() {
    let mut registrar = initialize(AccountId(10), AccountId(11), AccountId(1), 7, 1000);
    let round = start_round(&mut registrar, AccountId(2), RK, 0, false).unwrap();
    let mut member = create_member(AccountId(2), AccountId(20), 9, false);
    member.bought = 10 * FCTR;
    member.shared = 2 * FCTR;
    member.trusted = FCTR;
    member.trusted_pool = vec![MemberToMember {
        member_who_trust: AccountId(30),
        fctr: AccountId(31),
        bcdev: AccountId(32),
        trusted_amount: FCTR,
    }];

    // Free balance: 10 - 2 + 1 = 9 tokens.
    let moved = stake(&registrar, &round, RK, &mut member, 500).unwrap();
    assert_eq!(moved, 9 * FCTR);
    assert_eq!(member.bought, 0);
    assert_eq!(member.trusted, 0);
    assert_eq!(member.staked, 8 * FCTR);
    assert_eq!(member.staked_trusted, FCTR);
    // Rate: proportion(9, 2 shared) = 450_000, plus 200_000 for the one
    // lender edge = 650_000 (6.5%).  Half the round on 9 tokens:
    // prorated 4.5 tokens, 45e11 * 650_000 / 1e7 = 292_500_000_000,
    // rescaled by 1e6.
    assert_eq!(member.reward, 292_500_000_000_000_000);
}

#[test]
fn stake_rejects_wrong_round_closed_window_and_empty_balance() {
    let mut registrar = initialize(AccountId(10), AccountId(11), AccountId(1), 7, 1000);
    let round = start_round(&mut registrar, AccountId(2), RK, 0, false).unwrap();
    let mut member = create_member(AccountId(2), AccountId(20), 9, false);
    member.bought = 100 * FCTR;

    let stale = Round {
        registrar: AccountId(2),
        start_ts: 0,
        stop_ts: 1000,
        number: 0,
        final_round: false,
    };
    let wrong_round = stake(&registrar, &stale, RK, &mut member, 500);
    assert!(matches!(wrong_round, Err(ErrorCode::StakingNotToCurrentRound)));

    let too_late = stake(&registrar, &round, RK, &mut member, 1000);
    assert!(matches!(too_late, Err(ErrorCode::RoundTimeIsOverStaking)));

    member.bought = 0;
    let nothing = stake(&registrar, &round, RK, &mut member, 500);
    assert!(matches!(nothing, Err(ErrorCode::NotEnouphForStake)));

    // A bought balance entirely lent out is no free balance either.
    member.bought = 5 * FCTR;
    member.shared = 5 * FCTR;
    let all_lent = stake(&registrar, &round, RK, &mut member, 500);
    assert!(matches!(all_lent, Err(ErrorCode::NotEnouphForStake)));
    assert_eq!(member.staked, 0);
    assert_eq!(member.reward, 0);
}

#[test]
fn stake_accepts_a_purely_trusted_balance() {
    let mut registrar = initialize(AccountId(10), AccountId(11), AccountId(1), 7, 1000);
    let round = start_round(&mut registrar, AccountId(2), RK, 0, false).unwrap();
    let mut member = create_member(AccountId(2), AccountId(20), 9, false);
    member.trusted = 10 * FCTR;
    member.trusted_pool = vec![MemberToMember {
        member_who_trust: AccountId(30),
        fctr: AccountId(31),
        bcdev: AccountId(32),
        trusted_amount: 10 * FCTR,
    }];

    // Nothing bought, but a lent-in balance is free to stake.
    let moved = stake(&registrar, &round, RK, &mut member, 500).unwrap();
    assert_eq!(moved, 10 * FCTR);
    assert_eq!(member.staked, 0);
    assert_eq!(member.staked_trusted, 10 * FCTR);
    assert_eq!(member.trusted, 0);
    // Base 1% plus one edge's two points, half the round on 10 tokens:
    // prorated 5 tokens, 5e12 * 300_000 / 1e7 = 150_000_000_000,
    // rescaled by 1e6.
    assert_eq!(member.reward, 150_000_000_000_000_000);
}

#[test]
fn unstake_rejects_open_rounds_and_empty_stakes() {
    let mut registrar = initialize(AccountId(10), AccountId(11), AccountId(1), 7, 1000);
    let round = start_round(&mut registrar, AccountId(2), RK, 0, false).unwrap();
    let mut member = create_member(AccountId(2), AccountId(20), 9, false);
    member.bought = 100 * FCTR;
    stake(&registrar, &round, RK, &mut member, 500).unwrap();

    // The cursor has not moved past the round yet.
    let early = unstake(&registrar, &round, &mut member, 2000, &vec![]);
    assert!(matches!(early, Err(ErrorCode::EarlyUnstaking)));

    // Cursor moved on, but the round's close time has not passed.
    start_round(&mut registrar, AccountId(2), AccountId(101), 600, false).unwrap();
    let too_soon = unstake(&registrar, &round, &mut member, 1000, &vec![]);
    assert!(matches!(too_soon, Err(ErrorCode::RoundTimeIsOverUnstaking)));

    // Nothing staked.
    let mut idle = create_member(AccountId(2), AccountId(21), 9, false);
    idle.bought = 100 * FCTR;
    let nothing = unstake(&registrar, &round, &mut idle, 2000, &vec![]);
    assert!(matches!(nothing, Err(ErrorCode::DidntStakedAnything)));
}

#[test]
fn unstake_returns_principal_and_whole_reward_without_lenders() {
    let mut registrar = initialize(AccountId(10), AccountId(11), AccountId(1), 7, 1000);
    let round = start_round(&mut registrar, AccountId(2), RK, 0, false).unwrap();
    let mut member = create_member(AccountId(2), AccountId(20), 9, false);
    member.bought = 100 * FCTR;
    stake(&registrar, &round, RK, &mut member, 500).unwrap();
    start_round(&mut registrar, AccountId(2), AccountId(101), 1200, false).unwrap();

    let out = unstake(&registrar, &round, &mut member, 1500, &vec![]).unwrap();
    assert_eq!(out.principal, 100 * FCTR);
    assert_eq!(out.member_reward, 500_000_000_000_000_000);
    assert_eq!(out.truster_payouts.len(), 0);

    assert_eq!(member.staked, 0);
    assert_eq!(member.staked_trusted, 0);
    assert_eq!(member.reward, 0);
    assert_eq!(member.bought, 100 * FCTR);
    assert_eq!(member.trusted, 0);
    assert_eq!(member.trusted_pool.len(), 0);
    assert!(member.unstaked);
}

#[test]
fn unstake_splits_the_reward_with_lenders() {
    let mut registrar = initialize(AccountId(10), AccountId(11), AccountId(1), 7, 1000);
    let round = start_round(&mut registrar, AccountId(2), RK, 0, false).unwrap();
    start_round(&mut registrar, AccountId(2), AccountId(101), 1200, false).unwrap();

    let mut member = create_member(AccountId(2), AccountId(20), 9, false);
    member.staked = 80 * FCTR;
    member.staked_trusted = 20 * FCTR;
    member.reward = 500_000_000_000_000_000;
    member.trusted_pool = vec![
        MemberToMember {
            member_who_trust: AccountId(30),
            fctr: AccountId(31),
            bcdev: AccountId(32),
            trusted_amount: 15 * FCTR,
        },
        MemberToMember {
            member_who_trust: AccountId(40),
            fctr: AccountId(41),
            bcdev: AccountId(42),
            trusted_amount: 5 * FCTR,
        },
    ];
    let provided = vec![
        VaultRef { key: AccountId(31), token_owned: true },
        VaultRef { key: AccountId(32), token_owned: true },
        VaultRef { key: AccountId(41), token_owned: true },
        VaultRef { key: AccountId(42), token_owned: true },
    ];

    let out = unstake(&registrar, &round, &mut member, 1500, &provided).unwrap();
    assert_eq!(out.principal, 80 * FCTR);
    // The member keeps half of the reward; the lenders' half is split
    // 75% / 25% by lent amount against the staked trusted total.
    assert_eq!(out.member_reward, 250_000_000_000_000_000);
    assert_eq!(out.truster_payouts.len(), 2);
    assert_eq!(out.truster_payouts[0].fctr, AccountId(31));
    assert_eq!(out.truster_payouts[0].bcdev, AccountId(32));
    assert_eq!(out.truster_payouts[0].principal, 15 * FCTR);
    // proportion(15, 20) = 75_000; 75_000 * (25e16 / 1e5).
    assert_eq!(out.truster_payouts[0].reward, 187_500_000_000_000_000);
    assert_eq!(out.truster_payouts[1].principal, 5 * FCTR);
    assert_eq!(out.truster_payouts[1].reward, 62_500_000_000_000_000);

    assert_eq!(member.bought, 80 * FCTR);
    assert_eq!(member.trusted_pool.len(), 0);
    assert!(member.unstaked);
}

#[test]
fn unstake_validates_the_supplied_vaults() {
    let mut registrar = initialize(AccountId(10), AccountId(11), AccountId(1), 7, 1000);
    let round = start_round(&mut registrar, AccountId(2), RK, 0, false).unwrap();
    start_round(&mut registrar, AccountId(2), AccountId(101), 1200, false).unwrap();

    let mut member = create_member(AccountId(2), AccountId(20), 9, false);
    member.staked = 80 * FCTR;
    member.staked_trusted = 20 * FCTR;
    member.reward = 500_000_000_000_000_000;
    member.trusted_pool = vec![MemberToMember {
        member_who_trust: AccountId(30),
        fctr: AccountId(31),
        bcdev: AccountId(32),
        trusted_amount: 20 * FCTR,
    }];

    let too_few = unstake(
        &registrar,
        &round,
        &mut member,
        1500,
        &vec![VaultRef { key: AccountId(31), token_owned: true }],
    );
    assert!(matches!(too_few, Err(ErrorCode::LowRemainingAccountsProvided)));

    let not_token = unstake(
        &registrar,
        &round,
        &mut member,
        1500,
        &vec![
            VaultRef { key: AccountId(31), token_owned: false },
            VaultRef { key: AccountId(32), token_owned: true },
        ],
    );
    assert!(matches!(not_token, Err(ErrorCode::VaultWrongOwner)));

    let wrong_key = unstake(
        &registrar,
        &round,
        &mut member,
        1500,
        &vec![
            VaultRef { key: AccountId(31), token_owned: true },
            VaultRef { key: AccountId(99), token_owned: true },
        ],
    );
    assert!(matches!(wrong_key, Err(ErrorCode::VaultWrongKey)));

    // The failed attempts changed nothing.
    assert_eq!(member.staked, 80 * FCTR);
    assert_eq!(member.reward, 500_000_000_000_000_000);
    assert_eq!(member.trusted_pool.len(), 1);
}
