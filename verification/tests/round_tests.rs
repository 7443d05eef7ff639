//! Round lifecycle: opening, numbering, finalization, and the owner's
//! withdrawal gate.

use fctr_staking::ledger::{initialize, AccountId, ErrorCode, Round};
use fctr_staking::rounds::{start_round, withdraw_lamports};

#[test]
fn initialize_sets_the_registrar_up() {
    let registrar = initialize(AccountId(10), AccountId(11), AccountId(1), 7, 1000);
    assert_eq!(registrar.authority, AccountId(1));
    assert_eq!(registrar.nonce, 7);
    assert!(!registrar.finalized);
    assert_eq!(registrar.mint, AccountId(10));
    assert_eq!(registrar.pool_mint, AccountId(11));
    assert_eq!(registrar.round_timelock, 1000);
    assert_eq!(registrar.current_round, 0);
    assert!(registrar.current_round_account.is_none());
}

#[test]
fn start_round_opens_the_next_round() {
    let mut registrar = initialize(AccountId(10), AccountId(11), AccountId(1), 7, 1000);
    let round = start_round(&mut registrar, AccountId(2), AccountId(3), 500, false).unwrap();
    assert_eq!(round.registrar, AccountId(2));
    assert_eq!(round.start_ts, 500);
    assert_eq!(round.stop_ts, 1500);
    assert_eq!(round.number, 1);
    assert!(!round.final_round);
    assert_eq!(registrar.current_round, 1);
    assert_eq!(registrar.current_round_account, Some(AccountId(3)));
    assert!(!registrar.finalized);

    let second = start_round(&mut registrar, AccountId(2), AccountId(4), 2000, false).unwrap();
    assert_eq!(second.number, 2);
    assert_eq!(registrar.current_round, 2);
}

#[test]
fn final_round_blocks_every_later_round() {
    let mut registrar = initialize(AccountId(10), AccountId(11), AccountId(1), 7, 1000);
    let round = start_round(&mut registrar, AccountId(2), AccountId(3), 0, true).unwrap();
    assert!(round.final_round);
    assert!(registrar.finalized);

    let with_flag = start_round(&mut registrar, AccountId(2), AccountId(4), 5000, true);
    assert!(matches!(with_flag, Err(ErrorCode::StakingFinalized)));
    let without_flag = start_round(&mut registrar, AccountId(2), AccountId(5), 5000, false);
    assert!(matches!(without_flag, Err(ErrorCode::StakingFinalized)));
    assert_eq!(registrar.current_round, 1);
    assert_eq!(registrar.current_round_account, Some(AccountId(3)));
}

#[test]
fn withdraw_requires_zero_supply_before_the_grace_window() {
    let mut registrar = initialize(AccountId(10), AccountId(11), AccountId(1), 7, 1000);
    let round = start_round(&mut registrar, AccountId(2), AccountId(3), 0, true).unwrap();

    // Inside the two-round grace window, outstanding supply bars it.
    let barred = withdraw_lamports(&registrar, &round, 5, 0, 777, 1500);
    assert!(matches!(barred, Err(ErrorCode::ThereIsSomeSupply)));

    // With both supplies wound down it goes through at once.
    let open = withdraw_lamports(&registrar, &round, 0, 0, 777, 1500);
    assert_eq!(open.unwrap(), 777);
}

#[test]
fn withdraw_is_free_after_the_grace_window() {
    let mut registrar = initialize(AccountId(10), AccountId(11), AccountId(1), 7, 1000);
    let round = start_round(&mut registrar, AccountId(2), AccountId(3), 0, true).unwrap();

    // stop_ts = 1000; two more round times end at 3000.
    let early = withdraw_lamports(&registrar, &round, 5, 5, 777, 2999);
    assert!(matches!(early, Err(ErrorCode::ThereIsSomeSupply)));
    let late = withdraw_lamports(&registrar, &round, 5, 5, 777, 3000);
    assert_eq!(late.unwrap(), 777);
}

#[test]
fn withdraw_before_finalization_needs_zero_supply() {
    let registrar = initialize(AccountId(10), AccountId(11), AccountId(1), 7, 1000);
    let round = Round {
        registrar: AccountId(2),
        start_ts: 0,
        stop_ts: 1000,
        number: 1,
        final_round: false,
    };
    let barred = withdraw_lamports(&registrar, &round, 0, 3, 777, 999_999);
    assert!(matches!(barred, Err(ErrorCode::ThereIsSomeSupply)));
}
