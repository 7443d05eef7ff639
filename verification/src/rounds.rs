//! Round lifecycle: opening rounds and the owner's final withdrawal.
//!
//! A round is eligible for staking while it is the registrar's current
//! round and its close time has not passed; it is eligible for unstaking
//! once the round cursor has moved past it and its close time has passed.
//! Once a round opens with the finalizing flag, the registrar accepts no
//! further rounds.

use vstd::prelude::*;
use crate::ledger::{AccountId, ErrorCode, Registrar, Round};

verus! {

/// Whether the registrar still accepts a new round.
pub open spec fn can_open_round(registrar: Registrar) -> bool {
    !registrar.finalized
}

/// The state transition of a successful `start_round`.
pub open spec fn round_opened(
    before: Registrar,
    after: Registrar,
    round: Round,
    registrar_key: AccountId,
    round_key: AccountId,
    now: i64,
    final_round: bool,
) -> bool {
    &&& round.registrar == registrar_key
    &&& round.start_ts == now
    &&& round.stop_ts == now + before.round_timelock
    &&& round.number == before.current_round + 1
    &&& round.final_round == final_round
    &&& after.current_round == before.current_round + 1
    &&& after.current_round_account == Some(round_key)
    &&& after.finalized == final_round
    &&& after.authority == before.authority
    &&& after.nonce == before.nonce
    &&& after.mint == before.mint
    &&& after.pool_mint == before.pool_mint
    &&& after.round_timelock == before.round_timelock
}

/// Open the next round: number `current_round + 1`, running from `now` for
/// the registrar's timelock.  Rejected once the registrar is finalized;
/// opening with `final_round` set finalizes it.
pub fn start_round(
    registrar: &mut Registrar,
    registrar_key: AccountId,
    round_key: AccountId,
    now: i64,
    final_round: bool,
) -> (r: Result<Round, ErrorCode>)
    requires
        i64::MIN <= now + old(registrar).round_timelock <= i64::MAX,
        old(registrar).current_round < u32::MAX,
    ensures
        !can_open_round(*old(registrar)) ==> {
            &&& r matches Err(e) && e == ErrorCode::StakingFinalized
            &&& *final(registrar) == *old(registrar)
        },
        can_open_round(*old(registrar)) ==> (r matches Ok(round) && round_opened(
            *old(registrar),
            *final(registrar),
            round,
            registrar_key,
            round_key,
            now,
            final_round,
        )),
{
    if registrar.finalized {
        return Err(ErrorCode::StakingFinalized);
    }
    let round = Round {
        registrar: registrar_key,
        start_ts: now,
        stop_ts: now + registrar.round_timelock,
        number: registrar.current_round + 1,
        final_round,
    };
    registrar.current_round = registrar.current_round + 1;
    registrar.current_round_account = Some(round_key);
    registrar.finalized = final_round;
    Ok(round)
}

/// Whether the owner may take the vault's native currency without the token
/// supply being fully wound down: only after finalization, and only once
/// two further round times have passed since the final round closed.
pub open spec fn withdraw_window_open(registrar: Registrar, round: Round, now: i64) -> bool {
    &&& registrar.finalized
    &&& now >= round.stop_ts + registrar.round_timelock * 2
}

/// Release the vault's native-currency balance to the owner.  `round` is
/// the registrar's current, finalizing round; `pool_mint_supply` and
/// `mint_supply` are the outstanding token supplies; the whole vault
/// balance is released.  Outside the post-final grace window both supplies
/// must be zero.
pub fn withdraw_lamports(
    registrar: &Registrar,
    round: &Round,
    pool_mint_supply: u64,
    mint_supply: u64,
    vault_sol_lamports: u64,
    now: i64,
) -> (r: Result<u64, ErrorCode>)
    requires
        registrar.finalized ==> round.final_round,
        registrar.finalized ==> i64::MIN <= registrar.round_timelock * 2 <= i64::MAX,
        registrar.finalized ==> i64::MIN <= round.stop_ts + registrar.round_timelock * 2
            <= i64::MAX,
    ensures
        !withdraw_window_open(*registrar, *round, now) && !(pool_mint_supply == 0 && mint_supply
            == 0) ==> (r matches Err(e) && e == ErrorCode::ThereIsSomeSupply),
        withdraw_window_open(*registrar, *round, now) || (pool_mint_supply == 0 && mint_supply
            == 0) ==> (r matches Ok(amount) && amount == vault_sol_lamports),
{
    if !registrar.finalized || now < round.stop_ts + registrar.round_timelock * 2 {
        if !(pool_mint_supply == 0 && mint_supply == 0) {
            return Err(ErrorCode::ThereIsSomeSupply);
        }
    }
    Ok(vault_sol_lamports)
}

} // verus!
