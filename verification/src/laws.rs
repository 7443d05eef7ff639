//! The ledger's cross-cutting guarantees, stated and proved once over the
//! transition predicates that the operations' contracts establish.

use vstd::prelude::*;
use crate::ledger::{AccountId, ErrorCode, Member, Registrar, Round, free_balance, has_link,
    lemma_link_index, link_index};
use crate::rounds::{can_open_round, round_opened};
use crate::sharing::{exit_applied_to, exit_applied_who, trust_applied_to, trust_gate_error};
use crate::staking::{stake_applied, unstake_applied};

verus! {

/// After a stake, the member's bought and trusted balances are zero and
/// its whole previous free balance has moved into the locked counters.
pub proof fn lemma_stake_locks_free_balance(
    before: Member,
    after: Member,
    round_key: AccountId,
    round_timelock: i64,
    staked_time: int,
)
    requires
        stake_applied(before, after, round_key, round_timelock, staked_time),
    ensures
        after.bought == 0,
        after.trusted == 0,
        after.staked + after.staked_trusted == before.staked + before.staked_trusted
            + free_balance(before),
{
}

/// After an unstake, every staking counter and the reward are zero and
/// the bought balance is exactly the principal that was staked.
pub proof fn lemma_unstake_resets(before: Member, after: Member)
    requires
        unstake_applied(before, after),
    ensures
        after.staked == 0,
        after.staked_trusted == 0,
        after.reward == 0,
        after.bought == before.staked,
{
}

/// A trust to a borrower whose pool already holds four edges is rejected
/// with the pool-bound error, whatever the amount, whenever the call gets
/// as far as the pool check.
pub proof fn lemma_trust_pool_bound(
    registrar: Registrar,
    who: Member,
    to: Member,
    last_time_trusted: i64,
    amount: u64,
    now: i64,
)
    requires
        to.trusted_pool@.len() >= 4,
        !to.dont_participate_sharing,
        now - last_time_trusted > registrar.round_timelock * 30,
        amount < who.bought,
    ensures
        trust_gate_error(registrar, who, to, last_time_trusted, amount, now) == Some(
            ErrorCode::MemberTrustersAmountExceeded,
        ),
{
}

/// A repeated trust from a lender that already holds an edge accumulates
/// into that edge: the pool keeps its length and only the edge's amount
/// grows, by exactly the trusted amount.
pub proof fn lemma_repeat_trust_accumulates(
    before: Member,
    after: Member,
    who_before: Member,
    who_key: AccountId,
    who_fctr_vault: AccountId,
    who_bcdev_vault: AccountId,
    amount: u64,
    round_timelock: i64,
    staked_time: int,
)
    requires
        has_link(before.trusted_pool@, who_key),
        before.trusted_pool@[link_index(before.trusted_pool@, who_key)].trusted_amount + amount
            <= u64::MAX,
        trust_applied_to(
            before,
            after,
            who_before,
            who_key,
            who_fctr_vault,
            who_bcdev_vault,
            amount,
            round_timelock,
            staked_time,
        ),
    ensures
        after.trusted_pool@.len() == before.trusted_pool@.len(),
        after.trusted_pool@[link_index(before.trusted_pool@, who_key)].trusted_amount
            == before.trusted_pool@[link_index(before.trusted_pool@, who_key)].trusted_amount
            + amount,
{
    lemma_link_index(before.trusted_pool@, who_key);
}

/// A first trust from a lender appends a new edge carrying exactly the
/// trusted amount and that lender's identities.
pub proof fn lemma_new_trust_appends(
    before: Member,
    after: Member,
    who_before: Member,
    who_key: AccountId,
    who_fctr_vault: AccountId,
    who_bcdev_vault: AccountId,
    amount: u64,
    round_timelock: i64,
    staked_time: int,
)
    requires
        !has_link(before.trusted_pool@, who_key),
        trust_applied_to(
            before,
            after,
            who_before,
            who_key,
            who_fctr_vault,
            who_bcdev_vault,
            amount,
            round_timelock,
            staked_time,
        ),
    ensures
        after.trusted_pool@.len() == before.trusted_pool@.len() + 1,
        after.trusted_pool@.last().member_who_trust == who_key,
        after.trusted_pool@.last().fctr == who_fctr_vault,
        after.trusted_pool@.last().bcdev == who_bcdev_vault,
        after.trusted_pool@.last().trusted_amount == amount,
{
}

/// Exit symmetry: unwinding an edge removes exactly one pool entry,
/// lowers the lender's shared counter by exactly the edge's amount, and
/// lowers the borrower's trusted holdings (trusted plus its staked part)
/// by the same amount.  The plain trusted counter carries the whole
/// decrease exactly when the lent-in balance had not been staked;
/// otherwise the staked counter carries it.
pub proof fn lemma_exit_symmetry(
    to_before: Member,
    to_after: Member,
    who_before: Member,
    who_after: Member,
    who_key: AccountId,
    round_timelock: i64,
    staked_time: int,
)
    requires
        has_link(to_before.trusted_pool@, who_key),
        exit_applied_to(to_before, to_after, who_key, round_timelock, staked_time),
        exit_applied_who(
            who_before,
            who_after,
            to_before.trusted_pool@[link_index(to_before.trusted_pool@, who_key)].trusted_amount,
        ),
    ensures
        to_after.trusted_pool@.len() == to_before.trusted_pool@.len() - 1,
        who_after.shared == who_before.shared - to_before.trusted_pool@[link_index(
            to_before.trusted_pool@,
            who_key,
        )].trusted_amount,
        to_after.trusted + to_after.staked_trusted == to_before.trusted
            + to_before.staked_trusted - to_before.trusted_pool@[link_index(
            to_before.trusted_pool@,
            who_key,
        )].trusted_amount,
        to_before.staked_trusted == 0 ==> to_after.trusted == to_before.trusted
            - to_before.trusted_pool@[link_index(
            to_before.trusted_pool@,
            who_key,
        )].trusted_amount,
{
    lemma_link_index(to_before.trusted_pool@, who_key);
}

/// Finalization: a round opened with the finalizing flag leaves the
/// registrar unable to open any further round, whatever flag a later
/// attempt carries.
pub proof fn lemma_finalization(
    before: Registrar,
    after: Registrar,
    round: Round,
    registrar_key: AccountId,
    round_key: AccountId,
    now: i64,
)
    requires
        round_opened(before, after, round, registrar_key, round_key, now, true),
    ensures
        !can_open_round(after),
{
}

} // verus!
