//! Trust/sharing engine: establishing, auto-staking, unwinding and
//! reconciling lending relationships between members.
//!
//! A lender ("member who trust") moves part of its bought balance to a
//! borrower ("member to trust"); the borrower's trust pool records the
//! edge (at most four, one per lender, repeats accumulate), the lender's
//! `shared` counter records the committed capacity, and a receipt lets the
//! lender reconcile that counter later.  Token movements are reported to
//! the caller as plain amounts and vault identities.

use vstd::prelude::*;
use crate::arith::{
    ACCURACY, apr_calculation, apr_calculation_fits, part_calculation_fits,
    part_calculation_x10_5, spec_apr_calculation, spec_part_calculation_x10_5,
};
use crate::ledger::{AccountId, ErrorCode, Member, MemberToMember, Registrar, Round, TrustCheck,
    TrusterToMember, VaultRef, free_balance, has_link, lemma_link_index, link_index,
    lemma_pool_sum_prefix, pool_amounts_sum};

verus! {

/// What a `trust_to_member` call did.
#[derive(Clone, Copy, Debug)]
pub enum TrustOutcome {
    /// The borrower had already unstaked from this round, so the tokens
    /// went over and came straight back; no state changed and no receipt
    /// was recorded.
    Reverted,
    /// The trust link was established (or topped up).  The receipt is to
    /// be recorded; `auto_staked` tells whether the borrower's running
    /// stake absorbed the amount at once.
    Linked { check: TrustCheck, auto_staked: bool },
}

/// The deposit size a member is measured by when trust partners are
/// compared: its bought balance if any, else its staked balance, else
/// zero.
pub open spec fn mutual_size(m: Member) -> int {
    if m.bought != 0 {
        m.bought as int
    } else if m.staked != 0 {
        m.staked as int
    } else {
        0
    }
}

/// Trust partners must be within half and double of each other's deposit.
pub open spec fn mutual_sizes_ok(who: Member, to: Member) -> bool {
    let w = mutual_size(who);
    let t = mutual_size(to);
    &&& w >= t / 2 && w <= t * 2
    &&& t >= w / 2 && t <= w * 2
}

/// The first four gates of `trust_to_member` pass: the borrower takes
/// part in sharing, the pair is out of its cool-down, the amount is under
/// the lender's bought balance, and the borrower's pool has room.
pub open spec fn gates_to_free_pass(
    registrar: Registrar,
    who: Member,
    to: Member,
    last_time_trusted: i64,
    amount: u64,
    now: i64,
) -> bool {
    &&& !to.dont_participate_sharing
    &&& now - last_time_trusted > registrar.round_timelock * 30
    &&& amount < who.bought
    &&& to.trusted_pool@.len() < 4
}

/// The first six gates pass: additionally the amount is under half the
/// lender's free balance and leaves it more than a quarter of its bought
/// balance.
pub open spec fn gates_to_mutual_pass(
    registrar: Registrar,
    who: Member,
    to: Member,
    last_time_trusted: i64,
    amount: u64,
    now: i64,
) -> bool {
    &&& gates_to_free_pass(registrar, who, to, last_time_trusted, amount, now)
    &&& amount < free_balance(who) / 2
    &&& free_balance(who) - amount > who.bought as int / 4
}

/// The first rejection among `trust_to_member`'s validation gates, in the
/// order they are checked, or `None` when they all pass.
pub open spec fn trust_gate_error(
    registrar: Registrar,
    who: Member,
    to: Member,
    last_time_trusted: i64,
    amount: u64,
    now: i64,
) -> Option<ErrorCode> {
    if to.dont_participate_sharing {
        Some(ErrorCode::MemberDontParticipateSharing)
    } else if !(now - last_time_trusted > registrar.round_timelock * 30) {
        Some(ErrorCode::OftenSharingParticipation)
    } else if !(amount < who.bought) {
        Some(ErrorCode::ShareOnlyBought)
    } else if !(to.trusted_pool@.len() < 4) {
        Some(ErrorCode::MemberTrustersAmountExceeded)
    } else if !(amount < free_balance(who) / 2) {
        Some(ErrorCode::AmountMoreThenHalf)
    } else if !(free_balance(who) - amount > who.bought as int / 4) {
        Some(ErrorCode::AmountLesThenQuater)
    } else if !mutual_sizes_ok(who, to) {
        Some(ErrorCode::AmountBetwenHalfAndDouble)
    } else {
        None
    }
}

/// The safety fallback against stale calls: the borrower already fully
/// unstaked from the round this call references, so the transfer is
/// reversed instead of forming a link.
pub open spec fn trust_reverts(to: Member, round_key: AccountId) -> bool {
    &&& to.unstaked
    &&& to.staked_round == Some(round_key)
}

/// The first rejection of the auto-stake path: when the borrower is
/// mid-stake, the call must reference the current, still-open round.
pub open spec fn trust_stake_gate_error(
    registrar: Registrar,
    round: Round,
    to: Member,
    now: i64,
) -> Option<ErrorCode> {
    if to.staked > 0 && registrar.current_round != round.number {
        Some(ErrorCode::StakingNotToCurrentRound)
    } else if to.staked > 0 && !(round.stop_ts > now) {
        Some(ErrorCode::RoundTimeIsOverStaking)
    } else {
        None
    }
}

/// The lender's rate contribution, in scale-100000 percent: its free
/// balance measured against the amount it is lending.
pub open spec fn trust_rate(who: Member, amount: u64) -> int {
    spec_part_calculation_x10_5(
        who.bought + who.trusted - who.shared,
        amount as int,
        ACCURACY as int,
    )
}

/// The machine limits of the effect phase of `trust_to_member` (after
/// every gate passed and the call did not revert).
pub open spec fn trust_effect_fits(
    registrar: Registrar,
    round: Round,
    who: Member,
    to: Member,
    who_key: AccountId,
    amount: u64,
    now: i64,
) -> bool {
    let pool = to.trusted_pool@;
    let found = has_link(pool, who_key);
    let idx = link_index(pool, who_key);
    let auto = to.staked > 0;
    let rate = trust_rate(who, amount) + (if !found {
        2 * (ACCURACY as int)
    } else {
        0int
    });
    &&& part_calculation_fits(
        who.bought + who.trusted - who.shared,
        amount as int,
        ACCURACY as int,
    )
    &&& (found ==> pool[idx].trusted_amount + amount <= u64::MAX)
    &&& to.trusted + amount <= u64::MAX
    &&& who.shared + amount <= u64::MAX
    &&& (auto && registrar.current_round == round.number && round.stop_ts > now ==> {
        &&& round.stop_ts - now <= i64::MAX
        &&& rate <= u64::MAX
        &&& apr_calculation_fits(
            amount as int,
            rate,
            registrar.round_timelock as int,
            round.stop_ts - now,
        )
        &&& to.staked_trusted + amount <= u64::MAX
        &&& to.reward + spec_apr_calculation(
            amount as int,
            rate,
            registrar.round_timelock as int,
            round.stop_ts - now,
        ) <= u64::MAX
    })
}

/// The machine limits under which `trust_to_member` neither divides by
/// zero nor over- or underflows, gate by gate as the call would reach the
/// arithmetic.
pub open spec fn trust_fits(
    registrar: Registrar,
    round: Round,
    round_key: AccountId,
    who: Member,
    to: Member,
    who_key: AccountId,
    last_time_trusted: i64,
    amount: u64,
    now: i64,
) -> bool {
    &&& (!to.dont_participate_sharing ==> {
        &&& i64::MIN <= registrar.round_timelock * 30 <= i64::MAX
        &&& i64::MIN <= now - last_time_trusted <= i64::MAX
    })
    &&& (gates_to_free_pass(registrar, who, to, last_time_trusted, amount, now) ==> {
        &&& who.shared <= who.bought
        &&& who.bought + who.trusted <= u64::MAX
    })
    &&& (gates_to_mutual_pass(registrar, who, to, last_time_trusted, amount, now) ==> {
        &&& mutual_size(who) * 2 <= u64::MAX
        &&& mutual_size(to) * 2 <= u64::MAX
    })
    &&& (trust_gate_error(registrar, who, to, last_time_trusted, amount, now) is None
        && !trust_reverts(to, round_key) ==> trust_effect_fits(
        registrar,
        round,
        who,
        to,
        who_key,
        amount,
        now,
    ))
}

/// The lender-state transition of a successful trust: its shared counter
/// grows by the amount and its share time is stamped.
pub open spec fn trust_applied_who(before: Member, after: Member, amount: u64, now: i64) -> bool {
    &&& after.shared == before.shared + amount
    &&& after.shared_time == now
    &&& after.registrar == before.registrar
    &&& after.beneficiary == before.beneficiary
    &&& after.bought == before.bought
    &&& after.trusted == before.trusted
    &&& after.staked == before.staked
    &&& after.staked_trusted == before.staked_trusted
    &&& after.staked_round == before.staked_round
    &&& after.unstaked == before.unstaked
    &&& after.reward == before.reward
    &&& after.dont_participate_sharing == before.dont_participate_sharing
    &&& after.trusted_pool == before.trusted_pool
    &&& after.nonce == before.nonce
}

/// The borrower-state transition of a successful trust: the edge is
/// appended or topped up and the trusted counter grows; when the borrower
/// is mid-stake the amount is absorbed into the running stake at once,
/// with two bonus percentage points for a new edge.
pub open spec fn trust_applied_to(
    before: Member,
    after: Member,
    who_before: Member,
    who_key: AccountId,
    who_fctr_vault: AccountId,
    who_bcdev_vault: AccountId,
    amount: u64,
    round_timelock: i64,
    staked_time: int,
) -> bool {
    let pool = before.trusted_pool@;
    let found = has_link(pool, who_key);
    let idx = link_index(pool, who_key);
    let auto = before.staked > 0;
    let rate = trust_rate(who_before, amount) + (if !found {
        2 * (ACCURACY as int)
    } else {
        0int
    });
    &&& after.trusted_pool@ == (if found {
        pool.update(
            idx,
            (MemberToMember {
                trusted_amount: (pool[idx].trusted_amount + amount) as u64,
                ..pool[idx]
            }),
        )
    } else {
        pool.push(
            (MemberToMember {
                member_who_trust: who_key,
                fctr: who_fctr_vault,
                bcdev: who_bcdev_vault,
                trusted_amount: amount,
            }),
        )
    })
    &&& after.trusted == (if auto {
        0int
    } else {
        before.trusted + amount
    })
    &&& after.bought == before.bought
    &&& after.staked_trusted == (if auto {
        before.staked_trusted + amount
    } else {
        before.staked_trusted as int
    })
    &&& after.reward == (if auto {
        before.reward + spec_apr_calculation(
            amount as int,
            rate,
            round_timelock as int,
            staked_time,
        )
    } else {
        before.reward as int
    })
    &&& after.unstaked == (if auto {
        false
    } else {
        before.unstaked
    })
    &&& after.staked == before.staked
    &&& after.staked_round == before.staked_round
    &&& after.shared == before.shared
    &&& after.shared_time == before.shared_time
    &&& after.dont_participate_sharing == before.dont_participate_sharing
    &&& after.registrar == before.registrar
    &&& after.beneficiary == before.beneficiary
    &&& after.nonce == before.nonce
}

/// Lend `amount` of the lender's bought balance to the borrower.  The
/// caller first moves `amount` from the lender's to the borrower's vault;
/// on `Reverted` it moves it straight back, and on a `Linked` outcome with
/// `auto_staked` it moves it on into the registrar's stake vault and
/// records the returned receipt.
pub fn trust_to_member(
    registrar: &Registrar,
    round: &Round,
    round_key: AccountId,
    member_who_trust: &mut Member,
    who_key: AccountId,
    who_fctr_vault: AccountId,
    who_bcdev_vault: AccountId,
    member_to_trust: &mut Member,
    to_key: AccountId,
    truster_to_member: &mut TrusterToMember,
    amount: u64,
    now: i64,
) -> (r: Result<TrustOutcome, ErrorCode>)
    requires
        trust_fits(
            *registrar,
            *round,
            round_key,
            *old(member_who_trust),
            *old(member_to_trust),
            who_key,
            old(truster_to_member).last_time_trusted,
            amount,
            now,
        ),
    ensures
        r is Err ==> {
            &&& *final(member_who_trust) == *old(member_who_trust)
            &&& *final(member_to_trust) == *old(member_to_trust)
            &&& *final(truster_to_member) == *old(truster_to_member)
        },
        (trust_gate_error(
            *registrar,
            *old(member_who_trust),
            *old(member_to_trust),
            old(truster_to_member).last_time_trusted,
            amount,
            now,
        ) matches Some(e)) ==> r == Err::<TrustOutcome, ErrorCode>(
            trust_gate_error(
                *registrar,
                *old(member_who_trust),
                *old(member_to_trust),
                old(truster_to_member).last_time_trusted,
                amount,
                now,
            )->Some_0,
        ),
        trust_gate_error(
            *registrar,
            *old(member_who_trust),
            *old(member_to_trust),
            old(truster_to_member).last_time_trusted,
            amount,
            now,
        ) is None && trust_reverts(*old(member_to_trust), round_key) ==> {
            &&& r matches Ok(out) && out is Reverted
            &&& *final(member_who_trust) == *old(member_who_trust)
            &&& *final(member_to_trust) == *old(member_to_trust)
            &&& *final(truster_to_member) == *old(truster_to_member)
        },
        trust_gate_error(
            *registrar,
            *old(member_who_trust),
            *old(member_to_trust),
            old(truster_to_member).last_time_trusted,
            amount,
            now,
        ) is None && !trust_reverts(*old(member_to_trust), round_key) && (trust_stake_gate_error(
            *registrar,
            *round,
            *old(member_to_trust),
            now,
        ) matches Some(e)) ==> r == Err::<TrustOutcome, ErrorCode>(
            trust_stake_gate_error(*registrar, *round, *old(member_to_trust), now)->Some_0,
        ),
        trust_gate_error(
            *registrar,
            *old(member_who_trust),
            *old(member_to_trust),
            old(truster_to_member).last_time_trusted,
            amount,
            now,
        ) is None && !trust_reverts(*old(member_to_trust), round_key) && trust_stake_gate_error(
            *registrar,
            *round,
            *old(member_to_trust),
            now,
        ) is None ==> (r matches Ok(out) && out matches TrustOutcome::Linked {
            check,
            auto_staked,
        } && {
            &&& check == (TrustCheck {
                member_who_trust: who_key,
                member_to_trust: to_key,
                amount,
                round: round_key,
                time_trusted: now,
                burn: false,
            })
            &&& auto_staked == (old(member_to_trust).staked > 0)
            &&& trust_applied_who(*old(member_who_trust), *final(member_who_trust), amount, now)
            &&& trust_applied_to(
                *old(member_to_trust),
                *final(member_to_trust),
                *old(member_who_trust),
                who_key,
                who_fctr_vault,
                who_bcdev_vault,
                amount,
                registrar.round_timelock,
                round.stop_ts - now,
            )
            &&& final(truster_to_member).last_time_trusted == now
        }),
{
    if member_to_trust.dont_participate_sharing {
        return Err(ErrorCode::MemberDontParticipateSharing);
    }
    if !(now - truster_to_member.last_time_trusted > registrar.round_timelock * 30) {
        return Err(ErrorCode::OftenSharingParticipation);
    }
    if !(amount < member_who_trust.bought) {
        return Err(ErrorCode::ShareOnlyBought);
    }
    if !(member_to_trust.trusted_pool.len() < 4) {
        return Err(ErrorCode::MemberTrustersAmountExceeded);
    }
    if !(amount < (member_who_trust.bought - member_who_trust.shared + member_who_trust.trusted)
        / 2) {
        return Err(ErrorCode::AmountMoreThenHalf);
    }
    if !((member_who_trust.bought - member_who_trust.shared + member_who_trust.trusted) - amount
        > member_who_trust.bought / 4) {
        return Err(ErrorCode::AmountLesThenQuater);
    }

    // Trust partners must hold deposits of comparable size.
    let mut who_size: u64 = 0;
    if member_who_trust.bought != 0 {
        who_size = member_who_trust.bought;
    } else if member_who_trust.staked != 0 {
        who_size = member_who_trust.staked;
    }
    let mut to_size: u64 = 0;
    if member_to_trust.bought != 0 {
        to_size = member_to_trust.bought;
    } else if member_to_trust.staked != 0 {
        to_size = member_to_trust.staked;
    }
    if !(who_size >= to_size / 2 && who_size <= to_size * 2) {
        return Err(ErrorCode::AmountBetwenHalfAndDouble);
    }
    if !(to_size >= who_size / 2 && to_size <= who_size * 2) {
        return Err(ErrorCode::AmountBetwenHalfAndDouble);
    }

    // The borrower already unstaked from this very round: round-trip the
    // transfer instead of forming a link.
    let already_unstaked: bool = member_to_trust.unstaked && (match member_to_trust.staked_round {
        Some(k) => k == round_key,
        None => false,
    });
    if already_unstaked {
        return Ok(TrustOutcome::Reverted);
    }

    // When the borrower is mid-stake the amount will be staked at once,
    // which needs the current, still-open round; nothing may change when
    // that fails.
    if member_to_trust.staked > 0 {
        if registrar.current_round != round.number {
            return Err(ErrorCode::StakingNotToCurrentRound);
        }
        if !(round.stop_ts > now) {
            return Err(ErrorCode::RoundTimeIsOverStaking);
        }
    }

    let x_apr: u64 = part_calculation_x10_5(
        member_who_trust.bought + member_who_trust.trusted - member_who_trust.shared,
        amount,
        ACCURACY,
    );

    // Find an existing edge from this lender.
    let pool_len: usize = member_to_trust.trusted_pool.len();
    let mut cur_i: usize = 0;
    let mut found: bool = false;
    let mut i: usize = 0;
    while i < pool_len
        invariant
            *member_who_trust == *old(member_who_trust),
            *member_to_trust == *old(member_to_trust),
            *truster_to_member == *old(truster_to_member),
            pool_len == member_to_trust.trusted_pool@.len(),
            i <= pool_len,
            forall|j: int|
                0 <= j < i ==> member_to_trust.trusted_pool@[j].member_who_trust != who_key,
            found ==> {
                &&& cur_i == i
                &&& cur_i < pool_len
                &&& member_to_trust.trusted_pool@[cur_i as int].member_who_trust == who_key
            },
        ensures
            *member_who_trust == *old(member_who_trust),
            *member_to_trust == *old(member_to_trust),
            *truster_to_member == *old(truster_to_member),
            found ==> {
                &&& cur_i < pool_len
                &&& member_to_trust.trusted_pool@[cur_i as int].member_who_trust == who_key
                &&& forall|j: int|
                    0 <= j < cur_i ==> member_to_trust.trusted_pool@[j].member_who_trust
                        != who_key
            },
            !found ==> forall|j: int|
                0 <= j < pool_len ==> member_to_trust.trusted_pool@[j].member_who_trust
                    != who_key,
        decreases pool_len - i,
    {
        if member_to_trust.trusted_pool[i].member_who_trust == who_key {
            cur_i = i;
            found = true;
            break;
        }
        i = i + 1;
    }
    proof {
        lemma_link_index(member_to_trust.trusted_pool@, who_key);
        assert(found <==> has_link(member_to_trust.trusted_pool@, who_key));
        assert(found ==> cur_i == link_index(member_to_trust.trusted_pool@, who_key));
    }

    if !found {
        let mem_to_mem = MemberToMember {
            member_who_trust: who_key,
            fctr: who_fctr_vault,
            bcdev: who_bcdev_vault,
            trusted_amount: amount,
        };
        member_to_trust.trusted_pool.push(mem_to_mem);
    } else {
        let mut entry: MemberToMember = member_to_trust.trusted_pool[cur_i];
        entry.trusted_amount = entry.trusted_amount + amount;
        member_to_trust.trusted_pool.set(cur_i, entry);
    }

    member_to_trust.trusted = member_to_trust.trusted + amount;
    member_who_trust.shared = member_who_trust.shared + amount;
    member_who_trust.shared_time = now;
    truster_to_member.last_time_trusted = now;

    let mut auto_staked: bool = false;
    if member_to_trust.staked > 0 {
        let staked_time: i64 = round.stop_ts - now;

        // Two bonus percentage points when this lender is new.
        let mut add_apr: u64 = 0;
        if !found {
            add_apr = 2 * ACCURACY;
        }

        let spt_amount: u64 = apr_calculation(
            amount,
            x_apr + add_apr,
            registrar.round_timelock,
            staked_time,
        );

        member_to_trust.staked_trusted = member_to_trust.staked_trusted + amount;
        // Only the incoming amount joins the staked trusted balance; the
        // borrower's bought balance is left alone.  The trusted counter is
        // zeroed nonetheless: a mid-stake borrower holds no other trusted
        // balance in any state these operations produce, so the zeroing
        // discards nothing — a trusted balance carried in from elsewhere
        // would be lost here.
        member_to_trust.trusted = 0;
        member_to_trust.reward = member_to_trust.reward + spt_amount;
        member_to_trust.unstaked = false;
        auto_staked = true;
    }

    let check = TrustCheck {
        member_who_trust: who_key,
        member_to_trust: to_key,
        amount,
        round: round_key,
        time_trusted: now,
        burn: false,
    };
    Ok(TrustOutcome::Linked { check, auto_staked })
}

/// First validation failure over the caller-supplied vaults for the
/// lender's own pool, checked positionally: each must be a token-ledger
/// account and must be the edge's stored tradable-token vault.
pub open spec fn cascade_vault_error(
    provided: Seq<VaultRef>,
    pool: Seq<MemberToMember>,
    i: int,
) -> Option<ErrorCode>
    decreases pool.len() - i,
{
    if i < 0 || i >= pool.len() {
        None
    } else if !provided[i].token_owned {
        Some(ErrorCode::VaultWrongOwner)
    } else if provided[i].key != pool[i].fctr {
        Some(ErrorCode::VaultWrongKey)
    } else {
        cascade_vault_error(provided, pool, i + 1)
    }
}

/// One step of unwinding the lender's own trust pool when it exits: an
/// incoming edge's principal goes back to that edge's lender.
#[derive(Clone, Copy, Debug)]
pub struct CascadePayout {
    /// The receiving lender's tradable-token vault.
    pub fctr: AccountId,
    /// Principal returned.
    pub amount: u64,
    /// Whether it comes from the pooled stake (the exiting lender's
    /// lent-in balance was staked) or from the lender's own vault.
    pub from_stake: bool,
}

/// The token movements a successful `exit_sharing` asks of the caller.
#[derive(Clone, Debug)]
pub struct ExitOutcome {
    /// The exited edge's principal, returned to the exiting lender.
    pub amount: u64,
    /// Whether that principal comes from the pooled stake (the borrower
    /// had staked its lent-in balance) or from the borrower's balance.
    pub from_stake: bool,
    /// One payout per edge of the lender's own pool, in stored order.
    pub cascade: Vec<CascadePayout>,
}

/// The machine limits under which `exit_sharing` neither divides by zero
/// nor over- or underflows.
pub open spec fn exit_fits(
    registrar: Registrar,
    round: Round,
    who: Member,
    to: Member,
    who_key: AccountId,
    now: i64,
) -> bool {
    let pool = to.trusted_pool@;
    let idx = link_index(pool, who_key);
    has_link(pool, who_key) ==> {
        let amount = pool[idx].trusted_amount;
        &&& (to.staked_trusted > 0 ==> {
            &&& amount <= to.staked_trusted
            &&& round.stop_ts - now <= i64::MAX
            &&& apr_calculation_fits(
                amount as int,
                2 * (ACCURACY as int),
                registrar.round_timelock as int,
                round.stop_ts - now,
            )
            &&& spec_apr_calculation(
                amount as int,
                2 * (ACCURACY as int),
                registrar.round_timelock as int,
                round.stop_ts - now,
            ) <= to.reward
        })
        &&& (to.staked_trusted == 0 ==> amount <= to.trusted)
        &&& amount <= who.shared
        &&& pool_amounts_sum(who.trusted_pool@) <= who.trusted
    }
}

/// The borrower-state transition of a successful `exit_sharing`: the edge
/// is removed; a staked lent-in balance gives the principal back from the
/// stake (undoing exactly the two-point bonus the edge contributed to the
/// reward), an unstaked one gives it back from the trusted balance.
pub open spec fn exit_applied_to(
    before: Member,
    after: Member,
    who_key: AccountId,
    round_timelock: i64,
    staked_time: int,
) -> bool {
    let pool = before.trusted_pool@;
    let idx = link_index(pool, who_key);
    let amount = pool[idx].trusted_amount;
    let staked = before.staked_trusted > 0;
    &&& after.trusted_pool@ == pool.remove(idx)
    &&& after.staked_trusted == (if staked {
        before.staked_trusted - amount
    } else {
        before.staked_trusted as int
    })
    &&& after.reward == (if staked {
        before.reward - spec_apr_calculation(
            amount as int,
            2 * (ACCURACY as int),
            round_timelock as int,
            staked_time,
        )
    } else {
        before.reward as int
    })
    &&& after.trusted == (if staked {
        before.trusted as int
    } else {
        before.trusted - amount
    })
    &&& after.bought == before.bought
    &&& after.staked == before.staked
    &&& after.staked_round == before.staked_round
    &&& after.unstaked == before.unstaked
    &&& after.shared == before.shared
    &&& after.shared_time == before.shared_time
    &&& after.dont_participate_sharing == before.dont_participate_sharing
    &&& after.registrar == before.registrar
    &&& after.beneficiary == before.beneficiary
    &&& after.nonce == before.nonce
}

/// The lender-state transition of a successful `exit_sharing`: its shared
/// counter falls by the edge's amount, and its own incoming edges are
/// unwound one level (principals returned, trusted counter reconciled,
/// pool cleared).
pub open spec fn exit_applied_who(before: Member, after: Member, amount: u64) -> bool {
    &&& after.shared == before.shared - amount
    &&& (before.trusted_pool@.len() > 0 ==> {
        &&& after.trusted_pool@.len() == 0
        &&& after.trusted == before.trusted - pool_amounts_sum(before.trusted_pool@)
    })
    &&& (before.trusted_pool@.len() == 0 ==> {
        &&& after.trusted_pool@ == before.trusted_pool@
        &&& after.trusted == before.trusted
    })
    &&& after.bought == before.bought
    &&& after.staked == before.staked
    &&& after.staked_trusted == before.staked_trusted
    &&& after.staked_round == before.staked_round
    &&& after.unstaked == before.unstaked
    &&& after.reward == before.reward
    &&& after.shared_time == before.shared_time
    &&& after.dont_participate_sharing == before.dont_participate_sharing
    &&& after.registrar == before.registrar
    &&& after.beneficiary == before.beneficiary
    &&& after.nonce == before.nonce
}

/// The token movements reported by a successful `exit_sharing` match the
/// state the two members held when it was called.
pub open spec fn exit_outcome_correct(
    who_before: Member,
    to_before: Member,
    who_key: AccountId,
    out: ExitOutcome,
) -> bool {
    let pool = to_before.trusted_pool@;
    let idx = link_index(pool, who_key);
    let wpool = who_before.trusted_pool@;
    &&& out.amount == pool[idx].trusted_amount
    &&& out.from_stake == (to_before.staked_trusted > 0)
    &&& out.cascade@.len() == wpool.len()
    &&& forall|i: int|
        0 <= i < wpool.len() ==> {
            let c = #[trigger] out.cascade@[i];
            &&& c.fctr == wpool[i].fctr
            &&& c.amount == wpool[i].trusted_amount
            &&& c.from_stake == (who_before.staked_trusted > 0)
        }
}

/// Take back the amount this lender shared to the borrower, remove the
/// edge, and consume the receipt (which must be this lender's), then
/// unwind the lender's own incoming edges one level.  The caller supplies
/// one tradable-token vault per edge of the lender's own pool, in stored
/// order; on success the outcome lists every transfer the caller must
/// perform.
pub fn exit_sharing(
    registrar: &Registrar,
    round: &Round,
    member_who_trust: &mut Member,
    who_key: AccountId,
    member_to_trust: &mut Member,
    trust_check: &mut TrustCheck,
    provided: &Vec<VaultRef>,
    now: i64,
) -> (r: Result<ExitOutcome, ErrorCode>)
    requires
        !old(trust_check).burn,
        old(trust_check).member_who_trust == who_key,
        old(member_who_trust).trusted_pool@.len() <= 4,
        exit_fits(
            *registrar,
            *round,
            *old(member_who_trust),
            *old(member_to_trust),
            who_key,
            now,
        ),
    ensures
        r is Err ==> {
            &&& *final(member_who_trust) == *old(member_who_trust)
            &&& *final(member_to_trust) == *old(member_to_trust)
            &&& *final(trust_check) == *old(trust_check)
        },
        !has_link(old(member_to_trust).trusted_pool@, who_key) ==> (r matches Err(e) && e
            == ErrorCode::MemberDidntShare),
        has_link(old(member_to_trust).trusted_pool@, who_key) && old(
            member_who_trust,
        ).trusted_pool@.len() > 0 && provided@.len() != old(member_who_trust).trusted_pool@.len()
            ==> (r matches Err(e) && e == ErrorCode::LowRemainingAccountsProvided),
        has_link(old(member_to_trust).trusted_pool@, who_key) && provided@.len() == old(
            member_who_trust,
        ).trusted_pool@.len() && (cascade_vault_error(
            provided@,
            old(member_who_trust).trusted_pool@,
            0,
        ) matches Some(e)) ==> r == Err::<ExitOutcome, ErrorCode>(
            cascade_vault_error(provided@, old(member_who_trust).trusted_pool@, 0)->Some_0,
        ),
        has_link(old(member_to_trust).trusted_pool@, who_key) && (old(
            member_who_trust,
        ).trusted_pool@.len() == 0 || (provided@.len() == old(
            member_who_trust,
        ).trusted_pool@.len() && cascade_vault_error(
            provided@,
            old(member_who_trust).trusted_pool@,
            0,
        ) is None)) ==> (r matches Ok(out) && {
            &&& exit_applied_to(
                *old(member_to_trust),
                *final(member_to_trust),
                who_key,
                registrar.round_timelock,
                round.stop_ts - now,
            )
            &&& exit_applied_who(
                *old(member_who_trust),
                *final(member_who_trust),
                old(member_to_trust).trusted_pool@[link_index(
                    old(member_to_trust).trusted_pool@,
                    who_key,
                )].trusted_amount,
            )
            &&& *final(trust_check) == (TrustCheck { burn: true, ..*old(trust_check) })
            &&& exit_outcome_correct(
                *old(member_who_trust),
                *old(member_to_trust),
                who_key,
                out,
            )
        }),
{
    // Find the lender's edge in the borrower's pool.
    let pool_len: usize = member_to_trust.trusted_pool.len();
    let mut cur_i: usize = 0;
    let mut found: bool = false;
    let mut i: usize = 0;
    while i < pool_len
        invariant
            *member_who_trust == *old(member_who_trust),
            *member_to_trust == *old(member_to_trust),
            *trust_check == *old(trust_check),
            pool_len == member_to_trust.trusted_pool@.len(),
            i <= pool_len,
            forall|j: int|
                0 <= j < i ==> member_to_trust.trusted_pool@[j].member_who_trust != who_key,
            found ==> {
                &&& cur_i == i
                &&& cur_i < pool_len
                &&& member_to_trust.trusted_pool@[cur_i as int].member_who_trust == who_key
            },
        ensures
            *member_who_trust == *old(member_who_trust),
            *member_to_trust == *old(member_to_trust),
            *trust_check == *old(trust_check),
            found ==> {
                &&& cur_i < pool_len
                &&& member_to_trust.trusted_pool@[cur_i as int].member_who_trust == who_key
                &&& forall|j: int|
                    0 <= j < cur_i ==> member_to_trust.trusted_pool@[j].member_who_trust
                        != who_key
            },
            !found ==> forall|j: int|
                0 <= j < pool_len ==> member_to_trust.trusted_pool@[j].member_who_trust
                    != who_key,
        decreases pool_len - i,
    {
        if member_to_trust.trusted_pool[i].member_who_trust == who_key {
            cur_i = i;
            found = true;
            break;
        }
        i = i + 1;
    }
    proof {
        lemma_link_index(member_to_trust.trusted_pool@, who_key);
    }

    if !found {
        return Err(ErrorCode::MemberDidntShare);
    }

    let amount: u64 = member_to_trust.trusted_pool[cur_i].trusted_amount;

    // Validate the cascade vault list before anything changes.
    let who_pool_len: usize = member_who_trust.trusted_pool.len();
    if who_pool_len > 0 {
        if provided.len() != who_pool_len {
            return Err(ErrorCode::LowRemainingAccountsProvided);
        }
        let mut k: usize = 0;
        while k < who_pool_len
            invariant
                *member_who_trust == *old(member_who_trust),
                *member_to_trust == *old(member_to_trust),
                *trust_check == *old(trust_check),
                has_link(member_to_trust.trusted_pool@, who_key),
                k <= who_pool_len,
                who_pool_len == member_who_trust.trusted_pool@.len(),
                provided@.len() == who_pool_len,
                cascade_vault_error(provided@, member_who_trust.trusted_pool@, 0)
                    == cascade_vault_error(provided@, member_who_trust.trusted_pool@, k as int),
            decreases who_pool_len - k,
        {
            if !provided[k].token_owned {
                return Err(ErrorCode::VaultWrongOwner);
            }
            if provided[k].key != member_who_trust.trusted_pool[k].fctr {
                return Err(ErrorCode::VaultWrongKey);
            }
            k = k + 1;
        }
    }

    // Give the edge's principal back to the lender.
    let from_stake: bool = member_to_trust.staked_trusted > 0;
    if from_stake {
        member_to_trust.staked_trusted = member_to_trust.staked_trusted - amount;

        // Undo exactly the two-point bonus this edge contributed.
        let staked_time: i64 = round.stop_ts - now;
        let spt_amount: u64 = apr_calculation(
            amount,
            2 * ACCURACY,
            registrar.round_timelock,
            staked_time,
        );
        member_to_trust.reward = member_to_trust.reward - spt_amount;
    } else {
        member_to_trust.trusted = member_to_trust.trusted - amount;
    }

    member_to_trust.trusted_pool.remove(cur_i);
    member_who_trust.shared = member_who_trust.shared - amount;
    trust_check.burn = true;

    // Unwind the lender's own incoming edges one level.
    let mut cascade: Vec<CascadePayout> = Vec::new();
    if who_pool_len > 0 {
        let who_from_stake: bool = member_who_trust.staked_trusted > 0;
        let ghost who_mid = *member_who_trust;
        let ghost to_done = *member_to_trust;
        let ghost check_done = *trust_check;
        let mut k: usize = 0;
        while k < who_pool_len
            invariant
                *member_to_trust == to_done,
                *trust_check == check_done,
                k <= who_pool_len,
                who_pool_len == who_mid.trusted_pool@.len(),
                *member_who_trust == (Member { trusted: member_who_trust.trusted, ..who_mid }),
                member_who_trust.trusted as int == who_mid.trusted - pool_amounts_sum(
                    who_mid.trusted_pool@.subrange(0, k as int),
                ),
                pool_amounts_sum(who_mid.trusted_pool@) <= who_mid.trusted,
                who_from_stake == (who_mid.staked_trusted > 0),
                cascade@.len() == k,
                forall|j: int|
                    0 <= j < k ==> {
                        let c = #[trigger] cascade@[j];
                        &&& c.fctr == who_mid.trusted_pool@[j].fctr
                        &&& c.amount == who_mid.trusted_pool@[j].trusted_amount
                        &&& c.from_stake == who_from_stake
                    },
            decreases who_pool_len - k,
        {
            let entry: MemberToMember = member_who_trust.trusted_pool[k];
            proof {
                lemma_pool_sum_prefix(who_mid.trusted_pool@, k as int + 1);
                assert(who_mid.trusted_pool@.subrange(0, k as int + 1).drop_last()
                    =~= who_mid.trusted_pool@.subrange(0, k as int));
                assert(who_mid.trusted_pool@.subrange(0, k as int + 1).last()
                    == who_mid.trusted_pool@[k as int]);
            }
            cascade.push(
                CascadePayout {
                    fctr: entry.fctr,
                    amount: entry.trusted_amount,
                    from_stake: who_from_stake,
                },
            );
            member_who_trust.trusted = member_who_trust.trusted - entry.trusted_amount;
            k = k + 1;
        }
        proof {
            assert(who_mid.trusted_pool@.subrange(0, who_pool_len as int)
                =~= who_mid.trusted_pool@);
        }
        member_who_trust.trusted_pool = Vec::new();
    }

    Ok(ExitOutcome { amount, from_stake, cascade })
}

/// Reconcile the lender's shared counter once the borrower has provably
/// unstaked: the round has closed, and either the borrower is flagged
/// unstaked or its current stake belongs to a different round.
/// `round` and `round_key` are the round the receipt references.
/// Consumes the receipt.
pub fn check_unstaked(
    registrar: &Registrar,
    round: &Round,
    round_key: AccountId,
    member_to_trust: &Member,
    member_who_trust: &mut Member,
    trust_check: &mut TrustCheck,
) -> (r: Result<(), ErrorCode>)
    requires
        !old(trust_check).burn,
        round_key == old(trust_check).round,
        old(trust_check).amount <= old(member_who_trust).shared,
    ensures
        r is Err ==> {
            &&& *final(member_who_trust) == *old(member_who_trust)
            &&& *final(trust_check) == *old(trust_check)
        },
        registrar.current_round <= round.number ==> (r matches Err(e) && e
            == ErrorCode::EarlyUnstakingCheck),
        registrar.current_round > round.number && !member_to_trust.unstaked
            && member_to_trust.staked_round == Some(round_key) ==> (r matches Err(e) && e
            == ErrorCode::EarlyUnstakingCheck),
        registrar.current_round > round.number && (member_to_trust.unstaked
            || member_to_trust.staked_round != Some(round_key)) ==> (r matches Ok(u) && {
            &&& *final(member_who_trust) == (Member {
                shared: (old(member_who_trust).shared - old(trust_check).amount) as u64,
                ..*old(member_who_trust)
            })
            &&& *final(trust_check) == (TrustCheck { burn: true, ..*old(trust_check) })
        }),
{
    if !(registrar.current_round > round.number) {
        return Err(ErrorCode::EarlyUnstakingCheck);
    }
    if !member_to_trust.unstaked {
        let same_round: bool = match member_to_trust.staked_round {
            Some(k) => k == round_key,
            None => false,
        };
        if same_round {
            return Err(ErrorCode::EarlyUnstakingCheck);
        }
    }
    member_who_trust.shared = member_who_trust.shared - trust_check.amount;
    trust_check.burn = true;
    Ok(())
}

/// Reconcile the lender's shared counter once the borrower has fully
/// exited sharing (its own shared counter is zero).  Consumes the
/// receipt.
pub fn check_exit(
    member_to_trust: &Member,
    member_who_trust: &mut Member,
    trust_check: &mut TrustCheck,
) -> (r: Result<(), ErrorCode>)
    requires
        !old(trust_check).burn,
        old(trust_check).amount <= old(member_who_trust).shared,
    ensures
        r is Err ==> {
            &&& *final(member_who_trust) == *old(member_who_trust)
            &&& *final(trust_check) == *old(trust_check)
        },
        member_to_trust.shared != 0 ==> (r matches Err(e) && e == ErrorCode::MemberDidntExit),
        member_to_trust.shared == 0 ==> (r matches Ok(u) && {
            &&& *final(member_who_trust) == (Member {
                shared: (old(member_who_trust).shared - old(trust_check).amount) as u64,
                ..*old(member_who_trust)
            })
            &&& *final(trust_check) == (TrustCheck { burn: true, ..*old(trust_check) })
        }),
{
    if member_to_trust.shared != 0 {
        return Err(ErrorCode::MemberDidntExit);
    }
    member_who_trust.shared = member_who_trust.shared - trust_check.amount;
    trust_check.burn = true;
    Ok(())
}

} // verus!
