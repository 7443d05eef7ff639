//! Stake/unstake engine.
//!
//! `stake` moves a member's whole free balance into the pooled stake and
//! credits a time-weighted reward for the remainder of the round.
//! `unstake`, once the round has closed and the cursor has moved on,
//! returns the principal, splits the reward with the member's lenders in
//! proportion to each lent amount, and resets the member for the next
//! round.
//!
//! Token movements are reported to the caller as plain amounts and vault
//! identities; the caller performs them through the token ledger service.

use vstd::prelude::*;
use crate::arith::{
    ACCURACY, apr_calculation, apr_calculation_fits, part_calculation_fits,
    part_calculation_x10_5, spec_apr_calculation, spec_part_calculation_x10_5,
};
use crate::ledger::{AccountId, ErrorCode, Member, MemberToMember, Registrar, Round, VaultRef,
    free_balance};

verus! {

/// What one lender receives when its borrower unstakes: the lent principal
/// back from the stake pool and a proportional slice of the reward, to the
/// two vaults stored with the trust edge.
#[derive(Clone, Copy, Debug)]
pub struct TrusterPayout {
    /// The lender's tradable-token vault.
    pub fctr: AccountId,
    /// The lender's reward-token vault.
    pub bcdev: AccountId,
    /// Lent principal returned from the stake pool.
    pub principal: u64,
    /// Reward-token amount issued to the lender.
    pub reward: u64,
}

/// The token movements a successful `unstake` asks of the caller.
#[derive(Clone, Debug)]
pub struct UnstakeOutcome {
    /// Staked principal returned to the member from the stake pool.
    pub principal: u64,
    /// Reward-token amount issued to the member.
    pub member_reward: u64,
    /// One payout per trust-pool edge, in stored order.
    pub truster_payouts: Vec<TrusterPayout>,
}

/// The reward rate of a stake, in scale-100000 percent: 1% for a member
/// who lent nothing, otherwise the member's remaining balance measured
/// against what it lent out; plus two percentage points per lender edge.
pub open spec fn stake_rate(m: Member) -> int {
    let base = if m.shared == 0 {
        100_000int
    } else {
        spec_part_calculation_x10_5(
            m.bought + m.trusted - m.shared,
            m.shared as int,
            ACCURACY as int,
        )
    };
    base + 2 * (ACCURACY as int) * m.trusted_pool@.len()
}

/// A round accepts a stake while it is the registrar's current round, its
/// close time has not passed, and the member's free balance
/// (`bought - shared + trusted`) is non-zero.
pub open spec fn stake_allowed(registrar: Registrar, round: Round, m: Member, now: i64) -> bool {
    &&& registrar.current_round == round.number
    &&& round.stop_ts > now
    &&& free_balance(m) != 0
}

/// The machine limits under which `stake`'s arithmetic neither underflows
/// nor overflows.
pub open spec fn stake_fits(m: Member, round_timelock: i64, staked_time: int) -> bool {
    &&& m.trusted_pool@.len() <= 4
    &&& m.shared <= m.bought
    &&& m.bought + m.trusted <= u64::MAX
    &&& (m.shared != 0 ==> part_calculation_fits(
        m.bought + m.trusted - m.shared,
        m.shared as int,
        ACCURACY as int,
    ))
    &&& stake_rate(m) <= u64::MAX
    &&& apr_calculation_fits(free_balance(m), stake_rate(m), round_timelock as int, staked_time)
    &&& m.staked + m.bought - m.shared <= u64::MAX
    &&& m.staked_trusted + m.trusted <= u64::MAX
    &&& m.reward + spec_apr_calculation(
        free_balance(m),
        stake_rate(m),
        round_timelock as int,
        staked_time,
    ) <= u64::MAX
}

/// The member-state transition of a successful `stake`.
pub open spec fn stake_applied(
    before: Member,
    after: Member,
    round_key: AccountId,
    round_timelock: i64,
    staked_time: int,
) -> bool {
    &&& after.staked == before.staked + before.bought - before.shared
    &&& after.staked_trusted == before.staked_trusted + before.trusted
    &&& after.bought == 0
    &&& after.trusted == 0
    &&& after.reward == before.reward + spec_apr_calculation(
        free_balance(before),
        stake_rate(before),
        round_timelock as int,
        staked_time,
    )
    &&& after.unstaked == false
    &&& after.staked_round == Some(round_key)
    &&& after.registrar == before.registrar
    &&& after.beneficiary == before.beneficiary
    &&& after.shared == before.shared
    &&& after.shared_time == before.shared_time
    &&& after.dont_participate_sharing == before.dont_participate_sharing
    &&& after.trusted_pool == before.trusted_pool
    &&& after.nonce == before.nonce
}

/// Stake the member's whole free balance (`bought - shared + trusted`)
/// into the current round.  Returns the amount the caller must move into
/// the registrar's stake vault.
pub fn stake(
    registrar: &Registrar,
    round: &Round,
    round_key: AccountId,
    member: &mut Member,
    now: i64,
) -> (r: Result<u64, ErrorCode>)
    requires
        registrar.current_round == round.number && round.stop_ts > now ==> {
            &&& old(member).shared <= old(member).bought
            &&& old(member).bought + old(member).trusted <= u64::MAX
        },
        stake_allowed(*registrar, *round, *old(member), now) ==> round.stop_ts - now
            <= i64::MAX,
        stake_allowed(*registrar, *round, *old(member), now) ==> stake_fits(
            *old(member),
            registrar.round_timelock,
            round.stop_ts - now,
        ),
    ensures
        r is Err ==> *final(member) == *old(member),
        registrar.current_round != round.number ==> (r matches Err(e) && e
            == ErrorCode::StakingNotToCurrentRound),
        registrar.current_round == round.number && round.stop_ts <= now ==> (r matches Err(e)
            && e == ErrorCode::RoundTimeIsOverStaking),
        registrar.current_round == round.number && round.stop_ts > now && free_balance(
            *old(member),
        ) == 0 ==> (r matches Err(e) && e == ErrorCode::NotEnouphForStake),
        stake_allowed(*registrar, *round, *old(member), now) ==> (r matches Ok(amount) && {
            &&& amount == free_balance(*old(member))
            &&& stake_applied(
                *old(member),
                *final(member),
                round_key,
                registrar.round_timelock,
                round.stop_ts - now,
            )
        }),
{
    if registrar.current_round != round.number {
        return Err(ErrorCode::StakingNotToCurrentRound);
    }
    if round.stop_ts <= now {
        return Err(ErrorCode::RoundTimeIsOverStaking);
    }

    let token_amount: u64 = member.bought - member.shared + member.trusted;
    if token_amount == 0 {
        return Err(ErrorCode::NotEnouphForStake);
    }

    let staked_time: i64 = round.stop_ts - now;

    // Two percentage points of extra rate for each lender edge.
    let pool_len: usize = member.trusted_pool.len();
    let mut add_apr: u64 = 0;
    let mut i: usize = 0;
    while i < pool_len
        invariant
            i <= pool_len,
            pool_len <= 4,
            add_apr == 200_000int * (i as int),
        decreases pool_len - i,
    {
        add_apr = add_apr + 2 * ACCURACY;
        i = i + 1;
    }
    proof {
        assert(add_apr == 2 * (ACCURACY as int) * (pool_len as int)) by (nonlinear_arith)
            requires
                add_apr == 200_000int * (pool_len as int),
                ACCURACY == 100_000,
        ;
    }

    // Base rate: 1% when nothing was lent out, otherwise the member's
    // remaining balance measured against what it lent.
    let x_apr: u64 = if member.shared == 0 {
        100_000
    } else {
        part_calculation_x10_5(
            member.bought + member.trusted - member.shared,
            member.shared,
            ACCURACY,
        )
    };

    assert(x_apr + add_apr == stake_rate(*old(member)));

    let spt_amount: u64 = apr_calculation(
        token_amount,
        x_apr + add_apr,
        registrar.round_timelock,
        staked_time,
    );

    member.staked = member.staked + (member.bought - member.shared);
    member.staked_trusted = member.staked_trusted + member.trusted;
    member.bought = 0;
    member.trusted = 0;
    member.reward = member.reward + spt_amount;
    member.unstaked = false;
    member.staked_round = Some(round_key);

    Ok(token_amount)
}

/// A round releases a stake once the registrar's cursor has moved past it
/// and its close time has passed, for a member with a live stake.
pub open spec fn unstake_allowed(registrar: Registrar, round: Round, m: Member, now: i64) -> bool {
    &&& registrar.current_round > round.number
    &&& round.stop_ts < now
    &&& m.staked > 0
}

/// The reward-token amount kept by the unstaking member: half when any
/// lender edge is live, all of it otherwise.
pub open spec fn member_reward_share(m: Member) -> int {
    if m.trusted_pool@.len() > 0 {
        m.reward as int / 2
    } else {
        m.reward as int
    }
}

/// One lender's reward slice: its lent amount measured against the whole
/// lent-in stake (scale-100000), times the lenders' reward reduced by the
/// same scale.
pub open spec fn truster_reward(entry_amount: int, total: int, trusters_amount: int) -> int {
    spec_part_calculation_x10_5(entry_amount, total, ACCURACY as int) * (trusters_amount / (
    ACCURACY as int))
}

/// First validation failure over the caller-supplied vault pairs, checked
/// positionally against the stored trust-pool order: both of a pair's
/// accounts must be token-ledger accounts, and must be the edge's stored
/// tradable-token and reward-token vaults.
pub open spec fn vault_pair_error(
    provided: Seq<VaultRef>,
    pool: Seq<MemberToMember>,
    i: int,
) -> Option<ErrorCode>
    decreases pool.len() - i,
{
    if i < 0 || i >= pool.len() {
        None
    } else if !provided[2 * i].token_owned || !provided[2 * i + 1].token_owned {
        Some(ErrorCode::VaultWrongOwner)
    } else if provided[2 * i].key != pool[i].fctr || provided[2 * i + 1].key != pool[i].bcdev {
        Some(ErrorCode::VaultWrongKey)
    } else {
        vault_pair_error(provided, pool, i + 1)
    }
}

/// The machine limits under which `unstake`'s reward split neither divides
/// by zero nor overflows.
pub open spec fn unstake_fits(m: Member) -> bool {
    let pool = m.trusted_pool@;
    let trusters_amount = m.reward - m.reward as int / 2;
    pool.len() > 0 ==> {
        &&& m.staked_trusted > 0
        &&& forall|i: int| 0 <= i < pool.len() ==> #[trigger] part_calculation_fits(
            pool[i].trusted_amount as int,
            m.staked_trusted as int,
            ACCURACY as int,
        )
        &&& forall|i: int| 0 <= i < pool.len() ==> #[trigger] truster_reward(
            pool[i].trusted_amount as int,
            m.staked_trusted as int,
            trusters_amount,
        ) <= u64::MAX
    }
}

/// The member-state transition of a successful `unstake`: the principal
/// becomes the bought balance again and every staking counter resets.
pub open spec fn unstake_applied(before: Member, after: Member) -> bool {
    &&& after.reward == 0
    &&& after.bought == before.staked
    &&& after.trusted_pool@.len() == 0
    &&& after.trusted == 0
    &&& after.staked == 0
    &&& after.staked_trusted == 0
    &&& after.unstaked == true
    &&& after.registrar == before.registrar
    &&& after.beneficiary == before.beneficiary
    &&& after.shared == before.shared
    &&& after.shared_time == before.shared_time
    &&& after.staked_round == before.staked_round
    &&& after.dont_participate_sharing == before.dont_participate_sharing
    &&& after.nonce == before.nonce
}

/// The token movements reported by a successful `unstake` match the state
/// the member held when it was called.
pub open spec fn unstake_outcome_correct(before: Member, out: UnstakeOutcome) -> bool {
    let pool = before.trusted_pool@;
    let trusters_amount = before.reward - member_reward_share(before);
    &&& out.principal == before.staked
    &&& out.member_reward == member_reward_share(before)
    &&& out.truster_payouts@.len() == pool.len()
    &&& forall|i: int|
        0 <= i < pool.len() ==> {
            let p = #[trigger] out.truster_payouts@[i];
            &&& p.fctr == pool[i].fctr
            &&& p.bcdev == pool[i].bcdev
            &&& p.principal == pool[i].trusted_amount
            &&& p.reward == truster_reward(
                pool[i].trusted_amount as int,
                before.staked_trusted as int,
                trusters_amount,
            )
        }
}

/// Unwind the member's stake.  The caller supplies, for each trust-pool
/// edge in stored order, the edge's tradable-token and reward-token vaults;
/// any count or identity mismatch rejects the whole operation.  On success
/// the outcome lists every transfer the caller must perform.
pub fn unstake(
    registrar: &Registrar,
    round: &Round,
    member: &mut Member,
    now: i64,
    provided: &Vec<VaultRef>,
) -> (r: Result<UnstakeOutcome, ErrorCode>)
    requires
        old(member).trusted_pool@.len() <= 4,
        unstake_allowed(*registrar, *round, *old(member), now) ==> unstake_fits(*old(member)),
    ensures
        r is Err ==> *final(member) == *old(member),
        registrar.current_round <= round.number ==> (r matches Err(e) && e
            == ErrorCode::EarlyUnstaking),
        registrar.current_round > round.number && round.stop_ts >= now ==> (r matches Err(e)
            && e == ErrorCode::RoundTimeIsOverUnstaking),
        registrar.current_round > round.number && round.stop_ts < now && old(member).staked
            == 0 ==> (r matches Err(e) && e == ErrorCode::DidntStakedAnything),
        unstake_allowed(*registrar, *round, *old(member), now) && old(
            member,
        ).trusted_pool@.len() > 0 && provided@.len() != 2 * old(member).trusted_pool@.len()
            ==> (r matches Err(e) && e == ErrorCode::LowRemainingAccountsProvided),
        unstake_allowed(*registrar, *round, *old(member), now) && provided@.len() == 2 * old(
            member,
        ).trusted_pool@.len() && (vault_pair_error(provided@, old(member).trusted_pool@, 0)
            matches Some(e)) ==> r == Err::<UnstakeOutcome, ErrorCode>(
            vault_pair_error(provided@, old(member).trusted_pool@, 0)->Some_0,
        ),
        unstake_allowed(*registrar, *round, *old(member), now) && (old(
            member,
        ).trusted_pool@.len() == 0 || (provided@.len() == 2 * old(member).trusted_pool@.len()
            && vault_pair_error(provided@, old(member).trusted_pool@, 0) is None)) ==> (r
            matches Ok(out) && {
            &&& unstake_applied(*old(member), *final(member))
            &&& unstake_outcome_correct(*old(member), out)
        }),
{
    if registrar.current_round <= round.number {
        return Err(ErrorCode::EarlyUnstaking);
    }
    if round.stop_ts >= now {
        return Err(ErrorCode::RoundTimeIsOverUnstaking);
    }
    if member.staked == 0 {
        return Err(ErrorCode::DidntStakedAnything);
    }

    let token_amount: u64 = member.staked;
    let pool_len: usize = member.trusted_pool.len();

    // The member keeps half the reward when it had lenders, all otherwise.
    let spt_amount_member: u64 = if pool_len > 0 {
        member.reward / 2
    } else {
        member.reward
    };

    let mut payouts: Vec<TrusterPayout> = Vec::new();

    if pool_len > 0 {
        if provided.len() != pool_len * 2 {
            return Err(ErrorCode::LowRemainingAccountsProvided);
        }

        // Validate every supplied pair against the stored order before
        // anything moves.
        let mut i: usize = 0;
        while i < pool_len
            invariant
                *member == *old(member),
                unstake_allowed(*registrar, *round, *old(member), now),
                i <= pool_len,
                pool_len == member.trusted_pool@.len(),
                pool_len <= 4,
                provided@.len() == 2 * pool_len,
                vault_pair_error(provided@, member.trusted_pool@, 0) == vault_pair_error(
                    provided@,
                    member.trusted_pool@,
                    i as int,
                ),
            decreases pool_len - i,
        {
            if !provided[2 * i].token_owned || !provided[2 * i + 1].token_owned {
                return Err(ErrorCode::VaultWrongOwner);
            }
            if provided[2 * i].key != member.trusted_pool[i].fctr || provided[2 * i + 1].key
                != member.trusted_pool[i].bcdev {
                return Err(ErrorCode::VaultWrongKey);
            }
            i = i + 1;
        }

        // Split the lenders' reward share across the pool in proportion to
        // each lent amount.
        let total: u64 = member.staked_trusted;
        let spt_amount_trusters: u64 = member.reward - spt_amount_member;
        let spt_reduced: u64 = spt_amount_trusters / ACCURACY;

        let mut j: usize = 0;
        while j < pool_len
            invariant
                *member == *old(member),
                unstake_allowed(*registrar, *round, *old(member), now),
                j <= pool_len,
                pool_len == member.trusted_pool@.len(),
                pool_len > 0,
                unstake_fits(*member),
                total == member.staked_trusted,
                spt_amount_member == member.reward as int / 2,
                spt_amount_trusters == member.reward - member.reward as int / 2,
                spt_reduced == spt_amount_trusters as int / (ACCURACY as int),
                payouts@.len() == j,
                forall|k: int|
                    0 <= k < j ==> {
                        let p = #[trigger] payouts@[k];
                        &&& p.fctr == member.trusted_pool@[k].fctr
                        &&& p.bcdev == member.trusted_pool@[k].bcdev
                        &&& p.principal == member.trusted_pool@[k].trusted_amount
                        &&& p.reward == truster_reward(
                            member.trusted_pool@[k].trusted_amount as int,
                            member.staked_trusted as int,
                            spt_amount_trusters as int,
                        )
                    },
            decreases pool_len - j,
        {
            let entry: MemberToMember = member.trusted_pool[j];
            proof {
                assert(part_calculation_fits(
                    member.trusted_pool@[j as int].trusted_amount as int,
                    member.staked_trusted as int,
                    ACCURACY as int,
                ));
                assert(truster_reward(
                    member.trusted_pool@[j as int].trusted_amount as int,
                    member.staked_trusted as int,
                    member.reward - member.reward as int / 2,
                ) <= u64::MAX);
            }
            let spt_part: u64 = part_calculation_x10_5(entry.trusted_amount, total, ACCURACY);
            let reward_j: u64 = spt_part * spt_reduced;
            payouts.push(
                TrusterPayout {
                    fctr: entry.fctr,
                    bcdev: entry.bcdev,
                    principal: entry.trusted_amount,
                    reward: reward_j,
                },
            );
            j = j + 1;
        }
    }

    member.reward = 0;
    member.bought = token_amount;
    member.trusted_pool = Vec::new();
    member.trusted = 0;
    member.staked = 0;
    member.staked_trusted = 0;
    member.unstaked = true;

    Ok(
        UnstakeOutcome {
            principal: token_amount,
            member_reward: spt_amount_member,
            truster_payouts: payouts,
        },
    )
}

} // verus!
