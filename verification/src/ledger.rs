//! Ledger entities: the registrar singleton, rounds, members, trust-pool
//! entries, trust receipts, the pair rate-limit record, and the error type
//! shared by every operation.
//!
//! Account identities (the owner of a member record, a token vault, a round
//! record) are opaque to the ledger: it only ever compares them for
//! equality.  `AccountId` carries such an identity as a plain value; the
//! caller maps it to whatever its storage layer uses as an address.

use vstd::prelude::*;

verus! {

/// An opaque account identity; the ledger only compares these for equality.
#[derive(Clone, Copy, Debug, PartialEq, Eq, Structural, Hash)]
pub struct AccountId(pub u64);

/// Global configuration and round cursor, one per deployment.
#[derive(Clone, Debug)]
pub struct Registrar {
    /// Privileged account allowed to drive the round lifecycle.
    pub authority: AccountId,
    /// Nonce deriving the signing authority that owns the vaults.
    pub nonce: u8,
    /// Once set, no further round may open.
    pub finalized: bool,
    /// Identity of the tradable-token issue.
    pub mint: AccountId,
    /// Identity of the reward-token issue.
    pub pool_mint: AccountId,
    /// Seconds a round lasts.
    pub round_timelock: i64,
    /// Sequence number of the latest round.
    pub current_round: u32,
    /// Record identity of the latest round, if any round has opened.
    pub current_round_account: Option<AccountId>,
}

/// One staking epoch: a fixed time window with a hard close time.
#[derive(Clone, Copy, Debug)]
pub struct Round {
    /// Registrar the round belongs to.
    pub registrar: AccountId,
    /// Round start time.
    pub start_ts: i64,
    /// Round close time: `start_ts` plus the registrar's timelock.
    pub stop_ts: i64,
    /// Round sequence number.
    pub number: u32,
    /// Whether this round finalizes the registrar.
    pub final_round: bool,
}

/// One lender's edge in a borrower's trust pool.
#[derive(Clone, Copy, Debug, PartialEq, Eq, Structural)]
pub struct MemberToMember {
    /// The lending member's record identity.
    pub member_who_trust: AccountId,
    /// The lender's tradable-token vault.
    pub fctr: AccountId,
    /// The lender's reward-token vault.
    pub bcdev: AccountId,
    /// Amount lent through this edge.
    pub trusted_amount: u64,
}

/// Per-participant balances and staking state.
#[derive(Clone, Debug)]
pub struct Member {
    /// Registrar the member belongs to.
    pub registrar: AccountId,
    /// The effective owner of the member record.
    pub beneficiary: AccountId,
    /// Free tradable balance under ledger control.
    pub bought: u64,
    /// Balance lent in by others, not yet folded into a stake.
    pub trusted: u64,
    /// Amount this member has lent out to others.
    pub shared: u64,
    /// When this member last lent.
    pub shared_time: i64,
    /// Own balance currently locked for the active stake.
    pub staked: u64,
    /// Lent-in balance currently locked for the active stake.
    pub staked_trusted: u64,
    /// Round the current stake belongs to, if any.
    pub staked_round: Option<AccountId>,
    /// Whether the last stake has been unwound.
    pub unstaked: bool,
    /// Accrued reward, in reward-token smallest units.
    pub reward: u64,
    /// Whether this member refuses incoming trust.
    pub dont_participate_sharing: bool,
    /// Up to four lender edges, in arrival order.
    pub trusted_pool: Vec<MemberToMember>,
    /// Nonce deriving the member's signing authority.
    pub nonce: u8,
}

/// Receipt of an established trust; lets the lender later reconcile its
/// `shared` counter once the borrower's state has moved on.  Consumed
/// exactly once.
#[derive(Clone, Copy, Debug)]
pub struct TrustCheck {
    /// The lending member's record identity.
    pub member_who_trust: AccountId,
    /// The borrowing member's record identity.
    pub member_to_trust: AccountId,
    /// Amount trusted.
    pub amount: u64,
    /// Round record the trust referenced.
    pub round: AccountId,
    /// When the trust happened.
    pub time_trusted: i64,
    /// Whether the receipt was consumed.
    pub burn: bool,
}

/// Rate-limit record for one lender-to-borrower pair.
#[derive(Clone, Copy, Debug)]
pub struct TrusterToMember {
    /// When the pair last traded trust.
    pub last_time_trusted: i64,
}

/// A caller-supplied vault reference, validated positionally against the
/// stored trust-pool order in multi-party operations.
#[derive(Clone, Copy, Debug)]
pub struct VaultRef {
    /// The vault's identity.
    pub key: AccountId,
    /// Whether the token ledger service owns the account.
    pub token_owned: bool,
}

/// Why an operation was rejected.  Every rejection leaves all state
/// unchanged.
#[derive(Clone, Copy, Debug, PartialEq, Eq, Structural)]
pub enum ErrorCode {
    /// The nonce given doesn't derive a valid signing authority.
    InvalidNonce,
    /// The reward-token issue is not controlled by the registrar.
    InvalidPoolMintAuthority,
    /// The member signer doesn't match the derived authority.
    InvalidMemberSigner,
    /// The amount provided is smaller than the required minimum.
    AmountTooSmall,
    /// Not enough native-currency balance for the transaction.
    InsufficientFundsForTransaction,
    /// Staking is only allowed into the current round.
    StakingNotToCurrentRound,
    /// The round's time window has closed for staking.
    RoundTimeIsOverStaking,
    /// The staking round is not over yet.
    EarlyUnstaking,
    /// The round's time window is not over for unstaking.
    RoundTimeIsOverUnstaking,
    /// Staking is finalized; no more rounds may open.
    StakingFinalized,
    /// The requested trade amount is greater than what is disposable.
    InsuficientUserFunds,
    /// A member may have at most four lenders.
    MemberTrustersAmountExceeded,
    /// Buying and selling are barred while participating in sharing.
    CantBuyOfSharing,
    /// Only bought tokens may be shared.
    ShareOnlyBought,
    /// Only bought tokens may be transferred.
    TransferOnlyBought,
    /// The sharing amount is at least half of the free balance.
    AmountMoreThenHalf,
    /// Sharing would leave less than a quarter of the bought balance.
    AmountLesThenQuater,
    /// The member to trust does not participate in sharing.
    MemberDontParticipateSharing,
    /// Too few auxiliary accounts provided for the trusted parties.
    LowRemainingAccountsProvided,
    /// An auxiliary vault has the wrong owner.
    VaultWrongOwner,
    /// An auxiliary vault has the wrong identity.
    VaultWrongKey,
    /// Nothing was shared to this member by that lender.
    MemberDidntShare,
    /// The same pair may trade trust at most once in thirty round times.
    OftenSharingParticipation,
    /// Withdrawal is barred while token supply is outstanding.
    ThereIsSomeSupply,
    /// The borrower has not unstaked yet.
    EarlyUnstakingCheck,
    /// The borrower has not exited the sharing program.
    MemberDidntExit,
    /// Trust partners must be within half and double of each other.
    AmountBetwenHalfAndDouble,
    /// Not enough tokens for a stake.
    NotEnouphForStake,
    /// The member has no stake.
    DidntStakedAnything,
}

/// A member's economically free balance: `bought - shared + trusted`.
/// It must never go negative.
pub open spec fn free_balance(m: Member) -> int {
    m.bought - m.shared + m.trusted
}

/// Total amount lent in through a trust pool.
pub open spec fn pool_amounts_sum(pool: Seq<MemberToMember>) -> int
    decreases pool.len(),
{
    if pool.len() == 0 {
        0
    } else {
        pool_amounts_sum(pool.drop_last()) + pool.last().trusted_amount
    }
}

/// Index of the first edge of `who` in `pool`, or `pool.len()` if `who`
/// holds no edge there.
pub open spec fn link_index(pool: Seq<MemberToMember>, who: AccountId) -> int
    decreases pool.len(),
{
    if pool.len() == 0 {
        0
    } else if pool[0].member_who_trust == who {
        0
    } else {
        1 + link_index(pool.subrange(1, pool.len() as int), who)
    }
}

/// Whether `who` holds an edge in `pool`.
pub open spec fn has_link(pool: Seq<MemberToMember>, who: AccountId) -> bool {
    exists|i: int| 0 <= i < pool.len() && pool[i].member_who_trust == who
}

/// `link_index` is the first match when one exists, and `pool.len()`
/// otherwise.
pub proof fn lemma_link_index(pool: Seq<MemberToMember>, who: AccountId)
    ensures
        0 <= link_index(pool, who) <= pool.len(),
        link_index(pool, who) < pool.len() ==> pool[link_index(pool, who)].member_who_trust
            == who,
        forall|j: int| 0 <= j < link_index(pool, who) ==> pool[j].member_who_trust != who,
        has_link(pool, who) <==> link_index(pool, who) < pool.len(),
    decreases pool.len(),
{
    if pool.len() == 0 {
    } else if pool[0].member_who_trust == who {
    } else {
        let rest = pool.subrange(1, pool.len() as int);
        lemma_link_index(rest, who);
        assert forall|j: int| 0 <= j < link_index(pool, who) implies pool[j].member_who_trust
            != who by {
            if j > 0 {
                assert(pool[j] == rest[j - 1]);
            }
        }
        if has_link(pool, who) {
            let w = choose|i: int| 0 <= i < pool.len() && pool[i].member_who_trust == who;
            assert(w > 0);
            assert(rest[w - 1].member_who_trust == who);
            assert(has_link(rest, who));
        }
        if has_link(rest, who) {
            let w = choose|i: int| 0 <= i < rest.len() && rest[i].member_who_trust == who;
            assert(pool[w + 1].member_who_trust == who);
        }
    }
}

/// Prefix sums of a pool never exceed the whole sum.
pub proof fn lemma_pool_sum_prefix(pool: Seq<MemberToMember>, n: int)
    requires
        0 <= n <= pool.len(),
    ensures
        pool_amounts_sum(pool.subrange(0, n)) <= pool_amounts_sum(pool),
        pool_amounts_sum(pool.subrange(0, n)) >= 0,
    decreases pool.len() - n,
{
    lemma_pool_sum_nonneg(pool.subrange(0, n));
    if n == pool.len() {
        assert(pool.subrange(0, n) =~= pool);
    } else {
        lemma_pool_sum_prefix(pool, n + 1);
        assert(pool.subrange(0, n + 1).drop_last() =~= pool.subrange(0, n));
        assert(pool.subrange(0, n + 1).last() == pool[n]);
    }
}

/// A pool's sum is never negative.
pub proof fn lemma_pool_sum_nonneg(pool: Seq<MemberToMember>)
    ensures
        pool_amounts_sum(pool) >= 0,
    decreases pool.len(),
{
    if pool.len() > 0 {
        lemma_pool_sum_nonneg(pool.drop_last());
    }
}

/// Create the registrar singleton.
pub fn initialize(
    mint: AccountId,
    pool_mint: AccountId,
    authority: AccountId,
    nonce: u8,
    round_timelock: i64,
) -> (registrar: Registrar)
    ensures
        registrar.authority == authority,
        registrar.nonce == nonce,
        registrar.finalized == false,
        registrar.mint == mint,
        registrar.pool_mint == pool_mint,
        registrar.round_timelock == round_timelock,
        registrar.current_round == 0,
        registrar.current_round_account is None,
{
    Registrar {
        authority,
        nonce,
        finalized: false,
        mint,
        pool_mint,
        round_timelock,
        current_round: 0,
        current_round_account: None,
    }
}

/// Create a member record with zeroed balances.
pub fn create_member(
    registrar: AccountId,
    beneficiary: AccountId,
    nonce: u8,
    partisipate_sharing: bool,
) -> (member: Member)
    ensures
        member.registrar == registrar,
        member.beneficiary == beneficiary,
        member.bought == 0,
        member.trusted == 0,
        member.shared == 0,
        member.shared_time == 0,
        member.staked == 0,
        member.staked_trusted == 0,
        member.staked_round is None,
        member.reward == 0,
        member.unstaked == false,
        member.dont_participate_sharing == partisipate_sharing,
        member.trusted_pool@.len() == 0,
        member.nonce == nonce,
{
    Member {
        registrar,
        beneficiary,
        bought: 0,
        trusted: 0,
        shared: 0,
        shared_time: 0,
        staked: 0,
        staked_trusted: 0,
        staked_round: None,
        unstaked: false,
        reward: 0,
        dont_participate_sharing: partisipate_sharing,
        trusted_pool: Vec::new(),
        nonce,
    }
}

} // verus!
