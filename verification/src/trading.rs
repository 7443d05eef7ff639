//! Purchase and sale flows: pricing in native-currency smallest units and
//! the bought-balance bookkeeping.
//!
//! The native-currency custody and the token issue/burn themselves are the
//! caller's to perform; each operation takes the balances it must check as
//! plain values and returns the priced amount to move.

use vstd::prelude::*;
use crate::arith::{BCDEV, FCTR, curency_to_sol_in_lamports, spec_curency_to_sol_in_lamports};
use crate::ledger::{ErrorCode, Member};

verus! {

/// Native-currency price of `amount` tradable smallest units at the
/// purchase rate of 109 native coins per whole token.
pub open spec fn buy_price(amount: int) -> int {
    spec_curency_to_sol_in_lamports(amount, FCTR as int, 109)
}

/// Whether a member may buy or sell at all: barred while it participates
/// in sharing on either side.
pub open spec fn trading_allowed(m: Member) -> bool {
    &&& m.trusted_pool@.len() == 0
    &&& m.shared == 0
}

/// Buy `amount` tradable smallest units (at least ten whole tokens) for
/// native currency.  `buyer_lamports` is the buyer's native balance.  On
/// success the member's bought counter grows by `amount` and the returned
/// price is what the buyer pays into the vault.
pub fn buy_fctr(member: &mut Member, buyer_lamports: u64, amount: u64) -> (r: Result<
    u64,
    ErrorCode,
>)
    requires
        trading_allowed(*old(member)) && amount >= 10 * FCTR ==> old(member).bought + amount
            <= u64::MAX,
    ensures
        r is Err ==> *final(member) == *old(member),
        !trading_allowed(*old(member)) ==> (r matches Err(e) && e == ErrorCode::CantBuyOfSharing),
        trading_allowed(*old(member)) && amount < 10 * FCTR ==> (r matches Err(e) && e
            == ErrorCode::AmountTooSmall),
        trading_allowed(*old(member)) && amount >= 10 * FCTR && buyer_lamports < buy_price(
            amount as int,
        ) ==> (r matches Err(e) && e == ErrorCode::InsufficientFundsForTransaction),
        trading_allowed(*old(member)) && amount >= 10 * FCTR && buyer_lamports >= buy_price(
            amount as int,
        ) ==> (r matches Ok(sol_amount) && {
            &&& sol_amount == buy_price(amount as int)
            &&& *final(member) == Member { bought: (old(member).bought + amount) as u64, ..*old(
                member,
            ) }
        }),
{
    if member.trusted_pool.len() != 0 {
        return Err(ErrorCode::CantBuyOfSharing);
    }
    if member.shared != 0 {
        return Err(ErrorCode::CantBuyOfSharing);
    }
    if amount < 10 * FCTR {
        return Err(ErrorCode::AmountTooSmall);
    }

    proof {
        crate::arith::lemma_curency_to_sol_fits(amount, FCTR, 109);
    }
    let sol_amount: u64 = curency_to_sol_in_lamports(amount, FCTR, 109);

    if buyer_lamports < sol_amount {
        return Err(ErrorCode::InsufficientFundsForTransaction);
    }

    member.bought = member.bought + amount;
    Ok(sol_amount)
}

/// Transfer `amount` of the member's bought (never shared) balance to
/// another holder.  `vault_fctr_amount` is the member's vault balance.
pub fn transfer_fctr(member: &mut Member, vault_fctr_amount: u64, amount: u64) -> (r: Result<
    (),
    ErrorCode,
>)
    requires
        old(member).shared <= old(member).bought,
    ensures
        r is Err ==> *final(member) == *old(member),
        vault_fctr_amount < amount ==> (r matches Err(e) && e == ErrorCode::InsuficientUserFunds),
        vault_fctr_amount >= amount && old(member).bought - old(member).shared < amount ==> (r
            matches Err(e) && e == ErrorCode::TransferOnlyBought),
        vault_fctr_amount >= amount && old(member).bought - old(member).shared >= amount ==> (r
            matches Ok(u) && *final(member) == Member {
                bought: (old(member).bought - amount) as u64,
                ..*old(member)
            }),
{
    if !(vault_fctr_amount >= amount) {
        return Err(ErrorCode::InsuficientUserFunds);
    }
    if !(member.bought - member.shared >= amount) {
        return Err(ErrorCode::TransferOnlyBought);
    }
    member.bought = member.bought - amount;
    Ok(())
}

/// Native-currency price of `amount` reward smallest units at the sale
/// rate of 11 native coins per whole token.
pub open spec fn bcdev_sale_price(amount: int) -> int {
    spec_curency_to_sol_in_lamports(amount, BCDEV as int, 11)
}

/// Sell `amount` reward smallest units back for native currency.
/// `vault_bcdev_amount` is the seller's reward vault balance and
/// `vault_sol_lamports` the program vault's native balance.  On success
/// the returned price is paid out and `amount` is burned by the caller.
pub fn sell_bcdev(vault_bcdev_amount: u64, vault_sol_lamports: u64, amount: u64) -> (r: Result<
    u64,
    ErrorCode,
>)
    ensures
        vault_bcdev_amount < amount ==> (r matches Err(e) && e == ErrorCode::InsuficientUserFunds),
        vault_bcdev_amount >= amount && vault_sol_lamports < bcdev_sale_price(amount as int)
            ==> (r matches Err(e) && e == ErrorCode::InsufficientFundsForTransaction),
        vault_bcdev_amount >= amount && vault_sol_lamports >= bcdev_sale_price(amount as int)
            ==> (r matches Ok(sol_amount) && sol_amount == bcdev_sale_price(amount as int)),
{
    if !(vault_bcdev_amount >= amount) {
        return Err(ErrorCode::InsuficientUserFunds);
    }

    proof {
        crate::arith::lemma_curency_to_sol_fits(amount, BCDEV, 11);
    }
    let sol_amount: u64 = curency_to_sol_in_lamports(amount, BCDEV, 11);

    if vault_sol_lamports < sol_amount {
        return Err(ErrorCode::InsufficientFundsForTransaction);
    }
    Ok(sol_amount)
}

/// Native-currency price of `amount` tradable smallest units at the sale
/// rate of 101 native coins per whole token.
pub open spec fn fctr_sale_price(amount: int) -> int {
    spec_curency_to_sol_in_lamports(amount, FCTR as int, 101)
}

/// Sell the member's whole bought balance back for native currency.  On
/// success returns the burned token amount and the native amount paid out,
/// and zeroes the bought counter.
pub fn sell_all_fctr(member: &mut Member, vault_sol_lamports: u64) -> (r: Result<
    (u64, u64),
    ErrorCode,
>)
    ensures
        r is Err ==> *final(member) == *old(member),
        !trading_allowed(*old(member)) ==> (r matches Err(e) && e == ErrorCode::CantBuyOfSharing),
        trading_allowed(*old(member)) && vault_sol_lamports < fctr_sale_price(
            old(member).bought as int,
        ) ==> (r matches Err(e) && e == ErrorCode::InsufficientFundsForTransaction),
        trading_allowed(*old(member)) && vault_sol_lamports >= fctr_sale_price(
            old(member).bought as int,
        ) ==> (r matches Ok(out) && {
            &&& out.0 == old(member).bought
            &&& out.1 == fctr_sale_price(old(member).bought as int)
            &&& *final(member) == Member { bought: 0u64, ..*old(member) }
        }),
{
    if member.trusted_pool.len() != 0 {
        return Err(ErrorCode::CantBuyOfSharing);
    }
    if member.shared != 0 {
        return Err(ErrorCode::CantBuyOfSharing);
    }

    let amount: u64 = member.bought;
    proof {
        crate::arith::lemma_curency_to_sol_fits(amount, FCTR, 101);
    }
    let sol_amount: u64 = curency_to_sol_in_lamports(amount, FCTR, 101);

    if vault_sol_lamports < sol_amount {
        return Err(ErrorCode::InsufficientFundsForTransaction);
    }

    member.bought = 0;
    Ok((amount, sol_amount))
}

} // verus!
