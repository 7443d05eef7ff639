//! A staking-and-reward ledger.
//!
//! Participants hold a tradable unit (`FCTR`-denominated balances), lock it
//! for time-boxed rounds, and earn a reward unit (`BCDEV`-denominated)
//! proportional to how much they locked and how much of the round was left
//! at the moment of staking.  A cooperative trust/sharing mechanism lets one
//! member lend its balance's earning power to another for a rate bonus.
//!
//! The library is the accounting core alone: fixed-point arithmetic, round
//! lifecycle, stake/unstake bookkeeping and the trust pool's multi-party
//! reward split.  Token issuance and transfer, native-currency custody,
//! caller authorization and the clock are external collaborators; every
//! operation takes their readings as plain values and reports the transfers
//! the caller has to perform as plain values.

pub mod arith;
pub mod ledger;
pub mod rounds;
pub mod staking;
pub mod trading;
pub mod sharing;
pub mod laws;
