//! Common value types shared by the exchange, the token ledger and the
//! registry, plus the environment record a call runs under and the error
//! type every aborting operation reports.

use vstd::prelude::*;

verus! {

/// On-chain account identity, modelled as a plain integer id.
pub type AccountId = u128;

/// Amount of native currency or of a fungible token.
pub type Balance = u128;

/// Chain time, in milliseconds since an arbitrary origin.
pub type Timestamp = u64;

/// A code hash stored on the chain, modelled as a plain integer id.
pub type CodeHash = u128;

/// The null/default account: transfers naming it stand for minting or
/// burning, and it is rejected as a swap recipient.
pub const NULL_ACCOUNT: AccountId = 0;

/// What the execution environment hands to a single contract call.
#[derive(Clone, Copy)]
pub struct Env {
    /// The account that made the call.
    pub caller: AccountId,
    /// Native currency sent along with the call (zero unless payable).
    pub transferred_value: Balance,
    /// The current block time, against which deadlines are checked.
    pub block_timestamp: Timestamp,
    /// The callee account's own native balance, `transferred_value` included.
    pub self_balance: Balance,
    /// The callee account's own identity.
    pub self_account: AccountId,
}

impl Env {
    /// The chain credits the transferred value before the call runs, so the
    /// callee's balance always covers it.
    pub open spec fn wf(self) -> bool {
        self.transferred_value <= self.self_balance
    }
}

/// Why an operation aborted. An aborting operation performs no state change
/// at all; the surrounding transaction is expected to be discarded.
#[derive(Clone, Copy, Debug, PartialEq, Eq, Structural)]
pub enum Error {
    /// The caller's deadline lies strictly before the current block time.
    DeadlineExpired,
    /// An amount that must be positive was zero.
    InvalidAmount,
    /// A reserve that must be positive for pricing was zero.
    InvalidReserve,
    /// An exact-output trade asked for at least the whole output reserve.
    DepletedReserve,
    /// A computed amount crossed the caller's minimum or maximum bound.
    SlippageExceeded,
    /// The recipient was the exchange itself or the null account.
    InvalidRecipient,
    /// The caller holds fewer liquidity-pool shares than the call needs,
    /// or the pool has no outstanding shares at all.
    InsufficientLiquidity,
    /// A balance computation left the 128-bit range.
    Overflow,
    /// The registry's exchange template was already set.
    AlreadyInitialized,
    /// The registry's exchange template has not been set yet.
    NotInitialized,
    /// The registry already holds an exchange for this token.
    PairExists,
    /// A code hash that must be set was the null hash.
    InvalidCodeHash,
}

} // verus!
