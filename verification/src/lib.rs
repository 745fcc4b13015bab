//! A constant-product automated market maker for one token/native-currency
//! trading pair, together with the fungible-token ledger it trades against
//! and the registry that maps tokens to their exchange instances.
//!
//! The contracts are modelled as plain state machines: every operation takes
//! the values the chain environment would supply (caller, transferred value,
//! block time, account balances read from the outside) and returns either an
//! exact description of the state change plus the outward transfers the host
//! must perform, or the error that aborts the call with the state untouched.

pub mod types;
pub mod math;
pub mod pricing;
pub mod table;
pub mod erc20;
pub mod exchange;
pub mod factory;
