//! The fungible-token ledger: balances, allowances and an event log.
//! The exchange consumes a ledger like this one through the narrow
//! `balance_of` / `transfer` / `transfer_from` interface.

use vstd::prelude::*;
use crate::table::{map_get_or_zero, spec_transfer_balances, IdTable, PairTable};
use crate::types::{AccountId, Balance};

verus! {

/// Token movement; a `None` endpoint stands for minting or burning.
#[derive(Clone, Copy, Debug, PartialEq, Eq)]
pub struct Transfer {
    pub from: Option<AccountId>,
    pub to: Option<AccountId>,
    pub value: Balance,
}

/// A (re)set of the amount `spender` may move on behalf of `owner`.
#[derive(Clone, Copy, Debug, PartialEq, Eq)]
pub struct Approval {
    pub owner: AccountId,
    pub spender: AccountId,
    pub value: Balance,
}

/// One entry of the ledger's event log.
#[derive(Clone, Copy, Debug, PartialEq, Eq)]
pub enum Erc20Event {
    Transfer(Transfer),
    Approval(Approval),
}

/// The token ledger's whole state.
#[derive(Clone)]
pub struct Erc20 {
    pub total_supply: Balance,
    pub balances: IdTable,
    pub allowances: PairTable,
    /// Events emitted by successful operations, oldest first.
    pub events: Vec<Erc20Event>,
}

impl Erc20 {
    /// Balances sum exactly to the total supply, so no single balance can
    /// exceed it.
    pub open spec fn wf(self) -> bool {
        &&& self.balances.wf()
        &&& self.allowances.wf()
        &&& self.balances.sum() == self.total_supply
    }

    pub open spec fn spec_total_supply(self) -> Balance {
        self.total_supply
    }

    pub open spec fn balances_map(self) -> Map<AccountId, Balance> {
        self.balances@
    }

    pub open spec fn allowances_map(self) -> Map<(AccountId, AccountId), Balance> {
        self.allowances@
    }

    pub open spec fn spec_balance_of(self, owner: AccountId) -> Balance {
        map_get_or_zero(self.balances_map(), owner)
    }

    pub open spec fn spec_allowance(self, owner: AccountId, spender: AccountId) -> Balance {
        if self.allowances_map().contains_key((owner, spender)) {
            self.allowances_map()[(owner, spender)]
        } else {
            0
        }
    }

    /// Mints the whole initial supply to the creating caller and logs the
    /// minting transfer.
    pub fn new(caller: AccountId, initial_supply: Balance) -> (c: Self)
        ensures
            c.wf(),
            c.spec_total_supply() == initial_supply,
            c.balances_map() == Map::<AccountId, Balance>::empty().insert(caller, initial_supply),
            c.allowances_map() == Map::<(AccountId, AccountId), Balance>::empty(),
            c.events@ == seq![
                Erc20Event::Transfer((Transfer { from: None, to: Some(caller), value: initial_supply })),
            ],
    {
        let mut balances = IdTable::new();
        balances.set(caller, initial_supply);
        let mut events: Vec<Erc20Event> = Vec::new();
        events.push(Erc20Event::Transfer(Transfer { from: None, to: Some(caller), value: initial_supply }));
        Erc20 { total_supply: initial_supply, balances, allowances: PairTable::new(), events }
    }

    /// Echoes the native value sent along with the call; the ledger keeps
    /// no native currency of its own.
    pub fn balance(&self, env: crate::types::Env) -> (r: Balance)
        ensures
            r == env.transferred_value,
    {
        env.transferred_value
    }

    /// Total number of tokens in existence.
    pub fn total_supply(&self) -> (r: Balance)
        ensures
            r == self.spec_total_supply(),
    {
        self.total_supply
    }

    /// The balance of `owner`; accounts never seen hold zero.
    pub fn balance_of(&self, owner: AccountId) -> (r: Balance)
        requires
            self.wf(),
        ensures
            r == self.spec_balance_of(owner),
    {
        self.balances.lookup(owner)
    }

    /// How much `spender` may still move out of `owner`'s balance.
    pub fn allowance(&self, owner: AccountId, spender: AccountId) -> (r: Balance)
        requires
            self.wf(),
        ensures
            r == self.spec_allowance(owner, spender),
    {
        self.allowances.lookup(owner, spender)
    }

    /// Sets (not adds to) the allowance of `spender` over the caller's
    /// balance, logs an approval, and always reports success.
    pub fn approve(&mut self, caller: AccountId, spender: AccountId, value: Balance) -> (r: bool)
        requires
            old(self).wf(),
        ensures
            final(self).wf(),
            r == true,
            final(self).spec_total_supply() == old(self).spec_total_supply(),
            final(self).balances_map() == old(self).balances_map(),
            final(self).allowances_map() == old(self).allowances_map().insert((caller, spender), value),
            final(self).events@ == old(self).events@.push(
                Erc20Event::Approval((Approval { owner: caller, spender, value })),
            ),
    {
        self.allowances.set(caller, spender, value);
        self.events.push(Erc20Event::Approval(Approval { owner: caller, spender, value }));
        true
    }

    /// Moves `value` from the caller to `to`. Returns `false` and changes
    /// nothing when the caller's balance is too small.
    pub fn transfer(&mut self, caller: AccountId, to: AccountId, value: Balance) -> (r: bool)
        requires
            old(self).wf(),
        ensures
            final(self).wf(),
            r == (old(self).spec_balance_of(caller) >= value),
            !r ==> *final(self) == *old(self),
            r ==> final(self).balances_map()
                == spec_transfer_balances(old(self).balances_map(), caller, to, value),
            r ==> final(self).events@ == old(self).events@.push(
                Erc20Event::Transfer((Transfer { from: Some(caller), to: Some(to), value })),
            ),
            final(self).spec_total_supply() == old(self).spec_total_supply(),
            final(self).allowances_map() == old(self).allowances_map(),
    {
        self.transfer_from_to(caller, to, value)
    }

    /// Moves `value` from `from` to `to` on the strength of the caller's
    /// allowance. Returns `false` when the allowance is too small,
    /// changing nothing; with enough allowance the allowance is
    /// decremented first, so a transfer that then fails on `from`'s
    /// balance still leaves the allowance reduced.
    pub fn transfer_from(&mut self, caller: AccountId, from: AccountId, to: AccountId, value: Balance) -> (r: bool)
        requires
            old(self).wf(),
        ensures
            final(self).wf(),
            final(self).spec_total_supply() == old(self).spec_total_supply(),
            r == (old(self).spec_allowance(from, caller) >= value
                && old(self).spec_balance_of(from) >= value),
            old(self).spec_allowance(from, caller) < value ==> *final(self) == *old(self),
            old(self).spec_allowance(from, caller) >= value ==> final(self).allowances_map()
                == old(self).allowances_map().insert(
                    (from, caller),
                    (old(self).spec_allowance(from, caller) - value) as Balance,
                ),
            old(self).spec_allowance(from, caller) >= value ==> {
                if old(self).spec_balance_of(from) >= value {
                    &&& final(self).balances_map()
                        == spec_transfer_balances(old(self).balances_map(), from, to, value)
                    &&& final(self).events@ == old(self).events@.push(
                        Erc20Event::Transfer((Transfer { from: Some(from), to: Some(to), value })),
                    )
                } else {
                    &&& final(self).balances_map() == old(self).balances_map()
                    &&& final(self).events@ == old(self).events@
                }
            },
    {
        let allowance = self.allowances.lookup(from, caller);
        if allowance < value {
            return false;
        }
        self.allowances.set(from, caller, allowance - value);
        self.transfer_from_to(from, to, value)
    }

    fn transfer_from_to(&mut self, from: AccountId, to: AccountId, value: Balance) -> (r: bool)
        requires
            old(self).wf(),
        ensures
            final(self).wf(),
            r == (old(self).spec_balance_of(from) >= value),
            !r ==> *final(self) == *old(self),
            r ==> final(self).balances_map()
                == spec_transfer_balances(old(self).balances_map(), from, to, value),
            r ==> final(self).events@ == old(self).events@.push(
                Erc20Event::Transfer((Transfer { from: Some(from), to: Some(to), value })),
            ),
            final(self).spec_total_supply() == old(self).spec_total_supply(),
            final(self).allowances_map() == old(self).allowances_map(),
    {
        let from_balance = self.balances.lookup(from);
        if from_balance < value {
            return false;
        }
        self.balances.set(from, from_balance - value);
        let to_balance = self.balances.lookup(to);
        proof {
            self.balances.lemma_le_sum(to);
        }
        self.balances.set(to, to_balance + value);
        self.events.push(Erc20Event::Transfer(Transfer { from: Some(from), to: Some(to), value }));
        true
    }
}

} // verus!
