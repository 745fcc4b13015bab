//! The registry that creates exchange instances and maps each traded
//! token to its exchange. Instantiating a contract is the chain's work, so
//! creation runs in two steps: `create_exchange` validates the request and
//! describes the instantiation the host must perform, and
//! `register_exchange` records the account the chain assigned.

use vstd::prelude::*;
use crate::table::IdTable;
use crate::types::{AccountId, Balance, CodeHash, Env, Error, NULL_ACCOUNT};

verus! {

/// A new trading pair was registered.
#[derive(Clone, Copy, Debug, PartialEq, Eq)]
pub struct NewExchange {
    pub erc20_token_account: AccountId,
    pub exchange_contract_account: AccountId,
}

/// The instantiation a validated `create_exchange` asks the host to
/// perform: deploy an exchange from `code_hash`, endowed with `endowment`
/// native currency, constructed for `token` with this registry as its
/// factory; the deployer then owes the new pool `token_amount` tokens
/// (a failed initial pull is ignored, as deployment always was).
#[derive(Clone, Copy, Debug, PartialEq, Eq)]
pub struct InstantiateExchange {
    pub code_hash: CodeHash,
    pub token: AccountId,
    pub factory: AccountId,
    pub deployer: AccountId,
    pub token_amount: Balance,
    pub endowment: Balance,
}

/// The registry's whole state.
#[derive(Clone)]
pub struct Factory {
    /// Code hash every exchange is instantiated from; null until
    /// `initialize_factory` sets it, and immutable afterwards.
    pub exchange_template: CodeHash,
    /// How many trading pairs have been created.
    pub token_count: u128,
    pub token_to_exchange: IdTable,
    pub exchange_to_token: IdTable,
    /// Tokens by creation order, keyed 1, 2, 3, …
    pub id_to_token: IdTable,
    /// Events emitted by successful registrations, oldest first.
    pub events: Vec<NewExchange>,
}

impl Factory {
    pub open spec fn wf(self) -> bool {
        &&& self.token_to_exchange.wf()
        &&& self.exchange_to_token.wf()
        &&& self.id_to_token.wf()
    }

    pub fn new() -> (f: Self)
        ensures
            f.wf(),
            f.exchange_template == 0,
            f.token_count == 0,
            f.token_to_exchange@ == Map::<AccountId, AccountId>::empty(),
            f.exchange_to_token@ == Map::<AccountId, AccountId>::empty(),
            f.id_to_token@ == Map::<u128, AccountId>::empty(),
            f.events@ == Seq::<NewExchange>::empty(),
    {
        Factory {
            exchange_template: 0,
            token_count: 0,
            token_to_exchange: IdTable::new(),
            exchange_to_token: IdTable::new(),
            id_to_token: IdTable::new(),
            events: Vec::new(),
        }
    }

    /// A fresh, uninitialized registry.
    pub fn default() -> (f: Self)
        ensures
            f.wf(),
            f.exchange_template == 0,
            f.token_count == 0,
    {
        Self::new()
    }

    /// Sets the exchange code hash, exactly once and never to null.
    pub fn initialize_factory(&mut self, exchange_template_address: CodeHash) -> (r: Result<(), Error>)
        ensures
            match r {
                Result::Err(e) => {
                    &&& *final(self) == *old(self)
                    &&& if old(self).exchange_template != 0 {
                        e == Error::AlreadyInitialized
                    } else {
                        e == Error::InvalidCodeHash && exchange_template_address == 0
                    }
                },
                Result::Ok(u) => {
                    &&& old(self).exchange_template == 0
                    &&& exchange_template_address != 0
                    &&& *final(self) == (Factory {
                        exchange_template: exchange_template_address,
                        ..*old(self)
                    })
                },
            },
    {
        if self.exchange_template != 0 {
            return Err(Error::AlreadyInitialized);
        }
        if exchange_template_address == 0 {
            return Err(Error::InvalidCodeHash);
        }
        self.exchange_template = exchange_template_address;
        Ok(())
    }

    /// Why `create_exchange` refuses a request, or `None` when the host
    /// may instantiate: the token must be a real account with no exchange
    /// yet, the template must be set, and the caller must endow the new
    /// pool with some native currency.
    pub open spec fn create_exchange_abort(self, env: Env, erc20_token_account: AccountId) -> Option<Error> {
        if erc20_token_account == NULL_ACCOUNT {
            Some(Error::InvalidRecipient)
        } else if self.exchange_template == 0 {
            Some(Error::NotInitialized)
        } else if self.token_to_exchange@.contains_key(erc20_token_account) {
            Some(Error::PairExists)
        } else if env.transferred_value <= 0 {
            Some(Error::InvalidAmount)
        } else {
            None
        }
    }

    /// Validates a new trading pair and describes the exchange the host
    /// must instantiate; once the chain has assigned the new instance its
    /// account, `register_exchange` records it.
    pub fn create_exchange(&self, env: Env, erc20_token_account: AccountId, token_amount: Balance) -> (r: Result<
        InstantiateExchange,
        Error,
    >)
        requires
            self.wf(),
        ensures
            match r {
                Result::Err(e) => self.create_exchange_abort(env, erc20_token_account) == Some(e),
                Result::Ok(req) => {
                    &&& self.create_exchange_abort(env, erc20_token_account) is None
                    &&& req == (InstantiateExchange {
                        code_hash: self.exchange_template,
                        token: erc20_token_account,
                        factory: env.self_account,
                        deployer: env.caller,
                        token_amount,
                        endowment: env.transferred_value,
                    })
                },
            },
    {
        if erc20_token_account == NULL_ACCOUNT {
            return Err(Error::InvalidRecipient);
        }
        if self.exchange_template == 0 {
            return Err(Error::NotInitialized);
        }
        if self.token_to_exchange.contains(erc20_token_account) {
            return Err(Error::PairExists);
        }
        if env.transferred_value == 0 {
            return Err(Error::InvalidAmount);
        }
        Ok(InstantiateExchange {
            code_hash: self.exchange_template,
            token: erc20_token_account,
            factory: env.self_account,
            deployer: env.caller,
            token_amount,
            endowment: env.transferred_value,
        })
    }

    /// Records a freshly instantiated exchange under the token it trades,
    /// assigns it the next creation index, and logs the new pair.
    pub fn register_exchange(&mut self, erc20_token_account: AccountId, exchange_contract_account: AccountId) -> (r: Result<
        (),
        Error,
    >)
        requires
            old(self).wf(),
        ensures
            final(self).wf(),
            final(self).exchange_template == old(self).exchange_template,
            match r {
                Result::Err(e) => {
                    &&& *final(self) == *old(self)
                    &&& e == Error::Overflow
                    &&& old(self).token_count == u128::MAX
                },
                Result::Ok(u) => {
                    &&& old(self).token_count < u128::MAX
                    &&& final(self).token_count == old(self).token_count + 1
                    &&& final(self).token_to_exchange@ == old(self).token_to_exchange@.insert(
                        erc20_token_account,
                        exchange_contract_account,
                    )
                    &&& final(self).exchange_to_token@ == old(self).exchange_to_token@.insert(
                        exchange_contract_account,
                        erc20_token_account,
                    )
                    &&& final(self).id_to_token@ == old(self).id_to_token@.insert(
                        (old(self).token_count + 1) as u128,
                        erc20_token_account,
                    )
                    &&& final(self).events@ == old(self).events@.push((NewExchange {
                        erc20_token_account,
                        exchange_contract_account,
                    }))
                },
            },
    {
        let token_id = match self.token_count.checked_add(1) {
            Some(x) => x,
            None => { return Err(Error::Overflow); },
        };
        self.token_to_exchange.set(erc20_token_account, exchange_contract_account);
        self.exchange_to_token.set(exchange_contract_account, erc20_token_account);
        self.token_count = token_id;
        self.id_to_token.set(token_id, erc20_token_account);
        self.events.push(NewExchange { erc20_token_account, exchange_contract_account });
        Ok(())
    }

    /// The exchange trading `token`; the pair must exist.
    pub fn get_exchange(&self, token: AccountId) -> (r: AccountId)
        requires
            self.wf(),
            self.token_to_exchange@.contains_key(token),
        ensures
            r == self.token_to_exchange@[token],
    {
        self.token_to_exchange.lookup(token)
    }

    /// The token traded by `exchange_account`; the pair must exist.
    pub fn get_token(&self, exchange_account: AccountId) -> (r: AccountId)
        requires
            self.wf(),
            self.exchange_to_token@.contains_key(exchange_account),
        ensures
            r == self.exchange_to_token@[exchange_account],
    {
        self.exchange_to_token.lookup(exchange_account)
    }

    /// The token of the `token_id`-th pair ever created; the id must be
    /// assigned.
    pub fn get_token_with_id(&self, token_id: u128) -> (r: AccountId)
        requires
            self.wf(),
            self.id_to_token@.contains_key(token_id),
        ensures
            r == self.id_to_token@[token_id],
    {
        self.id_to_token.lookup(token_id)
    }
}

} // verus!
