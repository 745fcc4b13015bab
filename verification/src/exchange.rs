//! The exchange engine for one token/native trading pair: liquidity
//! provisioning over an LP-share ledger, LP-share transfers, and the
//! single-hop and multi-hop swap protocol.
//!
//! Reserves live outside the engine: the native reserve is the instance's
//! own account balance (part of [`Env`]) and the token reserve is read from
//! the external token ledger; both are passed in by the host. Every
//! mutating operation either returns a receipt describing exactly the
//! ledger change made and the outward transfers the host still has to
//! perform, or an [`Error`] with the state left untouched. When a transfer
//! demanded by a receipt fails, the host must discard the whole
//! transaction, ledger change included: the engine performs no partial
//! compensation of its own.

use vstd::prelude::*;
use crate::pricing;
use crate::pricing::{
    input_price_abort, input_price_value, output_price_abort, output_price_value,
};
use crate::table::{map_get_or_zero, spec_transfer_balances, IdTable, PairTable};
use crate::types::{AccountId, Balance, CodeHash, Env, Error, Timestamp, NULL_ACCOUNT};

verus! {

/// Resource budget handed to every cross-instance call.
pub const CALL_GAS_LIMIT: u64 = 507085500000;

/// Creation of an exchange instance.
#[derive(Clone, Copy, Debug, PartialEq, Eq)]
pub struct CreateExchange {
    pub exchange: AccountId,
}

/// A trade that sold native currency and bought tokens.
#[derive(Clone, Copy, Debug, PartialEq, Eq)]
pub struct TokenPurchase {
    pub buyer: AccountId,
    pub dot_sold: Balance,
    pub tokens_bought: Balance,
}

/// A trade that sold tokens and bought native currency.
#[derive(Clone, Copy, Debug, PartialEq, Eq)]
pub struct DotPurchase {
    pub buyer: AccountId,
    pub tokens_sold: Balance,
    pub dot_bought: Balance,
}

/// A deposit into the pool that minted LP shares.
#[derive(Clone, Copy, Debug, PartialEq, Eq)]
pub struct AddLiquidity {
    pub provider: AccountId,
    pub dot_amount: Balance,
    pub token_amount: Balance,
}

/// A withdrawal from the pool that burned LP shares.
#[derive(Clone, Copy, Debug, PartialEq, Eq)]
pub struct RemoveLiquidity {
    pub provider: AccountId,
    pub dot_amount: Balance,
    pub token_amount: Balance,
}

/// An LP-share movement; the null account as an endpoint stands for
/// minting or burning.
#[derive(Clone, Copy, Debug, PartialEq, Eq)]
pub struct Transfer {
    pub from: AccountId,
    pub to: AccountId,
    pub value: Balance,
}

/// A (re)set of an LP-share allowance.
#[derive(Clone, Copy, Debug, PartialEq, Eq)]
pub struct Approval {
    pub owner: AccountId,
    pub spender: AccountId,
    pub value: Balance,
}

/// One entry of the exchange's event log.
#[derive(Clone, Copy, Debug, PartialEq, Eq)]
pub enum ExchangeEvent {
    CreateExchange(CreateExchange),
    TokenPurchase(TokenPurchase),
    DotPurchase(DotPurchase),
    AddLiquidity(AddLiquidity),
    RemoveLiquidity(RemoveLiquidity),
    Transfer(Transfer),
    Approval(Approval),
}

/// Receipt of a successful `add_liquidity`: the host must pull
/// `token_amount` tokens from `provider` into the pool's account through
/// the token ledger, and abort the whole transaction if that pull fails.
#[derive(Clone, Copy, Debug, PartialEq, Eq)]
pub struct AddLiquidityReceipt {
    pub minted: Balance,
    pub token_amount: Balance,
    pub provider: AccountId,
}

/// Receipt of a successful `remove_liquidity`: the host must pay
/// `dot_amount` native currency and transfer `token_amount` tokens out of
/// the pool to `provider`.
#[derive(Clone, Copy, Debug, PartialEq, Eq)]
pub struct RemoveLiquidityReceipt {
    pub dot_amount: Balance,
    pub token_amount: Balance,
    pub provider: AccountId,
}

/// The exchange's whole state. The token and native reserves are not
/// fields: they are the pool account's live balances, read by the host on
/// every call.
#[derive(Clone)]
pub struct Exchange {
    pub name: CodeHash,
    pub symbol: CodeHash,
    pub decimals: u32,
    /// Total outstanding LP shares.
    pub total_supply: Balance,
    /// LP shares per account.
    pub balances: IdTable,
    /// LP-share allowances per (owner, spender) pair.
    pub allowances: PairTable,
    /// The ledger of the token traded on this exchange.
    pub token: AccountId,
    /// The registry that created this exchange.
    pub factory: AccountId,
    /// Resource budget for cross-instance calls.
    pub gas_limit: u64,
    /// This instance's own account.
    pub exchange_account_id: AccountId,
    /// Events emitted by successful operations, oldest first.
    pub events: Vec<ExchangeEvent>,
}

/// Receipt of a successful native→token swap: the host must transfer
/// `tokens_bought` tokens out of the pool to `recipient` (aborting the
/// whole transaction if that fails) and, when `dot_refund` is positive,
/// pay that much native currency back to `buyer`.
#[derive(Clone, Copy, Debug, PartialEq, Eq)]
pub struct DotToTokenReceipt {
    pub dot_sold: Balance,
    pub tokens_bought: Balance,
    pub dot_refund: Balance,
    pub buyer: AccountId,
    pub recipient: AccountId,
}

/// Receipt of a successful token→native swap: the host must pay
/// `dot_bought` native currency to `recipient` and pull `tokens_sold`
/// tokens from `buyer` into the pool (aborting the whole transaction if
/// that pull fails).
#[derive(Clone, Copy, Debug, PartialEq, Eq)]
pub struct TokenToDotReceipt {
    pub tokens_sold: Balance,
    pub dot_bought: Balance,
    pub buyer: AccountId,
    pub recipient: AccountId,
}

/// The nested call a multi-hop swap asks the host to make into the peer
/// exchange, forwarding `value` native currency. For the exact-input hop
/// the callee entry point is the peer's `dot_to_token_transfer_input` and
/// `amount` is the minimum tokens bought; for the exact-output hop it is
/// the peer's `dot_to_token_transfer_output` and `amount` is the exact
/// tokens bought.
#[derive(Clone, Copy, Debug, PartialEq, Eq)]
pub struct PeerCall {
    pub exchange: AccountId,
    pub value: Balance,
    pub amount: Balance,
    pub deadline: Timestamp,
    pub recipient: AccountId,
    pub gas_limit: u64,
}

/// Receipt of the local leg of a multi-hop swap: the host must pull
/// `tokens_sold` tokens from `buyer` into the pool (abort on failure) and
/// then perform `peer_call`; a failure of the nested call likewise aborts
/// the whole transaction, this leg included.
#[derive(Clone, Copy, Debug, PartialEq, Eq)]
pub struct TokenToTokenReceipt {
    pub tokens_sold: Balance,
    pub dot_bought: Balance,
    pub buyer: AccountId,
    pub peer_call: PeerCall,
}

/// The read-only call an exact-output multi-hop swap asks the host to make
/// first: quote `dot_to_token_output_price(tokens_bought)` on the peer.
#[derive(Clone, Copy, Debug, PartialEq, Eq)]
pub struct PeerQuote {
    pub exchange: AccountId,
    pub tokens_bought: Balance,
    pub gas_limit: u64,
}

/// The fields fixed at construction never change.
pub open spec fn same_config(pre: Exchange, post: Exchange) -> bool {
    &&& post.name == pre.name
    &&& post.symbol == pre.symbol
    &&& post.decimals == pre.decimals
    &&& post.token == pre.token
    &&& post.factory == pre.factory
    &&& post.gas_limit == pre.gas_limit
    &&& post.exchange_account_id == pre.exchange_account_id
}

/// A swap touches no LP state: shares, supply and allowances stay as they
/// were.
pub open spec fn lp_state_unchanged(pre: Exchange, post: Exchange) -> bool {
    &&& post.total_supply == pre.total_supply
    &&& post.balances == pre.balances
    &&& post.allowances == pre.allowances
}

/// Why a native→token exact-input swap aborts, or `None` when it
/// succeeds. The native reserve for pricing is the pool balance with the
/// just-received payment (`dot_sold`) taken back out.
pub open spec fn dot_to_token_input_abort(
    env: Env,
    token_reserve: Balance,
    dot_sold: Balance,
    min_tokens: Balance,
    deadline: Timestamp,
) -> Option<Error> {
    if deadline < env.block_timestamp {
        Some(Error::DeadlineExpired)
    } else if dot_sold <= 0 || min_tokens <= 0 {
        Some(Error::InvalidAmount)
    } else if input_price_abort(dot_sold as int, env.self_balance - dot_sold, token_reserve as int) is Some {
        input_price_abort(dot_sold as int, env.self_balance - dot_sold, token_reserve as int)
    } else if input_price_value(dot_sold as int, env.self_balance - dot_sold, token_reserve as int) < min_tokens {
        Some(Error::SlippageExceeded)
    } else {
        None
    }
}

/// State change and receipt of a successful native→token exact-input swap.
pub open spec fn dot_to_token_input_ok(
    pre: Exchange,
    post: Exchange,
    env: Env,
    token_reserve: Balance,
    dot_sold: Balance,
    buyer: AccountId,
    recipient: AccountId,
    receipt: DotToTokenReceipt,
) -> bool {
    let tokens_bought = input_price_value(dot_sold as int, env.self_balance - dot_sold, token_reserve as int);
    &&& receipt == (DotToTokenReceipt {
        dot_sold,
        tokens_bought: tokens_bought as Balance,
        dot_refund: 0,
        buyer,
        recipient,
    })
    &&& post.events@ == pre.events@.push(ExchangeEvent::TokenPurchase((TokenPurchase {
        buyer,
        dot_sold,
        tokens_bought: tokens_bought as Balance,
    })))
}

/// Why a native→token exact-output swap aborts, or `None` when it
/// succeeds. `max_dot` is the native payment received with the call, and
/// the whole of it is taken back out of the balance for pricing.
pub open spec fn dot_to_token_output_abort(
    env: Env,
    token_reserve: Balance,
    tokens_bought: Balance,
    max_dot: Balance,
    deadline: Timestamp,
) -> Option<Error> {
    if deadline < env.block_timestamp {
        Some(Error::DeadlineExpired)
    } else if tokens_bought <= 0 || max_dot <= 0 {
        Some(Error::InvalidAmount)
    } else if output_price_abort(tokens_bought as int, env.self_balance - max_dot, token_reserve as int) is Some {
        output_price_abort(tokens_bought as int, env.self_balance - max_dot, token_reserve as int)
    } else if output_price_value(tokens_bought as int, env.self_balance - max_dot, token_reserve as int) > max_dot {
        Some(Error::SlippageExceeded)
    } else {
        None
    }
}

/// State change and receipt of a successful native→token exact-output
/// swap; the overpayment `max_dot − dot_sold` goes back to the buyer.
pub open spec fn dot_to_token_output_ok(
    pre: Exchange,
    post: Exchange,
    env: Env,
    token_reserve: Balance,
    tokens_bought: Balance,
    max_dot: Balance,
    buyer: AccountId,
    recipient: AccountId,
    receipt: DotToTokenReceipt,
) -> bool {
    let dot_sold = output_price_value(tokens_bought as int, env.self_balance - max_dot, token_reserve as int);
    &&& receipt == (DotToTokenReceipt {
        dot_sold: dot_sold as Balance,
        tokens_bought,
        dot_refund: (max_dot - dot_sold) as Balance,
        buyer,
        recipient,
    })
    &&& post.events@ == pre.events@.push(ExchangeEvent::TokenPurchase((TokenPurchase {
        buyer,
        dot_sold: dot_sold as Balance,
        tokens_bought,
    })))
}

/// Why a token→native exact-input swap aborts, or `None` when it
/// succeeds. The bought amount must strictly exceed `min_dot`.
pub open spec fn token_to_dot_input_abort(
    env: Env,
    token_reserve: Balance,
    tokens_sold: Balance,
    min_dot: Balance,
    deadline: Timestamp,
) -> Option<Error> {
    if deadline < env.block_timestamp {
        Some(Error::DeadlineExpired)
    } else if tokens_sold <= 0 || min_dot <= 0 {
        Some(Error::InvalidAmount)
    } else if input_price_abort(tokens_sold as int, token_reserve as int, env.self_balance as int) is Some {
        input_price_abort(tokens_sold as int, token_reserve as int, env.self_balance as int)
    } else if input_price_value(tokens_sold as int, token_reserve as int, env.self_balance as int) <= min_dot {
        Some(Error::SlippageExceeded)
    } else {
        None
    }
}

/// State change and receipt of a successful token→native exact-input swap.
pub open spec fn token_to_dot_input_ok(
    pre: Exchange,
    post: Exchange,
    env: Env,
    token_reserve: Balance,
    tokens_sold: Balance,
    buyer: AccountId,
    recipient: AccountId,
    receipt: TokenToDotReceipt,
) -> bool {
    let dot_bought = input_price_value(tokens_sold as int, token_reserve as int, env.self_balance as int);
    &&& receipt == (TokenToDotReceipt { tokens_sold, dot_bought: dot_bought as Balance, buyer, recipient })
    &&& post.events@ == pre.events@.push(ExchangeEvent::DotPurchase((DotPurchase {
        buyer,
        tokens_sold,
        dot_bought: dot_bought as Balance,
    })))
}

/// Why a token→native exact-output swap aborts, or `None` when it
/// succeeds.
pub open spec fn token_to_dot_output_abort(
    env: Env,
    token_reserve: Balance,
    dot_bought: Balance,
    max_tokens: Balance,
    deadline: Timestamp,
) -> Option<Error> {
    if deadline < env.block_timestamp {
        Some(Error::DeadlineExpired)
    } else if dot_bought <= 0 {
        Some(Error::InvalidAmount)
    } else if output_price_abort(dot_bought as int, token_reserve as int, env.self_balance as int) is Some {
        output_price_abort(dot_bought as int, token_reserve as int, env.self_balance as int)
    } else if output_price_value(dot_bought as int, token_reserve as int, env.self_balance as int) > max_tokens {
        Some(Error::SlippageExceeded)
    } else {
        None
    }
}

/// State change and receipt of a successful token→native exact-output
/// swap.
pub open spec fn token_to_dot_output_ok(
    pre: Exchange,
    post: Exchange,
    env: Env,
    token_reserve: Balance,
    dot_bought: Balance,
    buyer: AccountId,
    recipient: AccountId,
    receipt: TokenToDotReceipt,
) -> bool {
    let tokens_sold = output_price_value(dot_bought as int, token_reserve as int, env.self_balance as int);
    &&& receipt == (TokenToDotReceipt { tokens_sold: tokens_sold as Balance, dot_bought, buyer, recipient })
    &&& post.events@ == pre.events@.push(ExchangeEvent::DotPurchase((DotPurchase {
        buyer,
        tokens_sold: tokens_sold as Balance,
        dot_bought,
    })))
}

/// Why the local leg of an exact-input multi-hop swap aborts, or `None`
/// when it succeeds.
pub open spec fn token_to_token_input_abort(
    env: Env,
    token_reserve: Balance,
    tokens_sold: Balance,
    min_tokens_bought: Balance,
    min_dot_bought: Balance,
    deadline: Timestamp,
) -> Option<Error> {
    if deadline < env.block_timestamp {
        Some(Error::DeadlineExpired)
    } else if tokens_sold <= 0 || min_dot_bought <= 0 || min_tokens_bought <= 0 {
        Some(Error::InvalidAmount)
    } else if input_price_abort(tokens_sold as int, token_reserve as int, env.self_balance as int) is Some {
        input_price_abort(tokens_sold as int, token_reserve as int, env.self_balance as int)
    } else if input_price_value(tokens_sold as int, token_reserve as int, env.self_balance as int) < min_dot_bought {
        Some(Error::SlippageExceeded)
    } else {
        None
    }
}

/// State change and receipt of a successful exact-input multi-hop local
/// leg: the pool buys `dot_bought` native with the caller's tokens and
/// forwards it to the peer's exact-input entry point.
pub open spec fn token_to_token_input_ok(
    pre: Exchange,
    post: Exchange,
    env: Env,
    token_reserve: Balance,
    tokens_sold: Balance,
    min_tokens_bought: Balance,
    deadline: Timestamp,
    buyer: AccountId,
    recipient: AccountId,
    exchange_addr: AccountId,
    receipt: TokenToTokenReceipt,
) -> bool {
    let dot_bought = input_price_value(tokens_sold as int, token_reserve as int, env.self_balance as int);
    &&& receipt == (TokenToTokenReceipt {
        tokens_sold,
        dot_bought: dot_bought as Balance,
        buyer,
        peer_call: PeerCall {
            exchange: exchange_addr,
            value: dot_bought as Balance,
            amount: min_tokens_bought,
            deadline,
            recipient,
            gas_limit: pre.gas_limit,
        },
    })
    &&& post.events@ == pre.events@.push(ExchangeEvent::DotPurchase((DotPurchase {
        buyer,
        tokens_sold,
        dot_bought: dot_bought as Balance,
    })))
}

/// State change and receipt of a successful exact-output multi-hop local
/// leg: the pool sells `tokens_sold` of the caller's tokens for the quoted
/// `dot_bought` and forwards it to the peer's exact-output entry point.
pub open spec fn token_to_token_output_ok(
    pre: Exchange,
    post: Exchange,
    env: Env,
    token_reserve: Balance,
    dot_bought: Balance,
    tokens_bought: Balance,
    deadline: Timestamp,
    buyer: AccountId,
    recipient: AccountId,
    exchange_addr: AccountId,
    receipt: TokenToTokenReceipt,
) -> bool {
    let tokens_sold = output_price_value(dot_bought as int, token_reserve as int, env.self_balance as int);
    &&& receipt == (TokenToTokenReceipt {
        tokens_sold: tokens_sold as Balance,
        dot_bought,
        buyer,
        peer_call: PeerCall {
            exchange: exchange_addr,
            value: dot_bought,
            amount: tokens_bought,
            deadline,
            recipient,
            gas_limit: pre.gas_limit,
        },
    })
    &&& post.events@ == pre.events@.push(ExchangeEvent::DotPurchase((DotPurchase {
        buyer,
        tokens_sold: tokens_sold as Balance,
        dot_bought,
    })))
}

/// Law: LP shares are conserved. In every well-formed exchange — and
/// every operation here both assumes and re-establishes well-formedness —
/// the shares held across all accounts sum exactly to the outstanding
/// supply, so no single holding can exceed it.
pub proof fn lemma_share_conservation(e: Exchange, owner: AccountId)
    requires
        e.wf(),
    ensures
        e.balances.sum() == e.total_supply,
        e.spec_balance_of(owner) <= e.total_supply,
{
    e.balances.lemma_le_sum(owner);
}

/// Law: the first deposit bootstraps the pool. When `add_liquidity`
/// succeeds on a pool with no outstanding shares, the new supply equals
/// the pool account's native balance (the deposit itself, on a fresh
/// pool), the caller holds all of it, and the token pull equals the
/// caller's whole declared maximum.
pub proof fn lemma_bootstrap_liquidity(
    pre: Exchange,
    post: Exchange,
    env: Env,
    receipt: AddLiquidityReceipt,
    max_tokens: Balance,
)
    requires
        pre.total_supply == 0,
        post.total_supply == env.self_balance,
        post.balances@ == pre.balances@.insert(env.caller, env.self_balance),
        receipt.minted == env.self_balance,
        receipt.token_amount == max_tokens,
    ensures
        post.spec_balance_of(env.caller) == env.self_balance,
        receipt.minted == post.total_supply,
        receipt.token_amount == max_tokens,
{
}

/// Law: transferring the whole holding zeroes it. When the ledger moves
/// the caller's exact balance to another account, the caller is left with
/// nothing and the recipient is credited in full.
pub proof fn lemma_transfer_exact_balance(
    pre: Exchange,
    post: Exchange,
    caller: AccountId,
    to: AccountId,
    value: Balance,
)
    requires
        pre.wf(),
        value == pre.spec_balance_of(caller),
        to != caller,
        post.balances@ == spec_transfer_balances(pre.balances@, caller, to, value),
    ensures
        post.spec_balance_of(caller) == 0,
        post.spec_balance_of(to) == pre.spec_balance_of(to) + value,
{
    pre.balances.lemma_two_le_sum(caller, to);
}

impl Exchange {
    /// LP balances sum exactly to the total supply, so no single balance
    /// can exceed it.
    pub open spec fn wf(self) -> bool {
        &&& self.balances.wf()
        &&& self.allowances.wf()
        &&& self.balances.sum() == self.total_supply
    }

    /// The LP shares of `owner`; accounts never seen hold zero.
    pub open spec fn spec_balance_of(self, owner: AccountId) -> Balance {
        map_get_or_zero(self.balances@, owner)
    }

    /// The LP allowance of `spender` over `owner`'s shares.
    pub open spec fn spec_allowance(self, owner: AccountId, spender: AccountId) -> Balance {
        if self.allowances@.contains_key((owner, spender)) {
            self.allowances@[(owner, spender)]
        } else {
            0
        }
    }

    /// Builds a fresh exchange for `token_account_id`. `endowment` is the
    /// native currency the new pool account starts with; it becomes the
    /// initial LP supply, all credited to `deployer`. The host that
    /// instantiates the pool still owes it the initial token deposit (see
    /// the registry's instantiation request).
    pub fn new(
        token_account_id: AccountId,
        factory_account_id: AccountId,
        deployer: AccountId,
        endowment: Balance,
        exchange_account_id: AccountId,
    ) -> (c: Self)
        ensures
            c.wf(),
            c.name == 0 && c.symbol == 0 && c.decimals == 18,
            c.total_supply == endowment,
            c.balances@ == Map::<AccountId, Balance>::empty().insert(deployer, endowment),
            c.allowances@ == Map::<(AccountId, AccountId), Balance>::empty(),
            c.token == token_account_id,
            c.factory == factory_account_id,
            c.gas_limit == CALL_GAS_LIMIT,
            c.exchange_account_id == exchange_account_id,
            c.events@ == Seq::<ExchangeEvent>::empty(),
    {
        let mut balances = IdTable::new();
        balances.set(deployer, endowment);
        Exchange {
            name: 0,
            symbol: 0,
            decimals: 18,
            total_supply: endowment,
            balances,
            allowances: PairTable::new(),
            token: token_account_id,
            factory: factory_account_id,
            gas_limit: CALL_GAS_LIMIT,
            exchange_account_id,
            events: Vec::new(),
        }
    }

    /// A fresh exchange with every identity null and nothing endowed.
    pub fn default() -> (c: Self)
        ensures
            c.wf(),
            c.total_supply == 0,
            c.token == NULL_ACCOUNT,
            c.factory == NULL_ACCOUNT,
            c.exchange_account_id == NULL_ACCOUNT,
    {
        Self::new(NULL_ACCOUNT, NULL_ACCOUNT, NULL_ACCOUNT, 0, NULL_ACCOUNT)
    }

    /// Total outstanding LP shares.
    pub fn total_supply(&self) -> (r: Balance)
        ensures
            r == self.total_supply,
    {
        self.total_supply
    }

    /// The LP shares of `owner`.
    pub fn balance_of(&self, owner: AccountId) -> (r: Balance)
        requires
            self.wf(),
        ensures
            r == self.spec_balance_of(owner),
    {
        self.balances.lookup(owner)
    }

    /// How many LP shares `spender` may still move out of `owner`'s
    /// holding.
    pub fn allowance(&self, owner: AccountId, spender: AccountId) -> (r: Balance)
        requires
            self.wf(),
        ensures
            r == self.spec_allowance(owner, spender),
    {
        self.allowances.lookup(owner, spender)
    }

    /// This instance's own account.
    pub fn get_address(&self) -> (r: AccountId)
        ensures
            r == self.exchange_account_id,
    {
        self.exchange_account_id
    }

    /// See [`pricing::input_price`].
    pub fn input_price(&self, input_amount: Balance, input_reserve: Balance, output_reserve: Balance) -> (r: Result<Balance, Error>)
        ensures
            match input_price_abort(input_amount as int, input_reserve as int, output_reserve as int) {
                Some(e) => r == Err::<Balance, Error>(e),
                None => (r matches Ok(v)
                    && v == input_price_value(input_amount as int, input_reserve as int, output_reserve as int)),
            },
    {
        pricing::input_price(input_amount, input_reserve, output_reserve)
    }

    /// See [`pricing::output_price`].
    pub fn output_price(&self, output_amount: Balance, input_reserve: Balance, output_reserve: Balance) -> (r: Result<Balance, Error>)
        ensures
            match output_price_abort(output_amount as int, input_reserve as int, output_reserve as int) {
                Some(e) => r == Err::<Balance, Error>(e),
                None => (r matches Ok(v)
                    && v == output_price_value(output_amount as int, input_reserve as int, output_reserve as int)),
            },
    {
        pricing::output_price(output_amount, input_reserve, output_reserve)
    }

    /// Moves `value` LP shares from the caller to `to`. Returns `false`
    /// and changes nothing when the caller holds too few shares;
    /// transferring the exact holding succeeds and zeroes it.
    pub fn transfer(&mut self, caller: AccountId, to: AccountId, value: Balance) -> (r: bool)
        requires
            old(self).wf(),
        ensures
            final(self).wf(),
            same_config(*old(self), *final(self)),
            r == (old(self).spec_balance_of(caller) >= value),
            !r ==> *final(self) == *old(self),
            r ==> final(self).balances@
                == spec_transfer_balances(old(self).balances@, caller, to, value),
            r ==> final(self).events@ == old(self).events@.push(
                ExchangeEvent::Transfer((Transfer { from: caller, to, value })),
            ),
            final(self).total_supply == old(self).total_supply,
            final(self).allowances == old(self).allowances,
    {
        self.transfer_from_to(caller, to, value)
    }

    /// Moves `value` LP shares from `from` to `to` on the strength of the
    /// caller's allowance. Returns `false` when the allowance is too
    /// small, changing nothing; with enough allowance the allowance is
    /// decremented first, so a transfer that then fails on `from`'s
    /// balance still leaves the allowance reduced.
    pub fn transfer_from(&mut self, caller: AccountId, from: AccountId, to: AccountId, value: Balance) -> (r: bool)
        requires
            old(self).wf(),
        ensures
            final(self).wf(),
            same_config(*old(self), *final(self)),
            final(self).total_supply == old(self).total_supply,
            r == (old(self).spec_allowance(from, caller) >= value
                && old(self).spec_balance_of(from) >= value),
            old(self).spec_allowance(from, caller) < value ==> *final(self) == *old(self),
            old(self).spec_allowance(from, caller) >= value ==> final(self).allowances@
                == old(self).allowances@.insert(
                    (from, caller),
                    (old(self).spec_allowance(from, caller) - value) as Balance,
                ),
            old(self).spec_allowance(from, caller) >= value ==> {
                if old(self).spec_balance_of(from) >= value {
                    &&& final(self).balances@
                        == spec_transfer_balances(old(self).balances@, from, to, value)
                    &&& final(self).events@ == old(self).events@.push(
                        ExchangeEvent::Transfer((Transfer { from, to, value })),
                    )
                } else {
                    &&& final(self).balances@ == old(self).balances@
                    &&& final(self).events@ == old(self).events@
                }
            },
    {
        let allowance = self.allowances.lookup(from, caller);
        if allowance < value {
            return false;
        }
        self.allowances.set(from, caller, allowance - value);
        self.transfer_from_to(from, to, value)
    }

    /// Sets (not adds to) the LP-share allowance of `spender` over the
    /// caller's holding, logs an approval, and always reports success.
    pub fn approve(&mut self, caller: AccountId, spender: AccountId, value: Balance) -> (r: bool)
        requires
            old(self).wf(),
        ensures
            final(self).wf(),
            same_config(*old(self), *final(self)),
            r == true,
            final(self).total_supply == old(self).total_supply,
            final(self).balances == old(self).balances,
            final(self).allowances@ == old(self).allowances@.insert((caller, spender), value),
            final(self).events@ == old(self).events@.push(
                ExchangeEvent::Approval((Approval { owner: caller, spender, value })),
            ),
    {
        self.allowances.set(caller, spender, value);
        self.events.push(ExchangeEvent::Approval(Approval { owner: caller, spender, value }));
        true
    }

    /// Why `add_liquidity` aborts under `env` with the given arguments, or
    /// `None` when it succeeds. Checks run in this order: deadline,
    /// positivity, then (for a pool that already has liquidity) the
    /// proportional-join arithmetic and the caller's slippage bounds.
    pub open spec fn add_liquidity_abort(
        self,
        env: Env,
        token_reserve: Balance,
        min_liquidity: Balance,
        max_tokens: Balance,
        deadline: Timestamp,
    ) -> Option<Error> {
        let tv = env.transferred_value;
        if deadline < env.block_timestamp {
            Some(Error::DeadlineExpired)
        } else if max_tokens <= 0 || tv <= 0 {
            Some(Error::InvalidAmount)
        } else if self.total_supply > 0 {
            let dot_reserve = env.self_balance - tv;
            if min_liquidity <= 0 {
                Some(Error::InvalidAmount)
            } else if dot_reserve <= 0 {
                Some(Error::InvalidReserve)
            } else if tv * token_reserve > u128::MAX {
                Some(Error::Overflow)
            } else if tv * token_reserve / dot_reserve + 1 > u128::MAX {
                Some(Error::Overflow)
            } else if tv * self.total_supply > u128::MAX {
                Some(Error::Overflow)
            } else {
                let token_amount = tv * token_reserve / dot_reserve + 1;
                let minted = tv * self.total_supply / dot_reserve;
                if max_tokens < token_amount || minted < min_liquidity {
                    Some(Error::SlippageExceeded)
                } else if self.total_supply + minted > u128::MAX {
                    Some(Error::Overflow)
                } else {
                    None
                }
            }
        } else {
            None
        }
    }

    /// Deposits native currency (the transferred value) and tokens at the
    /// current ratio and mints LP shares for the caller.
    ///
    /// On the first deposit ever (`total_supply == 0`) the caller sets the
    /// price: the pool takes the caller's whole `max_tokens` and mints
    /// shares equal to the pool account's entire native balance. On a
    /// later deposit the token amount and the minted shares follow the
    /// reserve ratio, rounding the token pull up in the pool's favour, and
    /// `max_tokens` / `min_liquidity` bound the caller's exposure.
    pub fn add_liquidity(
        &mut self,
        env: Env,
        token_reserve: Balance,
        min_liquidity: Balance,
        max_tokens: Balance,
        deadline: Timestamp,
    ) -> (r: Result<AddLiquidityReceipt, Error>)
        requires
            old(self).wf(),
            env.wf(),
        ensures
            final(self).wf(),
            same_config(*old(self), *final(self)),
            final(self).allowances == old(self).allowances,
            match r {
                Result::Err(e) => {
                    &&& *final(self) == *old(self)
                    &&& old(self).add_liquidity_abort(env, token_reserve, min_liquidity, max_tokens, deadline)
                        == Some(e)
                },
                Result::Ok(receipt) => {
                    &&& old(self).add_liquidity_abort(env, token_reserve, min_liquidity, max_tokens, deadline)
                        is None
                    &&& receipt.provider == env.caller
                    &&& if old(self).total_supply > 0 {
                        let dot_reserve = env.self_balance - env.transferred_value;
                        let token_amount = env.transferred_value * token_reserve / dot_reserve + 1;
                        let minted = env.transferred_value * old(self).total_supply / dot_reserve;
                        &&& receipt.minted == minted
                        &&& receipt.token_amount == token_amount
                        &&& final(self).total_supply == old(self).total_supply + minted
                        &&& final(self).balances@ == old(self).balances@.insert(
                            env.caller,
                            (old(self).spec_balance_of(env.caller) + minted) as Balance,
                        )
                        &&& final(self).events@ == old(self).events@.push(
                            ExchangeEvent::AddLiquidity((AddLiquidity {
                                provider: env.caller,
                                dot_amount: env.transferred_value,
                                token_amount: token_amount as Balance,
                            })),
                        ).push(
                            ExchangeEvent::Transfer((Transfer {
                                from: NULL_ACCOUNT,
                                to: env.caller,
                                value: minted as Balance,
                            })),
                        )
                    } else {
                        &&& receipt.minted == env.self_balance
                        &&& receipt.token_amount == max_tokens
                        &&& final(self).total_supply == env.self_balance
                        &&& final(self).balances@ == old(self).balances@.insert(env.caller, env.self_balance)
                        &&& final(self).events@ == old(self).events@.push(
                            ExchangeEvent::AddLiquidity((AddLiquidity {
                                provider: env.caller,
                                dot_amount: env.transferred_value,
                                token_amount: max_tokens,
                            })),
                        ).push(
                            ExchangeEvent::Transfer((Transfer {
                                from: NULL_ACCOUNT,
                                to: env.caller,
                                value: env.self_balance,
                            })),
                        )
                    }
                },
            },
    {
        let tv = env.transferred_value;
        if deadline < env.block_timestamp {
            return Err(Error::DeadlineExpired);
        }
        if max_tokens == 0 || tv == 0 {
            return Err(Error::InvalidAmount);
        }
        let total_liquidity = self.total_supply;
        let caller = env.caller;
        if total_liquidity > 0 {
            if min_liquidity == 0 {
                return Err(Error::InvalidAmount);
            }
            let dot_reserve = env.self_balance - tv;
            if dot_reserve == 0 {
                return Err(Error::InvalidReserve);
            }
            let scaled_tokens = match tv.checked_mul(token_reserve) {
                Some(x) => x,
                None => { return Err(Error::Overflow); },
            };
            let token_amount = match (scaled_tokens / dot_reserve).checked_add(1) {
                Some(x) => x,
                None => { return Err(Error::Overflow); },
            };
            let scaled_liquidity = match tv.checked_mul(total_liquidity) {
                Some(x) => x,
                None => { return Err(Error::Overflow); },
            };
            let minted = scaled_liquidity / dot_reserve;
            if max_tokens < token_amount || minted < min_liquidity {
                return Err(Error::SlippageExceeded);
            }
            let new_total = match total_liquidity.checked_add(minted) {
                Some(x) => x,
                None => { return Err(Error::Overflow); },
            };
            let caller_liquidity = self.balances.lookup(caller);
            proof {
                self.balances.lemma_le_sum(caller);
            }
            self.balances.set(caller, caller_liquidity + minted);
            self.total_supply = new_total;
            self.events.push(ExchangeEvent::AddLiquidity(AddLiquidity {
                provider: caller,
                dot_amount: tv,
                token_amount,
            }));
            self.events.push(ExchangeEvent::Transfer(Transfer {
                from: NULL_ACCOUNT,
                to: caller,
                value: minted,
            }));
            Ok(AddLiquidityReceipt { minted, token_amount, provider: caller })
        } else {
            let initial_liquidity = env.self_balance;
            proof {
                self.balances.lemma_le_sum(caller);
            }
            self.total_supply = initial_liquidity;
            self.balances.set(caller, initial_liquidity);
            self.events.push(ExchangeEvent::AddLiquidity(AddLiquidity {
                provider: caller,
                dot_amount: tv,
                token_amount: max_tokens,
            }));
            self.events.push(ExchangeEvent::Transfer(Transfer {
                from: NULL_ACCOUNT,
                to: caller,
                value: initial_liquidity,
            }));
            Ok(AddLiquidityReceipt { minted: initial_liquidity, token_amount: max_tokens, provider: caller })
        }
    }

    /// Why `remove_liquidity` aborts, or `None` when it succeeds.
    pub open spec fn remove_liquidity_abort(
        self,
        env: Env,
        token_reserve: Balance,
        amount: Balance,
        min_dot: Balance,
        min_token: Balance,
        deadline: Timestamp,
    ) -> Option<Error> {
        if deadline < env.block_timestamp {
            Some(Error::DeadlineExpired)
        } else if amount <= 0 || min_dot <= 0 || min_token <= 0 {
            Some(Error::InvalidAmount)
        } else if self.total_supply <= 0 {
            Some(Error::InsufficientLiquidity)
        } else if amount * env.self_balance > u128::MAX {
            Some(Error::Overflow)
        } else if amount * token_reserve > u128::MAX {
            Some(Error::Overflow)
        } else {
            let dot_amount = amount * env.self_balance / (self.total_supply as int);
            let token_amount = amount * token_reserve / (self.total_supply as int);
            if dot_amount <= min_dot || token_amount <= min_token {
                Some(Error::SlippageExceeded)
            } else if self.spec_balance_of(env.caller) < amount {
                Some(Error::InsufficientLiquidity)
            } else {
                None
            }
        }
    }

    /// Burns `amount` LP shares of the caller and withdraws both sides of
    /// the pool at the current ratio. The withdrawn amounts must strictly
    /// exceed the caller's declared minimums.
    pub fn remove_liquidity(
        &mut self,
        env: Env,
        token_reserve: Balance,
        amount: Balance,
        min_dot: Balance,
        min_token: Balance,
        deadline: Timestamp,
    ) -> (r: Result<RemoveLiquidityReceipt, Error>)
        requires
            old(self).wf(),
        ensures
            final(self).wf(),
            same_config(*old(self), *final(self)),
            final(self).allowances == old(self).allowances,
            match r {
                Result::Err(e) => {
                    &&& *final(self) == *old(self)
                    &&& old(self).remove_liquidity_abort(env, token_reserve, amount, min_dot, min_token, deadline)
                        == Some(e)
                },
                Result::Ok(receipt) => {
                    let dot_amount = amount * env.self_balance / (old(self).total_supply as int);
                    let token_amount = amount * token_reserve / (old(self).total_supply as int);
                    &&& old(self).remove_liquidity_abort(env, token_reserve, amount, min_dot, min_token, deadline)
                        is None
                    &&& receipt.provider == env.caller
                    &&& receipt.dot_amount == dot_amount
                    &&& receipt.token_amount == token_amount
                    &&& final(self).total_supply == old(self).total_supply - amount
                    &&& final(self).balances@ == old(self).balances@.insert(
                        env.caller,
                        (old(self).spec_balance_of(env.caller) - amount) as Balance,
                    )
                    &&& final(self).events@ == old(self).events@.push(
                        ExchangeEvent::RemoveLiquidity((RemoveLiquidity {
                            provider: env.caller,
                            dot_amount: dot_amount as Balance,
                            token_amount: token_amount as Balance,
                        })),
                    ).push(
                        ExchangeEvent::Transfer((Transfer {
                            from: env.caller,
                            to: NULL_ACCOUNT,
                            value: amount,
                        })),
                    )
                },
            },
    {
        if deadline < env.block_timestamp {
            return Err(Error::DeadlineExpired);
        }
        if amount == 0 || min_dot == 0 || min_token == 0 {
            return Err(Error::InvalidAmount);
        }
        let total_liquidity = self.total_supply;
        if total_liquidity == 0 {
            return Err(Error::InsufficientLiquidity);
        }
        let caller = env.caller;
        let scaled_dot = match amount.checked_mul(env.self_balance) {
            Some(x) => x,
            None => { return Err(Error::Overflow); },
        };
        let scaled_tokens = match amount.checked_mul(token_reserve) {
            Some(x) => x,
            None => { return Err(Error::Overflow); },
        };
        let dot_amount = scaled_dot / total_liquidity;
        let token_amount = scaled_tokens / total_liquidity;
        if dot_amount <= min_dot || token_amount <= min_token {
            return Err(Error::SlippageExceeded);
        }
        let caller_liquidity = self.balances.lookup(caller);
        if caller_liquidity < amount {
            return Err(Error::InsufficientLiquidity);
        }
        proof {
            self.balances.lemma_le_sum(caller);
        }
        self.balances.set(caller, caller_liquidity - amount);
        self.total_supply = total_liquidity - amount;
        self.events.push(ExchangeEvent::RemoveLiquidity(RemoveLiquidity {
            provider: caller,
            dot_amount,
            token_amount,
        }));
        self.events.push(ExchangeEvent::Transfer(Transfer {
            from: caller,
            to: NULL_ACCOUNT,
            value: amount,
        }));
        Ok(RemoveLiquidityReceipt { dot_amount, token_amount, provider: caller })
    }

    /// Why the local leg of an exact-output multi-hop swap aborts once the
    /// peer's quote `dot_bought` is in hand, or `None` when it succeeds.
    /// The peer is screened here as well as at the quote step, so the leg
    /// rejects a bad address even when a host skips the quote.
    pub open spec fn token_to_token_output_abort(
        self,
        env: Env,
        token_reserve: Balance,
        dot_bought: Balance,
        max_tokens_sold: Balance,
        max_dot_sold: Balance,
        exchange_addr: AccountId,
    ) -> Option<Error> {
        if exchange_addr == self.exchange_account_id || exchange_addr == NULL_ACCOUNT {
            Some(Error::InvalidRecipient)
        } else if output_price_abort(dot_bought as int, token_reserve as int, env.self_balance as int) is Some {
            output_price_abort(dot_bought as int, token_reserve as int, env.self_balance as int)
        } else if output_price_value(dot_bought as int, token_reserve as int, env.self_balance as int)
            > max_tokens_sold || dot_bought > max_dot_sold {
            Some(Error::SlippageExceeded)
        } else {
            None
        }
    }

    /// Recipient screen of `dot_to_token_transfer_input`, then the swap
    /// checks themselves.
    pub open spec fn dot_to_token_transfer_input_abort(
        self,
        env: Env,
        token_reserve: Balance,
        min_tokens: Balance,
        deadline: Timestamp,
        recipient: AccountId,
    ) -> Option<Error> {
        if recipient == self.exchange_account_id || recipient == NULL_ACCOUNT {
            Some(Error::InvalidRecipient)
        } else {
            dot_to_token_input_abort(env, token_reserve, env.transferred_value, min_tokens, deadline)
        }
    }

    /// Recipient screen of `dot_to_token_transfer_output`, then the swap
    /// checks themselves.
    pub open spec fn dot_to_token_transfer_output_abort(
        self,
        env: Env,
        token_reserve: Balance,
        tokens_bought: Balance,
        deadline: Timestamp,
        recipient: AccountId,
    ) -> Option<Error> {
        if recipient == self.exchange_account_id || recipient == NULL_ACCOUNT {
            Some(Error::InvalidRecipient)
        } else {
            dot_to_token_output_abort(env, token_reserve, tokens_bought, env.transferred_value, deadline)
        }
    }

    /// Recipient screen of `token_to_dot_transfer_input`, then the swap
    /// checks themselves.
    pub open spec fn token_to_dot_transfer_input_abort(
        self,
        env: Env,
        token_reserve: Balance,
        tokens_sold: Balance,
        min_dot: Balance,
        deadline: Timestamp,
        recipient: AccountId,
    ) -> Option<Error> {
        if recipient == self.exchange_account_id || recipient == NULL_ACCOUNT {
            Some(Error::InvalidRecipient)
        } else {
            token_to_dot_input_abort(env, token_reserve, tokens_sold, min_dot, deadline)
        }
    }

    /// Recipient screen of `token_to_dot_transfer_output`, then the swap
    /// checks themselves.
    pub open spec fn token_to_dot_transfer_output_abort(
        self,
        env: Env,
        token_reserve: Balance,
        dot_bought: Balance,
        max_tokens: Balance,
        deadline: Timestamp,
        recipient: AccountId,
    ) -> Option<Error> {
        if recipient == self.exchange_account_id || recipient == NULL_ACCOUNT {
            Some(Error::InvalidRecipient)
        } else {
            token_to_dot_output_abort(env, token_reserve, dot_bought, max_tokens, deadline)
        }
    }

    fn dot_to_token_input(
        &mut self,
        env: Env,
        token_reserve: Balance,
        dot_sold: Balance,
        min_tokens: Balance,
        deadline: Timestamp,
        buyer: AccountId,
        recipient: AccountId,
    ) -> (r: Result<DotToTokenReceipt, Error>)
        requires
            dot_sold <= env.self_balance,
        ensures
            same_config(*old(self), *final(self)),
            lp_state_unchanged(*old(self), *final(self)),
            match r {
                Result::Err(e) => {
                    &&& *final(self) == *old(self)
                    &&& dot_to_token_input_abort(env, token_reserve, dot_sold, min_tokens, deadline) == Some(e)
                },
                Result::Ok(receipt) => {
                    &&& dot_to_token_input_abort(env, token_reserve, dot_sold, min_tokens, deadline) is None
                    &&& dot_to_token_input_ok(*old(self), *final(self), env, token_reserve, dot_sold, buyer, recipient, receipt)
                },
            },
    {
        if deadline < env.block_timestamp {
            return Err(Error::DeadlineExpired);
        }
        if dot_sold == 0 || min_tokens == 0 {
            return Err(Error::InvalidAmount);
        }
        let tokens_bought = match pricing::input_price(dot_sold, env.self_balance - dot_sold, token_reserve) {
            Ok(v) => v,
            Err(e) => { return Err(e); },
        };
        if tokens_bought < min_tokens {
            return Err(Error::SlippageExceeded);
        }
        self.events.push(ExchangeEvent::TokenPurchase(TokenPurchase { buyer, dot_sold, tokens_bought }));
        Ok(DotToTokenReceipt { dot_sold, tokens_bought, dot_refund: 0, buyer, recipient })
    }

    /// Sells the native payment received with the call for tokens,
    /// credited to the caller; `min_tokens` bounds slippage.
    pub fn dot_to_token_swap_input(
        &mut self,
        env: Env,
        token_reserve: Balance,
        min_tokens: Balance,
        deadline: Timestamp,
    ) -> (r: Result<DotToTokenReceipt, Error>)
        requires
            env.wf(),
        ensures
            same_config(*old(self), *final(self)),
            lp_state_unchanged(*old(self), *final(self)),
            match r {
                Result::Err(e) => {
                    &&& *final(self) == *old(self)
                    &&& dot_to_token_input_abort(env, token_reserve, env.transferred_value, min_tokens, deadline) == Some(e)
                },
                Result::Ok(receipt) => {
                    &&& dot_to_token_input_abort(env, token_reserve, env.transferred_value, min_tokens, deadline) is None
                    &&& dot_to_token_input_ok(*old(self), *final(self), env, token_reserve,
                        env.transferred_value, env.caller, env.caller, receipt)
                },
            },
    {
        let caller = env.caller;
        let transferred = env.transferred_value;
        self.dot_to_token_input(env, token_reserve, transferred, min_tokens, deadline, caller, caller)
    }

    /// Sells the native payment received with the call for tokens,
    /// credited to `recipient`, which may be neither the pool itself nor
    /// the null account.
    pub fn dot_to_token_transfer_input(
        &mut self,
        env: Env,
        token_reserve: Balance,
        min_tokens: Balance,
        deadline: Timestamp,
        recipient: AccountId,
    ) -> (r: Result<DotToTokenReceipt, Error>)
        requires
            env.wf(),
        ensures
            same_config(*old(self), *final(self)),
            lp_state_unchanged(*old(self), *final(self)),
            match r {
                Result::Err(e) => {
                    &&& *final(self) == *old(self)
                    &&& old(self).dot_to_token_transfer_input_abort(env, token_reserve, min_tokens, deadline, recipient)
                        == Some(e)
                },
                Result::Ok(receipt) => {
                    &&& old(self).dot_to_token_transfer_input_abort(env, token_reserve, min_tokens, deadline, recipient)
                        is None
                    &&& dot_to_token_input_ok(*old(self), *final(self), env, token_reserve,
                        env.transferred_value, env.caller, recipient, receipt)
                },
            },
    {
        if recipient == self.exchange_account_id || recipient == NULL_ACCOUNT {
            return Err(Error::InvalidRecipient);
        }
        let caller = env.caller;
        let transferred = env.transferred_value;
        self.dot_to_token_input(env, token_reserve, transferred, min_tokens, deadline, caller, recipient)
    }

    fn dot_to_token_output(
        &mut self,
        env: Env,
        token_reserve: Balance,
        tokens_bought: Balance,
        max_dot: Balance,
        deadline: Timestamp,
        buyer: AccountId,
        recipient: AccountId,
    ) -> (r: Result<DotToTokenReceipt, Error>)
        requires
            max_dot <= env.self_balance,
        ensures
            same_config(*old(self), *final(self)),
            lp_state_unchanged(*old(self), *final(self)),
            match r {
                Result::Err(e) => {
                    &&& *final(self) == *old(self)
                    &&& dot_to_token_output_abort(env, token_reserve, tokens_bought, max_dot, deadline) == Some(e)
                },
                Result::Ok(receipt) => {
                    &&& dot_to_token_output_abort(env, token_reserve, tokens_bought, max_dot, deadline) is None
                    &&& dot_to_token_output_ok(*old(self), *final(self), env, token_reserve,
                        tokens_bought, max_dot, buyer, recipient, receipt)
                },
            },
    {
        if deadline < env.block_timestamp {
            return Err(Error::DeadlineExpired);
        }
        if tokens_bought == 0 || max_dot == 0 {
            return Err(Error::InvalidAmount);
        }
        let dot_sold = match pricing::output_price(tokens_bought, env.self_balance - max_dot, token_reserve) {
            Ok(v) => v,
            Err(e) => { return Err(e); },
        };
        if dot_sold > max_dot {
            return Err(Error::SlippageExceeded);
        }
        let dot_refund = max_dot - dot_sold;
        self.events.push(ExchangeEvent::TokenPurchase(TokenPurchase { buyer, dot_sold, tokens_bought }));
        Ok(DotToTokenReceipt { dot_sold, tokens_bought, dot_refund, buyer, recipient })
    }

    /// Buys exactly `tokens_bought` tokens for the caller with the native
    /// payment received, refunding the overpayment.
    pub fn dot_to_token_swap_output(
        &mut self,
        env: Env,
        token_reserve: Balance,
        tokens_bought: Balance,
        deadline: Timestamp,
    ) -> (r: Result<DotToTokenReceipt, Error>)
        requires
            env.wf(),
        ensures
            same_config(*old(self), *final(self)),
            lp_state_unchanged(*old(self), *final(self)),
            match r {
                Result::Err(e) => {
                    &&& *final(self) == *old(self)
                    &&& dot_to_token_output_abort(env, token_reserve, tokens_bought, env.transferred_value, deadline)
                        == Some(e)
                },
                Result::Ok(receipt) => {
                    &&& dot_to_token_output_abort(env, token_reserve, tokens_bought, env.transferred_value, deadline)
                        is None
                    &&& dot_to_token_output_ok(*old(self), *final(self), env, token_reserve,
                        tokens_bought, env.transferred_value, env.caller, env.caller, receipt)
                },
            },
    {
        let caller = env.caller;
        let transferred = env.transferred_value;
        self.dot_to_token_output(env, token_reserve, tokens_bought, transferred, deadline, caller, caller)
    }

    /// Buys exactly `tokens_bought` tokens for `recipient` with the native
    /// payment received, refunding the overpayment to the caller.
    pub fn dot_to_token_transfer_output(
        &mut self,
        env: Env,
        token_reserve: Balance,
        tokens_bought: Balance,
        deadline: Timestamp,
        recipient: AccountId,
    ) -> (r: Result<DotToTokenReceipt, Error>)
        requires
            env.wf(),
        ensures
            same_config(*old(self), *final(self)),
            lp_state_unchanged(*old(self), *final(self)),
            match r {
                Result::Err(e) => {
                    &&& *final(self) == *old(self)
                    &&& old(self).dot_to_token_transfer_output_abort(env, token_reserve, tokens_bought, deadline, recipient)
                        == Some(e)
                },
                Result::Ok(receipt) => {
                    &&& old(self).dot_to_token_transfer_output_abort(env, token_reserve, tokens_bought, deadline, recipient)
                        is None
                    &&& dot_to_token_output_ok(*old(self), *final(self), env, token_reserve,
                        tokens_bought, env.transferred_value, env.caller, recipient, receipt)
                },
            },
    {
        if recipient == self.exchange_account_id || recipient == NULL_ACCOUNT {
            return Err(Error::InvalidRecipient);
        }
        let caller = env.caller;
        let transferred = env.transferred_value;
        self.dot_to_token_output(env, token_reserve, tokens_bought, transferred, deadline, caller, recipient)
    }

    fn token_to_dot_input(
        &mut self,
        env: Env,
        token_reserve: Balance,
        tokens_sold: Balance,
        min_dot: Balance,
        deadline: Timestamp,
        buyer: AccountId,
        recipient: AccountId,
    ) -> (r: Result<TokenToDotReceipt, Error>)
        ensures
            same_config(*old(self), *final(self)),
            lp_state_unchanged(*old(self), *final(self)),
            match r {
                Result::Err(e) => {
                    &&& *final(self) == *old(self)
                    &&& token_to_dot_input_abort(env, token_reserve, tokens_sold, min_dot, deadline) == Some(e)
                },
                Result::Ok(receipt) => {
                    &&& token_to_dot_input_abort(env, token_reserve, tokens_sold, min_dot, deadline) is None
                    &&& token_to_dot_input_ok(*old(self), *final(self), env, token_reserve,
                        tokens_sold, buyer, recipient, receipt)
                },
            },
    {
        if deadline < env.block_timestamp {
            return Err(Error::DeadlineExpired);
        }
        if tokens_sold == 0 || min_dot == 0 {
            return Err(Error::InvalidAmount);
        }
        let dot_bought = match pricing::input_price(tokens_sold, token_reserve, env.self_balance) {
            Ok(v) => v,
            Err(e) => { return Err(e); },
        };
        if dot_bought <= min_dot {
            return Err(Error::SlippageExceeded);
        }
        self.events.push(ExchangeEvent::DotPurchase(DotPurchase { buyer, tokens_sold, dot_bought }));
        Ok(TokenToDotReceipt { tokens_sold, dot_bought, buyer, recipient })
    }

    /// Sells `tokens_sold` of the caller's tokens for native currency paid
    /// to the caller; the proceeds must strictly exceed `min_dot`.
    pub fn token_to_dot_swap_input(
        &mut self,
        env: Env,
        token_reserve: Balance,
        tokens_sold: Balance,
        min_dot: Balance,
        deadline: Timestamp,
    ) -> (r: Result<TokenToDotReceipt, Error>)
        ensures
            same_config(*old(self), *final(self)),
            lp_state_unchanged(*old(self), *final(self)),
            match r {
                Result::Err(e) => {
                    &&& *final(self) == *old(self)
                    &&& token_to_dot_input_abort(env, token_reserve, tokens_sold, min_dot, deadline) == Some(e)
                },
                Result::Ok(receipt) => {
                    &&& token_to_dot_input_abort(env, token_reserve, tokens_sold, min_dot, deadline) is None
                    &&& token_to_dot_input_ok(*old(self), *final(self), env, token_reserve,
                        tokens_sold, env.caller, env.caller, receipt)
                },
            },
    {
        let caller = env.caller;
        self.token_to_dot_input(env, token_reserve, tokens_sold, min_dot, deadline, caller, caller)
    }

    /// Sells `tokens_sold` of the caller's tokens for native currency paid
    /// to `recipient`, which may be neither the pool itself nor the null
    /// account.
    pub fn token_to_dot_transfer_input(
        &mut self,
        env: Env,
        token_reserve: Balance,
        tokens_sold: Balance,
        min_dot: Balance,
        deadline: Timestamp,
        recipient: AccountId,
    ) -> (r: Result<TokenToDotReceipt, Error>)
        ensures
            same_config(*old(self), *final(self)),
            lp_state_unchanged(*old(self), *final(self)),
            match r {
                Result::Err(e) => {
                    &&& *final(self) == *old(self)
                    &&& old(self).token_to_dot_transfer_input_abort(env, token_reserve, tokens_sold, min_dot, deadline, recipient)
                        == Some(e)
                },
                Result::Ok(receipt) => {
                    &&& old(self).token_to_dot_transfer_input_abort(env, token_reserve, tokens_sold, min_dot, deadline, recipient)
                        is None
                    &&& token_to_dot_input_ok(*old(self), *final(self), env, token_reserve,
                        tokens_sold, env.caller, recipient, receipt)
                },
            },
    {
        if self.exchange_account_id == recipient || recipient == NULL_ACCOUNT {
            return Err(Error::InvalidRecipient);
        }
        let caller = env.caller;
        self.token_to_dot_input(env, token_reserve, tokens_sold, min_dot, deadline, caller, recipient)
    }

    fn token_to_dot_output(
        &mut self,
        env: Env,
        token_reserve: Balance,
        dot_bought: Balance,
        max_tokens: Balance,
        deadline: Timestamp,
        buyer: AccountId,
        recipient: AccountId,
    ) -> (r: Result<TokenToDotReceipt, Error>)
        ensures
            same_config(*old(self), *final(self)),
            lp_state_unchanged(*old(self), *final(self)),
            match r {
                Result::Err(e) => {
                    &&& *final(self) == *old(self)
                    &&& token_to_dot_output_abort(env, token_reserve, dot_bought, max_tokens, deadline) == Some(e)
                },
                Result::Ok(receipt) => {
                    &&& token_to_dot_output_abort(env, token_reserve, dot_bought, max_tokens, deadline) is None
                    &&& token_to_dot_output_ok(*old(self), *final(self), env, token_reserve,
                        dot_bought, buyer, recipient, receipt)
                },
            },
    {
        if deadline < env.block_timestamp {
            return Err(Error::DeadlineExpired);
        }
        if dot_bought == 0 {
            return Err(Error::InvalidAmount);
        }
        let tokens_sold = match pricing::output_price(dot_bought, token_reserve, env.self_balance) {
            Ok(v) => v,
            Err(e) => { return Err(e); },
        };
        if tokens_sold > max_tokens {
            return Err(Error::SlippageExceeded);
        }
        self.events.push(ExchangeEvent::DotPurchase(DotPurchase { buyer, tokens_sold, dot_bought }));
        Ok(TokenToDotReceipt { tokens_sold, dot_bought, buyer, recipient })
    }

    /// Buys exactly `dot_bought` native currency for the caller, selling
    /// at most `max_tokens` of the caller's tokens.
    pub fn token_to_dot_swap_output(
        &mut self,
        env: Env,
        token_reserve: Balance,
        dot_bought: Balance,
        max_tokens: Balance,
        deadline: Timestamp,
    ) -> (r: Result<TokenToDotReceipt, Error>)
        ensures
            same_config(*old(self), *final(self)),
            lp_state_unchanged(*old(self), *final(self)),
            match r {
                Result::Err(e) => {
                    &&& *final(self) == *old(self)
                    &&& token_to_dot_output_abort(env, token_reserve, dot_bought, max_tokens, deadline) == Some(e)
                },
                Result::Ok(receipt) => {
                    &&& token_to_dot_output_abort(env, token_reserve, dot_bought, max_tokens, deadline) is None
                    &&& token_to_dot_output_ok(*old(self), *final(self), env, token_reserve,
                        dot_bought, env.caller, env.caller, receipt)
                },
            },
    {
        let caller = env.caller;
        self.token_to_dot_output(env, token_reserve, dot_bought, max_tokens, deadline, caller, caller)
    }

    /// Buys exactly `dot_bought` native currency for `recipient`, selling
    /// at most `max_tokens` of the caller's tokens; `recipient` may be
    /// neither the pool itself nor the null account.
    pub fn token_to_dot_transfer_output(
        &mut self,
        env: Env,
        token_reserve: Balance,
        dot_bought: Balance,
        max_tokens: Balance,
        deadline: Timestamp,
        recipient: AccountId,
    ) -> (r: Result<TokenToDotReceipt, Error>)
        ensures
            same_config(*old(self), *final(self)),
            lp_state_unchanged(*old(self), *final(self)),
            match r {
                Result::Err(e) => {
                    &&& *final(self) == *old(self)
                    &&& old(self).token_to_dot_transfer_output_abort(env, token_reserve, dot_bought, max_tokens, deadline, recipient)
                        == Some(e)
                },
                Result::Ok(receipt) => {
                    &&& old(self).token_to_dot_transfer_output_abort(env, token_reserve, dot_bought, max_tokens, deadline, recipient)
                        is None
                    &&& token_to_dot_output_ok(*old(self), *final(self), env, token_reserve,
                        dot_bought, env.caller, recipient, receipt)
                },
            },
    {
        if recipient == self.exchange_account_id || recipient == NULL_ACCOUNT {
            return Err(Error::InvalidRecipient);
        }
        let caller = env.caller;
        self.token_to_dot_output(env, token_reserve, dot_bought, max_tokens, deadline, caller, recipient)
    }

    fn token_to_token_input(
        &mut self,
        env: Env,
        token_reserve: Balance,
        tokens_sold: Balance,
        min_tokens_bought: Balance,
        min_dot_bought: Balance,
        deadline: Timestamp,
        buyer: AccountId,
        recipient: AccountId,
        exchange_addr: AccountId,
    ) -> (r: Result<TokenToTokenReceipt, Error>)
        ensures
            same_config(*old(self), *final(self)),
            lp_state_unchanged(*old(self), *final(self)),
            match r {
                Result::Err(e) => {
                    &&& *final(self) == *old(self)
                    &&& token_to_token_input_abort(env, token_reserve, tokens_sold, min_tokens_bought,
                        min_dot_bought, deadline) == Some(e)
                },
                Result::Ok(receipt) => {
                    &&& token_to_token_input_abort(env, token_reserve, tokens_sold, min_tokens_bought,
                        min_dot_bought, deadline) is None
                    &&& token_to_token_input_ok(*old(self), *final(self), env, token_reserve, tokens_sold,
                        min_tokens_bought, deadline, buyer, recipient, exchange_addr, receipt)
                },
            },
    {
        if deadline < env.block_timestamp {
            return Err(Error::DeadlineExpired);
        }
        if tokens_sold == 0 || min_dot_bought == 0 || min_tokens_bought == 0 {
            return Err(Error::InvalidAmount);
        }
        let dot_bought = match pricing::input_price(tokens_sold, token_reserve, env.self_balance) {
            Ok(v) => v,
            Err(e) => { return Err(e); },
        };
        if dot_bought < min_dot_bought {
            return Err(Error::SlippageExceeded);
        }
        self.events.push(ExchangeEvent::DotPurchase(DotPurchase { buyer, tokens_sold, dot_bought }));
        Ok(TokenToTokenReceipt {
            tokens_sold,
            dot_bought,
            buyer,
            peer_call: PeerCall {
                exchange: exchange_addr,
                value: dot_bought,
                amount: min_tokens_bought,
                deadline,
                recipient,
                gas_limit: self.gas_limit,
            },
        })
    }

    /// Local leg of an exact-input token→token trade routed through the
    /// exchange at `exchange_addr`: sells `tokens_sold` for native
    /// currency here, to be forwarded to the peer's exact-input entry
    /// point with the caller as the final recipient. The peer's return
    /// value is the trade's result.
    pub fn token_to_token_swap_input(
        &mut self,
        env: Env,
        token_reserve: Balance,
        tokens_sold: Balance,
        min_tokens_bought: Balance,
        min_dot_bought: Balance,
        deadline: Timestamp,
        exchange_addr: AccountId,
    ) -> (r: Result<TokenToTokenReceipt, Error>)
        ensures
            same_config(*old(self), *final(self)),
            lp_state_unchanged(*old(self), *final(self)),
            match r {
                Result::Err(e) => {
                    &&& *final(self) == *old(self)
                    &&& token_to_token_input_abort(env, token_reserve, tokens_sold, min_tokens_bought,
                        min_dot_bought, deadline) == Some(e)
                },
                Result::Ok(receipt) => {
                    &&& token_to_token_input_abort(env, token_reserve, tokens_sold, min_tokens_bought,
                        min_dot_bought, deadline) is None
                    &&& token_to_token_input_ok(*old(self), *final(self), env, token_reserve, tokens_sold,
                        min_tokens_bought, deadline, env.caller, env.caller, exchange_addr, receipt)
                },
            },
    {
        let caller = env.caller;
        self.token_to_token_input(env, token_reserve, tokens_sold, min_tokens_bought, min_dot_bought,
            deadline, caller, caller, exchange_addr)
    }

    /// As `token_to_token_swap_input`, with the bought tokens going to an
    /// explicit `recipient`.
    pub fn token_to_token_transfer_input(
        &mut self,
        env: Env,
        token_reserve: Balance,
        tokens_sold: Balance,
        min_tokens_bought: Balance,
        min_dot_bought: Balance,
        deadline: Timestamp,
        recipient: AccountId,
        exchange_addr: AccountId,
    ) -> (r: Result<TokenToTokenReceipt, Error>)
        ensures
            same_config(*old(self), *final(self)),
            lp_state_unchanged(*old(self), *final(self)),
            match r {
                Result::Err(e) => {
                    &&& *final(self) == *old(self)
                    &&& token_to_token_input_abort(env, token_reserve, tokens_sold, min_tokens_bought,
                        min_dot_bought, deadline) == Some(e)
                },
                Result::Ok(receipt) => {
                    &&& token_to_token_input_abort(env, token_reserve, tokens_sold, min_tokens_bought,
                        min_dot_bought, deadline) is None
                    &&& token_to_token_input_ok(*old(self), *final(self), env, token_reserve, tokens_sold,
                        min_tokens_bought, deadline, env.caller, recipient, exchange_addr, receipt)
                },
            },
    {
        let caller = env.caller;
        self.token_to_token_input(env, token_reserve, tokens_sold, min_tokens_bought, min_dot_bought,
            deadline, caller, recipient, exchange_addr)
    }

    /// First step of an exact-output multi-hop trade: ask the peer what
    /// the exact output will cost in native currency. The peer may be
    /// neither this instance nor the null account.
    pub fn token_to_token_output_quote(&self, tokens_bought: Balance, exchange_addr: AccountId) -> (r: Result<PeerQuote, Error>)
        ensures
            match r {
                Result::Err(e) => {
                    &&& e == Error::InvalidRecipient
                    &&& (exchange_addr == self.exchange_account_id || exchange_addr == NULL_ACCOUNT)
                },
                Result::Ok(q) => {
                    &&& exchange_addr != self.exchange_account_id
                    &&& exchange_addr != NULL_ACCOUNT
                    &&& q == (PeerQuote { exchange: exchange_addr, tokens_bought, gas_limit: self.gas_limit })
                },
            },
    {
        if exchange_addr == self.exchange_account_id || exchange_addr == NULL_ACCOUNT {
            return Err(Error::InvalidRecipient);
        }
        Ok(PeerQuote { exchange: exchange_addr, tokens_bought, gas_limit: self.gas_limit })
    }

    fn token_to_token_output(
        &mut self,
        env: Env,
        token_reserve: Balance,
        dot_bought: Balance,
        tokens_bought: Balance,
        max_tokens_sold: Balance,
        max_dot_sold: Balance,
        deadline: Timestamp,
        buyer: AccountId,
        recipient: AccountId,
        exchange_addr: AccountId,
    ) -> (r: Result<TokenToTokenReceipt, Error>)
        ensures
            same_config(*old(self), *final(self)),
            lp_state_unchanged(*old(self), *final(self)),
            match r {
                Result::Err(e) => {
                    &&& *final(self) == *old(self)
                    &&& old(self).token_to_token_output_abort(env, token_reserve, dot_bought,
                        max_tokens_sold, max_dot_sold, exchange_addr) == Some(e)
                },
                Result::Ok(receipt) => {
                    &&& old(self).token_to_token_output_abort(env, token_reserve, dot_bought,
                        max_tokens_sold, max_dot_sold, exchange_addr) is None
                    &&& token_to_token_output_ok(*old(self), *final(self), env, token_reserve, dot_bought,
                        tokens_bought, deadline, buyer, recipient, exchange_addr, receipt)
                },
            },
    {
        if exchange_addr == self.exchange_account_id || exchange_addr == NULL_ACCOUNT {
            return Err(Error::InvalidRecipient);
        }
        let tokens_sold = match pricing::output_price(dot_bought, token_reserve, env.self_balance) {
            Ok(v) => v,
            Err(e) => { return Err(e); },
        };
        if tokens_sold > max_tokens_sold || dot_bought > max_dot_sold {
            return Err(Error::SlippageExceeded);
        }
        self.events.push(ExchangeEvent::DotPurchase(DotPurchase { buyer, tokens_sold, dot_bought }));
        Ok(TokenToTokenReceipt {
            tokens_sold,
            dot_bought,
            buyer,
            peer_call: PeerCall {
                exchange: exchange_addr,
                value: dot_bought,
                amount: tokens_bought,
                deadline,
                recipient,
                gas_limit: self.gas_limit,
            },
        })
    }

    /// Local leg of an exact-output token→token trade, to run after
    /// `token_to_token_output_quote` returned the peer's price
    /// `dot_bought`: sells the caller's tokens for exactly that much
    /// native currency, to be forwarded to the peer's exact-output entry
    /// point with the caller as the final recipient. The deadline is
    /// enforced by the peer leg.
    pub fn token_to_token_swap_output(
        &mut self,
        env: Env,
        token_reserve: Balance,
        dot_bought: Balance,
        tokens_bought: Balance,
        max_tokens_sold: Balance,
        max_dot_sold: Balance,
        deadline: Timestamp,
        exchange_addr: AccountId,
    ) -> (r: Result<TokenToTokenReceipt, Error>)
        ensures
            same_config(*old(self), *final(self)),
            lp_state_unchanged(*old(self), *final(self)),
            match r {
                Result::Err(e) => {
                    &&& *final(self) == *old(self)
                    &&& old(self).token_to_token_output_abort(env, token_reserve, dot_bought,
                        max_tokens_sold, max_dot_sold, exchange_addr) == Some(e)
                },
                Result::Ok(receipt) => {
                    &&& old(self).token_to_token_output_abort(env, token_reserve, dot_bought,
                        max_tokens_sold, max_dot_sold, exchange_addr) is None
                    &&& token_to_token_output_ok(*old(self), *final(self), env, token_reserve, dot_bought,
                        tokens_bought, deadline, env.caller, env.caller, exchange_addr, receipt)
                },
            },
    {
        let caller = env.caller;
        self.token_to_token_output(env, token_reserve, dot_bought, tokens_bought, max_tokens_sold,
            max_dot_sold, deadline, caller, caller, exchange_addr)
    }

    /// As `token_to_token_swap_output`, with the bought tokens going to an
    /// explicit `recipient`.
    pub fn token_to_token_transfer_output(
        &mut self,
        env: Env,
        token_reserve: Balance,
        dot_bought: Balance,
        tokens_bought: Balance,
        max_tokens_sold: Balance,
        max_dot_sold: Balance,
        deadline: Timestamp,
        recipient: AccountId,
        exchange_addr: AccountId,
    ) -> (r: Result<TokenToTokenReceipt, Error>)
        ensures
            same_config(*old(self), *final(self)),
            lp_state_unchanged(*old(self), *final(self)),
            match r {
                Result::Err(e) => {
                    &&& *final(self) == *old(self)
                    &&& old(self).token_to_token_output_abort(env, token_reserve, dot_bought,
                        max_tokens_sold, max_dot_sold, exchange_addr) == Some(e)
                },
                Result::Ok(receipt) => {
                    &&& old(self).token_to_token_output_abort(env, token_reserve, dot_bought,
                        max_tokens_sold, max_dot_sold, exchange_addr) is None
                    &&& token_to_token_output_ok(*old(self), *final(self), env, token_reserve, dot_bought,
                        tokens_bought, deadline, env.caller, recipient, exchange_addr, receipt)
                },
            },
    {
        let caller = env.caller;
        self.token_to_token_output(env, token_reserve, dot_bought, tokens_bought, max_tokens_sold,
            max_dot_sold, deadline, caller, recipient, exchange_addr)
    }

    /// As `token_to_token_swap_input`, for a peer exchange named directly
    /// rather than resolved through the registry.
    pub fn token_to_exchange_swap_input(
        &mut self,
        env: Env,
        token_reserve: Balance,
        tokens_sold: Balance,
        min_tokens_bought: Balance,
        min_dot_bought: Balance,
        deadline: Timestamp,
        exchange_addr: AccountId,
    ) -> (r: Result<TokenToTokenReceipt, Error>)
        ensures
            same_config(*old(self), *final(self)),
            lp_state_unchanged(*old(self), *final(self)),
            match r {
                Result::Err(e) => {
                    &&& *final(self) == *old(self)
                    &&& token_to_token_input_abort(env, token_reserve, tokens_sold, min_tokens_bought,
                        min_dot_bought, deadline) == Some(e)
                },
                Result::Ok(receipt) => {
                    &&& token_to_token_input_abort(env, token_reserve, tokens_sold, min_tokens_bought,
                        min_dot_bought, deadline) is None
                    &&& token_to_token_input_ok(*old(self), *final(self), env, token_reserve, tokens_sold,
                        min_tokens_bought, deadline, env.caller, env.caller, exchange_addr, receipt)
                },
            },
    {
        let caller = env.caller;
        self.token_to_token_input(env, token_reserve, tokens_sold, min_tokens_bought, min_dot_bought,
            deadline, caller, caller, exchange_addr)
    }

    /// As `token_to_token_transfer_input`, for a peer exchange named
    /// directly rather than resolved through the registry.
    pub fn token_to_exchange_transfer_input(
        &mut self,
        env: Env,
        token_reserve: Balance,
        tokens_sold: Balance,
        min_tokens_bought: Balance,
        min_dot_bought: Balance,
        deadline: Timestamp,
        recipient: AccountId,
        exchange_addr: AccountId,
    ) -> (r: Result<TokenToTokenReceipt, Error>)
        ensures
            same_config(*old(self), *final(self)),
            lp_state_unchanged(*old(self), *final(self)),
            match r {
                Result::Err(e) => {
                    &&& *final(self) == *old(self)
                    &&& token_to_token_input_abort(env, token_reserve, tokens_sold, min_tokens_bought,
                        min_dot_bought, deadline) == Some(e)
                },
                Result::Ok(receipt) => {
                    &&& token_to_token_input_abort(env, token_reserve, tokens_sold, min_tokens_bought,
                        min_dot_bought, deadline) is None
                    &&& token_to_token_input_ok(*old(self), *final(self), env, token_reserve, tokens_sold,
                        min_tokens_bought, deadline, env.caller, recipient, exchange_addr, receipt)
                },
            },
    {
        let caller = env.caller;
        self.token_to_token_input(env, token_reserve, tokens_sold, min_tokens_bought, min_dot_bought,
            deadline, caller, recipient, exchange_addr)
    }

    /// As `token_to_token_swap_output`, for a peer exchange named directly
    /// rather than resolved through the registry.
    pub fn token_to_exchange_swap_output(
        &mut self,
        env: Env,
        token_reserve: Balance,
        dot_bought: Balance,
        tokens_bought: Balance,
        max_tokens_sold: Balance,
        max_dot_sold: Balance,
        deadline: Timestamp,
        exchange_addr: AccountId,
    ) -> (r: Result<TokenToTokenReceipt, Error>)
        ensures
            same_config(*old(self), *final(self)),
            lp_state_unchanged(*old(self), *final(self)),
            match r {
                Result::Err(e) => {
                    &&& *final(self) == *old(self)
                    &&& old(self).token_to_token_output_abort(env, token_reserve, dot_bought,
                        max_tokens_sold, max_dot_sold, exchange_addr) == Some(e)
                },
                Result::Ok(receipt) => {
                    &&& old(self).token_to_token_output_abort(env, token_reserve, dot_bought,
                        max_tokens_sold, max_dot_sold, exchange_addr) is None
                    &&& token_to_token_output_ok(*old(self), *final(self), env, token_reserve, dot_bought,
                        tokens_bought, deadline, env.caller, env.caller, exchange_addr, receipt)
                },
            },
    {
        let caller = env.caller;
        self.token_to_token_output(env, token_reserve, dot_bought, tokens_bought, max_tokens_sold,
            max_dot_sold, deadline, caller, caller, exchange_addr)
    }

    /// As `token_to_token_transfer_output`, for a peer exchange named
    /// directly rather than resolved through the registry.
    pub fn token_to_exchange_transfer_output(
        &mut self,
        env: Env,
        token_reserve: Balance,
        dot_bought: Balance,
        tokens_bought: Balance,
        max_tokens_sold: Balance,
        max_dot_sold: Balance,
        deadline: Timestamp,
        recipient: AccountId,
        exchange_addr: AccountId,
    ) -> (r: Result<TokenToTokenReceipt, Error>)
        ensures
            same_config(*old(self), *final(self)),
            lp_state_unchanged(*old(self), *final(self)),
            match r {
                Result::Err(e) => {
                    &&& *final(self) == *old(self)
                    &&& old(self).token_to_token_output_abort(env, token_reserve, dot_bought,
                        max_tokens_sold, max_dot_sold, exchange_addr) == Some(e)
                },
                Result::Ok(receipt) => {
                    &&& old(self).token_to_token_output_abort(env, token_reserve, dot_bought,
                        max_tokens_sold, max_dot_sold, exchange_addr) is None
                    &&& token_to_token_output_ok(*old(self), *final(self), env, token_reserve, dot_bought,
                        tokens_bought, deadline, env.caller, recipient, exchange_addr, receipt)
                },
            },
    {
        let caller = env.caller;
        self.token_to_token_output(env, token_reserve, dot_bought, tokens_bought, max_tokens_sold,
            max_dot_sold, deadline, caller, recipient, exchange_addr)
    }

    /// How many tokens the native payment `dot_sold` would buy right now.
    pub fn dot_to_token_input_price(&self, env: Env, token_reserve: Balance, dot_sold: Balance) -> (r: Result<Balance, Error>)
        ensures
            match r {
                Result::Err(e) => {
                    if dot_sold == 0 {
                        e == Error::InvalidAmount
                    } else {
                        input_price_abort(dot_sold as int, env.self_balance as int, token_reserve as int) == Some(e)
                    }
                },
                Result::Ok(v) => {
                    &&& dot_sold > 0
                    &&& input_price_abort(dot_sold as int, env.self_balance as int, token_reserve as int) is None
                    &&& v == input_price_value(dot_sold as int, env.self_balance as int, token_reserve as int)
                },
            },
    {
        if dot_sold == 0 {
            return Err(Error::InvalidAmount);
        }
        pricing::input_price(dot_sold, env.self_balance, token_reserve)
    }

    /// How much native currency buying exactly `tokens_bought` tokens
    /// would cost right now.
    pub fn dot_to_token_output_price(&self, env: Env, token_reserve: Balance, tokens_bought: Balance) -> (r: Result<Balance, Error>)
        ensures
            match r {
                Result::Err(e) => {
                    if tokens_bought == 0 {
                        e == Error::InvalidAmount
                    } else {
                        output_price_abort(tokens_bought as int, env.self_balance as int, token_reserve as int) == Some(e)
                    }
                },
                Result::Ok(v) => {
                    &&& tokens_bought > 0
                    &&& output_price_abort(tokens_bought as int, env.self_balance as int, token_reserve as int) is None
                    &&& v == output_price_value(tokens_bought as int, env.self_balance as int, token_reserve as int)
                },
            },
    {
        if tokens_bought == 0 {
            return Err(Error::InvalidAmount);
        }
        pricing::output_price(tokens_bought, env.self_balance, token_reserve)
    }

    /// How much native currency selling `tokens_sold` tokens would buy
    /// right now.
    pub fn token_to_dot_input_price(&self, env: Env, token_reserve: Balance, tokens_sold: Balance) -> (r: Result<Balance, Error>)
        ensures
            match r {
                Result::Err(e) => {
                    if tokens_sold == 0 {
                        e == Error::InvalidAmount
                    } else {
                        input_price_abort(tokens_sold as int, token_reserve as int, env.self_balance as int) == Some(e)
                    }
                },
                Result::Ok(v) => {
                    &&& tokens_sold > 0
                    &&& input_price_abort(tokens_sold as int, token_reserve as int, env.self_balance as int) is None
                    &&& v == input_price_value(tokens_sold as int, token_reserve as int, env.self_balance as int)
                },
            },
    {
        if tokens_sold == 0 {
            return Err(Error::InvalidAmount);
        }
        pricing::input_price(tokens_sold, token_reserve, env.self_balance)
    }

    /// How many tokens buying exactly `dot_bought` native currency would
    /// cost right now.
    pub fn token_to_dot_output_price(&self, env: Env, token_reserve: Balance, dot_bought: Balance) -> (r: Result<Balance, Error>)
        ensures
            match r {
                Result::Err(e) => {
                    if dot_bought == 0 {
                        e == Error::InvalidAmount
                    } else {
                        output_price_abort(dot_bought as int, token_reserve as int, env.self_balance as int) == Some(e)
                    }
                },
                Result::Ok(v) => {
                    &&& dot_bought > 0
                    &&& output_price_abort(dot_bought as int, token_reserve as int, env.self_balance as int) is None
                    &&& v == output_price_value(dot_bought as int, token_reserve as int, env.self_balance as int)
                },
            },
    {
        if dot_bought == 0 {
            return Err(Error::InvalidAmount);
        }
        pricing::output_price(dot_bought, token_reserve, env.self_balance)
    }

    fn transfer_from_to(&mut self, from: AccountId, to: AccountId, value: Balance) -> (r: bool)
        requires
            old(self).wf(),
        ensures
            final(self).wf(),
            same_config(*old(self), *final(self)),
            r == (old(self).spec_balance_of(from) >= value),
            !r ==> *final(self) == *old(self),
            r ==> final(self).balances@
                == spec_transfer_balances(old(self).balances@, from, to, value),
            r ==> final(self).events@ == old(self).events@.push(
                ExchangeEvent::Transfer((Transfer { from, to, value })),
            ),
            final(self).total_supply == old(self).total_supply,
            final(self).allowances == old(self).allowances,
    {
        let from_balance = self.balances.lookup(from);
        if from_balance < value {
            return false;
        }
        self.balances.set(from, from_balance - value);
        let to_balance = self.balances.lookup(to);
        proof {
            self.balances.lemma_le_sum(to);
        }
        self.balances.set(to, to_balance + value);
        self.events.push(ExchangeEvent::Transfer(Transfer { from, to, value }));
        true
    }
}

} // verus!
