use dex::erc20::Erc20;
use dex::exchange::{Exchange, CALL_GAS_LIMIT};
use dex::types::{Env, Error};

const ALICE: u128 = 1;
const BOB: u128 = 2;
const TOKEN_A: u128 = 101;
const TOKEN_B: u128 = 102;
const REGISTRY: u128 = 200;
const POOL_A: u128 = 901;
const POOL_B: u128 = 902;

#[test]
fn quote_functions_match_pricing() {
    let pool = Exchange::new(TOKEN_A, REGISTRY, ALICE, 500, POOL_A);
    let env = Env {
        caller: BOB,
        transferred_value: 0,
        block_timestamp: 0,
        self_balance: 200000,
        self_account: POOL_A,
    };
    assert_eq!(pool.dot_to_token_input_price(env, 200000, 40), Ok(39));
    assert_eq!(pool.dot_to_token_output_price(env, 200000, 40), Ok(41));
    assert_eq!(pool.token_to_dot_input_price(env, 200000, 40), Ok(39));
    assert_eq!(pool.token_to_dot_output_price(env, 200000, 40), Ok(41));
    assert_eq!(pool.dot_to_token_input_price(env, 200000, 0), Err(Error::InvalidAmount));
    assert_eq!(pool.dot_to_token_output_price(env, 200000, 0), Err(Error::InvalidAmount));
    assert_eq!(pool.token_to_dot_input_price(env, 0, 40), Err(Error::InvalidReserve));
    assert_eq!(pool.token_to_dot_output_price(env, 200000, 0), Err(Error::InvalidAmount));
}

#[test]
fn multi_hop_exact_input_composes_two_pools() {
    // Two pools, each 200000 native / 200000 of its token; Bob holds
    // 1000 of token A and wants token B.
    let mut ledger_a = Erc20::new(ALICE, 1_000_000);
    let mut ledger_b = Erc20::new(ALICE, 1_000_000);
    assert!(ledger_a.transfer(ALICE, POOL_A, 200000));
    assert!(ledger_b.transfer(ALICE, POOL_B, 200000));
    assert!(ledger_a.transfer(ALICE, BOB, 1000));
    // Bob lets pool A pull the tokens his trade will sell.
    assert!(ledger_a.approve(BOB, POOL_A, 1000));
    let mut pool_a = Exchange::new(TOKEN_A, REGISTRY, ALICE, 200000, POOL_A);
    let mut pool_b = Exchange::new(TOKEN_B, REGISTRY, ALICE, 200000, POOL_B);
    let mut native_a = 200000u128;
    let mut native_b = 200000u128;

    // Local leg on pool A.
    let env_a = Env {
        caller: BOB,
        transferred_value: 0,
        block_timestamp: 5,
        self_balance: native_a,
        self_account: POOL_A,
    };
    let reserve_a = ledger_a.balance_of(POOL_A);
    let receipt = pool_a
        .token_to_token_swap_input(env_a, reserve_a, 40, 1, 1, 10, POOL_B)
        .unwrap();
    assert_eq!(receipt.tokens_sold, 40);
    assert_eq!(receipt.dot_bought, 39);
    assert_eq!(receipt.buyer, BOB);
    assert_eq!(receipt.peer_call.exchange, POOL_B);
    assert_eq!(receipt.peer_call.value, 39);
    assert_eq!(receipt.peer_call.amount, 1);
    assert_eq!(receipt.peer_call.recipient, BOB);
    assert_eq!(receipt.peer_call.gas_limit, CALL_GAS_LIMIT);

    // The host performs the receipt: pull the sold tokens on the pool's
    // behalf, then make the nested call, forwarding the bought native
    // currency.
    assert!(ledger_a.transfer_from(POOL_A, receipt.buyer, POOL_A, receipt.tokens_sold));
    native_a -= receipt.peer_call.value;
    native_b += receipt.peer_call.value;
    let env_b = Env {
        caller: POOL_A,
        transferred_value: receipt.peer_call.value,
        block_timestamp: 5,
        self_balance: native_b,
        self_account: POOL_B,
    };
    let reserve_b = ledger_b.balance_of(POOL_B);
    let peer_receipt = pool_b
        .dot_to_token_transfer_input(
            env_b,
            reserve_b,
            receipt.peer_call.amount,
            receipt.peer_call.deadline,
            receipt.peer_call.recipient,
        )
        .unwrap();
    // input_price(39, 200000, 200000) = 38.
    assert_eq!(peer_receipt.tokens_bought, 38);
    assert!(ledger_b.transfer(POOL_B, peer_receipt.recipient, peer_receipt.tokens_bought));

    assert_eq!(ledger_a.balance_of(BOB), 960);
    assert_eq!(ledger_a.balance_of(POOL_A), 200040);
    assert_eq!(ledger_b.balance_of(BOB), 38);
    assert_eq!(ledger_b.balance_of(POOL_B), 199962);
    assert_eq!(native_a, 199961);
    assert_eq!(native_b, 200039);
}

#[test]
fn multi_hop_exact_output_composes_two_pools() {
    let mut ledger_a = Erc20::new(ALICE, 1_000_000);
    let mut ledger_b = Erc20::new(ALICE, 1_000_000);
    assert!(ledger_a.transfer(ALICE, POOL_A, 200000));
    assert!(ledger_b.transfer(ALICE, POOL_B, 200000));
    assert!(ledger_a.transfer(ALICE, BOB, 1000));
    assert!(ledger_a.approve(BOB, POOL_A, 1000));
    let mut pool_a = Exchange::new(TOKEN_A, REGISTRY, ALICE, 200000, POOL_A);
    let mut pool_b = Exchange::new(TOKEN_B, REGISTRY, ALICE, 200000, POOL_B);
    let mut native_a = 200000u128;
    let mut native_b = 200000u128;

    // Step one: the quote request, answered by the peer's price oracle.
    let quote = pool_a.token_to_token_output_quote(40, POOL_B).unwrap();
    assert_eq!(quote.exchange, POOL_B);
    let peer_env = Env {
        caller: POOL_A,
        transferred_value: 0,
        block_timestamp: 5,
        self_balance: native_b,
        self_account: POOL_B,
    };
    let dot_needed = pool_b
        .dot_to_token_output_price(peer_env, ledger_b.balance_of(POOL_B), quote.tokens_bought)
        .unwrap();
    assert_eq!(dot_needed, 41);

    // Step two: the local leg sells tokens for exactly that much native.
    let env_a = Env {
        caller: BOB,
        transferred_value: 0,
        block_timestamp: 5,
        self_balance: native_a,
        self_account: POOL_A,
    };
    let reserve_a = ledger_a.balance_of(POOL_A);
    let receipt = pool_a
        .token_to_token_swap_output(env_a, reserve_a, dot_needed, 40, 100, 100, 10, POOL_B)
        .unwrap();
    // output_price(41, 200000, 200000) = 42.
    assert_eq!(receipt.tokens_sold, 42);
    assert_eq!(receipt.dot_bought, 41);
    assert_eq!(receipt.peer_call.value, 41);
    assert_eq!(receipt.peer_call.amount, 40);

    // The host performs the receipt.
    assert!(ledger_a.transfer_from(POOL_A, receipt.buyer, POOL_A, receipt.tokens_sold));
    native_a -= receipt.peer_call.value;
    native_b += receipt.peer_call.value;
    let env_b = Env {
        caller: POOL_A,
        transferred_value: receipt.peer_call.value,
        block_timestamp: 5,
        self_balance: native_b,
        self_account: POOL_B,
    };
    let peer_receipt = pool_b
        .dot_to_token_transfer_output(
            env_b,
            ledger_b.balance_of(POOL_B),
            receipt.peer_call.amount,
            receipt.peer_call.deadline,
            receipt.peer_call.recipient,
        )
        .unwrap();
    assert_eq!(peer_receipt.dot_sold, 41);
    assert_eq!(peer_receipt.dot_refund, 0);
    assert!(ledger_b.transfer(POOL_B, peer_receipt.recipient, peer_receipt.tokens_bought));

    assert_eq!(ledger_b.balance_of(BOB), 40);
    assert_eq!(ledger_a.balance_of(BOB), 958);
}

#[test]
fn multi_hop_quote_rejects_bad_peer() {
    let pool = Exchange::new(TOKEN_A, REGISTRY, ALICE, 500, POOL_A);
    assert_eq!(pool.token_to_token_output_quote(40, POOL_A), Err(Error::InvalidRecipient));
    assert_eq!(pool.token_to_token_output_quote(40, 0), Err(Error::InvalidRecipient));
    assert!(pool.token_to_token_output_quote(40, POOL_B).is_ok());
}

#[test]
fn exact_output_leg_screens_the_peer_itself() {
    // Even with the quote step skipped, the local leg refuses a peer that
    // is this pool or the null account.
    let mut pool = Exchange::new(TOKEN_A, REGISTRY, ALICE, 500, POOL_A);
    let env = Env {
        caller: BOB,
        transferred_value: 0,
        block_timestamp: 5,
        self_balance: 200000,
        self_account: POOL_A,
    };
    assert_eq!(
        pool.token_to_token_swap_output(env, 200000, 41, 40, 100, 100, 10, POOL_A),
        Err(Error::InvalidRecipient),
    );
    assert_eq!(
        pool.token_to_exchange_transfer_output(env, 200000, 41, 40, 100, 100, 10, ALICE, 0),
        Err(Error::InvalidRecipient),
    );
    assert_eq!(pool.events.len(), 0);
}

#[test]
fn failed_pull_rolls_back_the_whole_transaction() {
    // The engine hands the host a receipt; when the demanded token pull
    // fails, the host discards every state change of the call, as the
    // chain's transaction boundary would.
    let mut ledger_a = Erc20::new(ALICE, 1_000_000);
    assert!(ledger_a.transfer(ALICE, POOL_A, 200000));
    // Bob approves the pool but owns no token A at all, so the pull his
    // swap demands must fail on his balance.
    assert!(ledger_a.approve(BOB, POOL_A, 1000));
    let mut pool_a = Exchange::new(TOKEN_A, REGISTRY, ALICE, 200000, POOL_A);

    let checkpoint_pool = pool_a.clone();
    let checkpoint_ledger = ledger_a.clone();

    let env = Env {
        caller: BOB,
        transferred_value: 0,
        block_timestamp: 5,
        self_balance: 200000,
        self_account: POOL_A,
    };
    let receipt = pool_a
        .token_to_dot_swap_input(env, ledger_a.balance_of(POOL_A), 40, 1, 10)
        .unwrap();
    let pulled = ledger_a.transfer_from(POOL_A, receipt.buyer, POOL_A, receipt.tokens_sold);
    assert!(!pulled);
    // Abort: restore the checkpoint.
    pool_a = checkpoint_pool;
    ledger_a = checkpoint_ledger;

    assert_eq!(pool_a.events.len(), 0);
    assert_eq!(ledger_a.balance_of(POOL_A), 200000);
    assert_eq!(ledger_a.balance_of(BOB), 0);
}

#[test]
fn token_to_exchange_variants_behave_like_token_to_token() {
    let mut pool = Exchange::new(TOKEN_A, REGISTRY, ALICE, 500, POOL_A);
    let env = Env {
        caller: BOB,
        transferred_value: 0,
        block_timestamp: 5,
        self_balance: 200000,
        self_account: POOL_A,
    };
    let a = pool.token_to_token_swap_input(env, 200000, 40, 1, 1, 10, POOL_B).unwrap();
    let b = pool.token_to_exchange_swap_input(env, 200000, 40, 1, 1, 10, POOL_B).unwrap();
    assert_eq!(a, b);
    assert_eq!(
        pool.token_to_token_swap_input(env, 200000, 40, 1, 0, 10, POOL_B),
        Err(Error::InvalidAmount),
    );
    let c = pool
        .token_to_exchange_transfer_input(env, 200000, 40, 1, 1, 10, ALICE, POOL_B)
        .unwrap();
    assert_eq!(c.peer_call.recipient, ALICE);
}
