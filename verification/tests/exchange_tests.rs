use dex::exchange::{Exchange, ExchangeEvent, Transfer, TokenPurchase, DotPurchase, AddLiquidity};
use dex::types::{Env, Error};

const ALICE: u128 = 1;
const BOB: u128 = 2;
const TOKEN: u128 = 100;
const FACTORY: u128 = 200;
const POOL: u128 = 900;

fn call(caller: u128, value: u128, now: u64, pool_balance: u128) -> Env {
    Env {
        caller,
        transferred_value: value,
        block_timestamp: now,
        self_balance: pool_balance,
        self_account: POOL,
    }
}

#[test]
fn test_transfer_liquidity_should_work() {
    let liquidity_amount = 50000u128;
    let mut contract = Exchange::new(TOKEN, FACTORY, ALICE, liquidity_amount, POOL);

    assert_eq!(contract.balance_of(ALICE), liquidity_amount);
    assert!(contract.transfer(ALICE, BOB, 200));
    assert_eq!(contract.balance_of(ALICE), liquidity_amount - 200);
    assert_eq!(contract.balance_of(BOB), 200);
}

#[test]
fn test_transfer_from_liquidity_should_work() {
    let liquidity_amount = 50000u128;
    let mut contract = Exchange::new(TOKEN, FACTORY, ALICE, liquidity_amount, POOL);

    contract.approve(ALICE, ALICE, 500);
    assert!(contract.transfer_from(ALICE, ALICE, BOB, 200));
    assert_eq!(contract.balance_of(BOB), 200);
}

#[test]
fn transfer_beyond_balance_changes_nothing() {
    let mut contract = Exchange::new(TOKEN, FACTORY, ALICE, 300, POOL);
    assert!(!contract.transfer(ALICE, BOB, 301));
    assert_eq!(contract.balance_of(ALICE), 300);
    assert_eq!(contract.balance_of(BOB), 0);
    assert_eq!(contract.total_supply(), 300);
    assert_eq!(contract.events.len(), 0);
}

#[test]
fn transfer_of_exact_balance_zeroes_it() {
    let mut contract = Exchange::new(TOKEN, FACTORY, ALICE, 300, POOL);
    assert!(contract.transfer(ALICE, BOB, 300));
    assert_eq!(contract.balance_of(ALICE), 0);
    assert_eq!(contract.balance_of(BOB), 300);
    assert_eq!(
        contract.events[0],
        ExchangeEvent::Transfer(Transfer { from: ALICE, to: BOB, value: 300 }),
    );
}

#[test]
fn transfer_from_decrements_allowance_even_when_balance_fails() {
    let mut contract = Exchange::new(TOKEN, FACTORY, ALICE, 100, POOL);
    contract.approve(ALICE, BOB, 500);
    // Allowance covers 400, but the balance does not: the move fails with
    // `false`, yet the allowance is already spent.
    assert!(!contract.transfer_from(BOB, ALICE, BOB, 400));
    assert_eq!(contract.allowance(ALICE, BOB), 100);
    assert_eq!(contract.balance_of(ALICE), 100);
    // Insufficient allowance fails before anything is touched.
    assert!(!contract.transfer_from(BOB, ALICE, BOB, 200));
    assert_eq!(contract.allowance(ALICE, BOB), 100);
}

#[test]
fn bootstrap_add_liquidity_sets_initial_terms() {
    let mut pool = Exchange::new(TOKEN, FACTORY, ALICE, 0, POOL);
    assert_eq!(pool.total_supply(), 0);
    // Alice opens the pool with 500 native and declares 777 tokens.
    let env = call(ALICE, 500, 10, 500);
    let receipt = pool.add_liquidity(env, 0, 0, 777, 10).unwrap();
    assert_eq!(receipt.minted, 500);
    assert_eq!(receipt.token_amount, 777);
    assert_eq!(receipt.provider, ALICE);
    assert_eq!(pool.total_supply(), 500);
    assert_eq!(pool.balance_of(ALICE), 500);
    assert_eq!(pool.events.len(), 2);
    assert_eq!(
        pool.events[0],
        ExchangeEvent::AddLiquidity(AddLiquidity { provider: ALICE, dot_amount: 500, token_amount: 777 }),
    );
    assert_eq!(
        pool.events[1],
        ExchangeEvent::Transfer(Transfer { from: 0, to: ALICE, value: 500 }),
    );
}

#[test]
fn proportional_add_liquidity_follows_reserve_ratio() {
    // Pool holds 500 native / 1000 tokens, all shares with Alice.
    let mut pool = Exchange::new(TOKEN, FACTORY, ALICE, 500, POOL);
    // Bob joins with 100 native: owes 100·1000/500 + 1 = 201 tokens and
    // mints 100·500/500 = 100 shares.
    let env = call(BOB, 100, 10, 600);
    let receipt = pool.add_liquidity(env, 1000, 1, 300, 10).unwrap();
    assert_eq!(receipt.minted, 100);
    assert_eq!(receipt.token_amount, 201);
    assert_eq!(pool.total_supply(), 600);
    assert_eq!(pool.balance_of(BOB), 100);
    assert_eq!(pool.balance_of(ALICE), 500);
}

#[test]
fn add_liquidity_rejects_bad_inputs() {
    let mut pool = Exchange::new(TOKEN, FACTORY, ALICE, 500, POOL);
    // Expired deadline.
    assert_eq!(pool.add_liquidity(call(BOB, 100, 20, 600), 1000, 1, 300, 19), Err(Error::DeadlineExpired));
    // No native value transferred.
    assert_eq!(pool.add_liquidity(call(BOB, 0, 20, 500), 1000, 1, 300, 20), Err(Error::InvalidAmount));
    // Zero minimum liquidity on a live pool.
    assert_eq!(pool.add_liquidity(call(BOB, 100, 20, 600), 1000, 0, 300, 20), Err(Error::InvalidAmount));
    // The declared token maximum does not cover the owed 201.
    assert_eq!(pool.add_liquidity(call(BOB, 100, 20, 600), 1000, 1, 200, 20), Err(Error::SlippageExceeded));
    // Nothing changed along the way.
    assert_eq!(pool.total_supply(), 500);
    assert_eq!(pool.balance_of(BOB), 0);
    assert_eq!(pool.events.len(), 0);
}

#[test]
fn remove_liquidity_pays_both_sides() {
    let mut pool = Exchange::new(TOKEN, FACTORY, ALICE, 500, POOL);
    // Burn 100 of 500 shares against reserves 500 native / 1000 tokens.
    let env = call(ALICE, 0, 10, 500);
    let receipt = pool.remove_liquidity(env, 1000, 100, 50, 100, 10).unwrap();
    assert_eq!(receipt.dot_amount, 100);
    assert_eq!(receipt.token_amount, 200);
    assert_eq!(receipt.provider, ALICE);
    assert_eq!(pool.total_supply(), 400);
    assert_eq!(pool.balance_of(ALICE), 400);
    assert_eq!(pool.events.len(), 2);
}

#[test]
fn remove_liquidity_enforces_strict_minimums() {
    let mut pool = Exchange::new(TOKEN, FACTORY, ALICE, 500, POOL);
    let env = call(ALICE, 0, 10, 500);
    // Withdrawal would pay exactly the minimums: rejected, strict bounds.
    assert_eq!(pool.remove_liquidity(env, 1000, 100, 100, 100, 10), Err(Error::SlippageExceeded));
    assert_eq!(pool.remove_liquidity(env, 1000, 100, 50, 200, 10), Err(Error::SlippageExceeded));
    assert_eq!(pool.total_supply(), 500);
}

#[test]
fn remove_liquidity_rejects_missing_shares() {
    let mut empty = Exchange::new(TOKEN, FACTORY, ALICE, 0, POOL);
    assert_eq!(
        empty.remove_liquidity(call(ALICE, 0, 10, 0), 1000, 100, 1, 1, 10),
        Err(Error::InsufficientLiquidity),
    );
    let mut pool = Exchange::new(TOKEN, FACTORY, ALICE, 500, POOL);
    // Bob holds no shares.
    assert_eq!(
        pool.remove_liquidity(call(BOB, 0, 10, 500), 1000, 100, 50, 100, 10),
        Err(Error::InsufficientLiquidity),
    );
}

#[test]
fn conservation_holds_across_liquidity_and_transfers() {
    let mut pool = Exchange::new(TOKEN, FACTORY, ALICE, 0, POOL);
    let mut native = 0u128;

    native += 500;
    pool.add_liquidity(call(ALICE, 500, 10, native), 0, 0, 1000, 10).unwrap();
    assert_eq!(pool.balance_of(ALICE) + pool.balance_of(BOB), pool.total_supply());

    native += 100;
    pool.add_liquidity(call(BOB, 100, 11, native), 1000, 1, 300, 11).unwrap();
    assert_eq!(pool.balance_of(ALICE) + pool.balance_of(BOB), pool.total_supply());

    pool.transfer(ALICE, BOB, 123);
    assert_eq!(pool.balance_of(ALICE) + pool.balance_of(BOB), pool.total_supply());

    let receipt = pool.remove_liquidity(call(BOB, 0, 12, native), 1201, 50, 1, 1, 12).unwrap();
    native -= receipt.dot_amount;
    assert_eq!(pool.balance_of(ALICE) + pool.balance_of(BOB), pool.total_supply());

    pool.remove_liquidity(call(ALICE, 0, 13, native), 1201 - receipt.token_amount, 300, 1, 1, 13).unwrap();
    assert_eq!(pool.balance_of(ALICE) + pool.balance_of(BOB), pool.total_supply());
}

#[test]
fn draining_the_pool_allows_a_fresh_bootstrap() {
    let mut pool = Exchange::new(TOKEN, FACTORY, ALICE, 500, POOL);
    // Alice burns every share: the pool returns to the uninitialized
    // state with no supply outstanding.
    let receipt = pool.remove_liquidity(call(ALICE, 0, 10, 500), 1000, 500, 1, 1, 10).unwrap();
    assert_eq!(receipt.dot_amount, 500);
    assert_eq!(receipt.token_amount, 1000);
    assert_eq!(pool.total_supply(), 0);
    assert_eq!(pool.balance_of(ALICE), 0);
    // The next deposit bootstraps afresh, with Bob setting the price.
    let receipt = pool.add_liquidity(call(BOB, 700, 11, 700), 0, 0, 90, 11).unwrap();
    assert_eq!(receipt.minted, 700);
    assert_eq!(receipt.token_amount, 90);
    assert_eq!(pool.total_supply(), 700);
    assert_eq!(pool.balance_of(BOB), 700);
}

#[test]
fn swap_with_expired_deadline_changes_nothing() {
    let mut pool = Exchange::new(TOKEN, FACTORY, ALICE, 500, POOL);
    let env = call(BOB, 40, 100, 200040);
    assert_eq!(pool.dot_to_token_swap_input(env, 200000, 1, 99), Err(Error::DeadlineExpired));
    assert_eq!(pool.token_to_dot_swap_input(call(BOB, 0, 100, 200000), 200000, 40, 1, 99), Err(Error::DeadlineExpired));
    assert_eq!(pool.add_liquidity(env, 200000, 1, 100, 99), Err(Error::DeadlineExpired));
    assert_eq!(pool.remove_liquidity(env, 200000, 10, 1, 1, 99), Err(Error::DeadlineExpired));
    assert_eq!(pool.total_supply(), 500);
    assert_eq!(pool.balance_of(ALICE), 500);
    assert_eq!(pool.events.len(), 0);
}

#[test]
fn dot_to_token_swap_input_buys_tokens() {
    let mut pool = Exchange::new(TOKEN, FACTORY, ALICE, 500, POOL);
    // 40 native against reserves 200000/200000 buys 39 tokens.
    let env = call(BOB, 40, 10, 200040);
    let receipt = pool.dot_to_token_swap_input(env, 200000, 1, 10).unwrap();
    assert_eq!(receipt.dot_sold, 40);
    assert_eq!(receipt.tokens_bought, 39);
    assert_eq!(receipt.dot_refund, 0);
    assert_eq!(receipt.buyer, BOB);
    assert_eq!(receipt.recipient, BOB);
    assert_eq!(
        pool.events[0],
        ExchangeEvent::TokenPurchase(TokenPurchase { buyer: BOB, dot_sold: 40, tokens_bought: 39 }),
    );
    // The LP ledger is untouched by swaps.
    assert_eq!(pool.total_supply(), 500);
    assert_eq!(pool.balance_of(ALICE), 500);
}

#[test]
fn dot_to_token_swap_input_enforces_minimum() {
    let mut pool = Exchange::new(TOKEN, FACTORY, ALICE, 500, POOL);
    let env = call(BOB, 40, 10, 200040);
    assert_eq!(pool.dot_to_token_swap_input(env, 200000, 40, 10), Err(Error::SlippageExceeded));
    assert_eq!(pool.dot_to_token_swap_input(call(BOB, 0, 10, 200000), 200000, 1, 10), Err(Error::InvalidAmount));
    assert_eq!(pool.dot_to_token_swap_input(env, 0, 1, 10), Err(Error::InvalidReserve));
    assert_eq!(pool.events.len(), 0);
}

#[test]
fn dot_to_token_transfer_input_screens_recipient() {
    let mut pool = Exchange::new(TOKEN, FACTORY, ALICE, 500, POOL);
    let env = call(BOB, 40, 10, 200040);
    assert_eq!(pool.dot_to_token_transfer_input(env, 200000, 1, 10, POOL), Err(Error::InvalidRecipient));
    assert_eq!(pool.dot_to_token_transfer_input(env, 200000, 1, 10, 0), Err(Error::InvalidRecipient));
    let receipt = pool.dot_to_token_transfer_input(env, 200000, 1, 10, ALICE).unwrap();
    assert_eq!(receipt.recipient, ALICE);
    assert_eq!(receipt.buyer, BOB);
    assert_eq!(receipt.tokens_bought, 39);
}

#[test]
fn dot_to_token_swap_output_refunds_overpayment() {
    let mut pool = Exchange::new(TOKEN, FACTORY, ALICE, 500, POOL);
    // Buying exactly 40 tokens out of 200000/200000 costs 41 native.
    let env = call(BOB, 100, 10, 200100);
    let receipt = pool.dot_to_token_swap_output(env, 200000, 40, 10).unwrap();
    assert_eq!(receipt.dot_sold, 41);
    assert_eq!(receipt.tokens_bought, 40);
    assert_eq!(receipt.dot_refund, 59);
    // A payment that cannot cover the cost is slippage.
    let short = call(BOB, 40, 10, 200040);
    assert_eq!(pool.dot_to_token_swap_output(short, 200000, 40, 10), Err(Error::SlippageExceeded));
}

#[test]
fn token_to_dot_swap_input_pays_native() {
    let mut pool = Exchange::new(TOKEN, FACTORY, ALICE, 500, POOL);
    let env = call(BOB, 0, 10, 200000);
    let receipt = pool.token_to_dot_swap_input(env, 200000, 40, 1, 10).unwrap();
    assert_eq!(receipt.tokens_sold, 40);
    assert_eq!(receipt.dot_bought, 39);
    assert_eq!(
        pool.events[0],
        ExchangeEvent::DotPurchase(DotPurchase { buyer: BOB, tokens_sold: 40, dot_bought: 39 }),
    );
    // The proceeds must strictly exceed the minimum.
    assert_eq!(pool.token_to_dot_swap_input(env, 200000, 40, 39, 10), Err(Error::SlippageExceeded));
}

#[test]
fn token_to_dot_swap_output_caps_tokens_sold() {
    let mut pool = Exchange::new(TOKEN, FACTORY, ALICE, 500, POOL);
    let env = call(BOB, 0, 10, 200000);
    let receipt = pool.token_to_dot_swap_output(env, 200000, 40, 100, 10).unwrap();
    assert_eq!(receipt.dot_bought, 40);
    assert_eq!(receipt.tokens_sold, 41);
    assert_eq!(pool.token_to_dot_swap_output(env, 200000, 40, 40, 10), Err(Error::SlippageExceeded));
}

#[test]
fn pricing_methods_mirror_the_engine() {
    let pool = Exchange::new(TOKEN, FACTORY, ALICE, 500, POOL);
    assert_eq!(pool.input_price(40, 200000, 200000), Ok(39));
    assert_eq!(pool.output_price(40, 200000, 200000), Ok(41));
    assert_eq!(pool.input_price(40, 0, 200000), Err(Error::InvalidReserve));
    assert_eq!(pool.output_price(200, 200, 200), Err(Error::DepletedReserve));
}

#[test]
fn accessors_report_configuration() {
    let pool = Exchange::new(TOKEN, FACTORY, ALICE, 500, POOL);
    assert_eq!(pool.get_address(), POOL);
    assert_eq!(pool.total_supply(), 500);
    assert_eq!(pool.allowance(ALICE, BOB), 0);
    let bare = Exchange::default();
    assert_eq!(bare.total_supply(), 0);
    assert_eq!(bare.get_address(), 0);
}

#[test]
fn remove_liquidity_rejects_overflowing_share_math() {
    let mut pool = Exchange::new(TOKEN, FACTORY, ALICE, u128::MAX, POOL);
    // amount × native balance no longer fits 128 bits.
    assert_eq!(
        pool.remove_liquidity(call(ALICE, 0, 10, u128::MAX), 1000, u128::MAX, 1, 1, 10),
        Err(Error::Overflow),
    );
    assert_eq!(pool.total_supply(), u128::MAX);
}

#[test]
fn token_to_dot_transfer_variants_screen_recipient() {
    let mut pool = Exchange::new(TOKEN, FACTORY, ALICE, 500, POOL);
    let env = call(BOB, 0, 10, 200000);
    assert_eq!(
        pool.token_to_dot_transfer_input(env, 200000, 40, 1, 10, POOL),
        Err(Error::InvalidRecipient),
    );
    assert_eq!(
        pool.token_to_dot_transfer_input(env, 200000, 40, 1, 10, 0),
        Err(Error::InvalidRecipient),
    );
    assert_eq!(
        pool.token_to_dot_transfer_output(env, 200000, 40, 100, 10, 0),
        Err(Error::InvalidRecipient),
    );
    let receipt = pool.token_to_dot_transfer_input(env, 200000, 40, 1, 10, ALICE).unwrap();
    assert_eq!(receipt.recipient, ALICE);
}
