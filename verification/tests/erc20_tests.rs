use dex::erc20::{Erc20, Erc20Event, Transfer};

const ALICE: u128 = 1;
const NOBODY: u128 = 0;

#[test]
fn new_works() {
    let contract = Erc20::new(ALICE, 777);
    assert_eq!(contract.total_supply(), 777);

    assert_eq!(contract.events.len(), 1);
    assert_eq!(
        contract.events[0],
        Erc20Event::Transfer(Transfer { from: None, to: Some(ALICE), value: 777 }),
    );
}

#[test]
fn balance_works() {
    let contract = Erc20::new(ALICE, 100);
    assert_eq!(contract.total_supply(), 100);
    assert_eq!(contract.balance_of(ALICE), 100);
    assert_eq!(contract.balance_of(NOBODY), 0);

    assert_eq!(contract.events.len(), 1);
    assert_eq!(
        contract.events[0],
        Erc20Event::Transfer(Transfer { from: None, to: Some(ALICE), value: 100 }),
    );
}

#[test]
fn transfer_works() {
    let mut contract = Erc20::new(ALICE, 100);
    assert_eq!(contract.balance_of(ALICE), 100);
    assert!(contract.transfer(ALICE, NOBODY, 10));
    assert_eq!(contract.balance_of(NOBODY), 10);
    assert!(!contract.transfer(ALICE, NOBODY, 100));

    assert_eq!(contract.events.len(), 2);
    assert_eq!(
        contract.events[1],
        Erc20Event::Transfer(Transfer { from: Some(ALICE), to: Some(NOBODY), value: 10 }),
    );
}

#[test]
fn transfer_from_works() {
    let mut contract = Erc20::new(ALICE, 100);
    assert_eq!(contract.balance_of(ALICE), 100);
    contract.approve(ALICE, ALICE, 20);
    contract.transfer_from(ALICE, ALICE, NOBODY, 10);
    assert_eq!(contract.balance_of(NOBODY), 10);

    assert_eq!(contract.events.len(), 3);
    assert_eq!(
        contract.events[2],
        Erc20Event::Transfer(Transfer { from: Some(ALICE), to: Some(NOBODY), value: 10 }),
    );
}

#[test]
fn ledger_transfer_from_requires_allowance() {
    // Without an approval the spender moves nothing, however well funded
    // the source balance is.
    let mut contract = Erc20::new(ALICE, 100);
    assert_eq!(contract.allowance(ALICE, 2), 0);
    assert!(!contract.transfer_from(2, ALICE, 2, 30));
    assert_eq!(contract.balance_of(2), 0);
    assert_eq!(contract.balance_of(ALICE), 100);
    // With an approval the move succeeds and spends the allowance.
    assert!(contract.approve(ALICE, 2, 50));
    assert!(contract.transfer_from(2, ALICE, 2, 30));
    assert_eq!(contract.balance_of(2), 30);
    assert_eq!(contract.balance_of(ALICE), 70);
    assert_eq!(contract.allowance(ALICE, 2), 20);
}

#[test]
fn ledger_transfer_from_spends_allowance_even_when_balance_fails() {
    let mut contract = Erc20::new(ALICE, 100);
    assert!(contract.approve(ALICE, 2, 500));
    // The allowance covers 400, the balance does not: the move fails,
    // yet the allowance is already reduced.
    assert!(!contract.transfer_from(2, ALICE, 2, 400));
    assert_eq!(contract.allowance(ALICE, 2), 100);
    assert_eq!(contract.balance_of(ALICE), 100);
}

#[test]
fn approve_overwrites_allowance() {
    let mut contract = Erc20::new(ALICE, 100);
    assert!(contract.approve(ALICE, 2, 20));
    assert!(contract.approve(ALICE, 2, 5));
    assert_eq!(contract.allowance(ALICE, 2), 5);
    assert_eq!(contract.allowance(2, ALICE), 0);
}

#[test]
fn balance_echoes_transferred_value() {
    let contract = Erc20::new(ALICE, 100);
    let env = dex::types::Env {
        caller: ALICE,
        transferred_value: 42,
        block_timestamp: 0,
        self_balance: 42,
        self_account: 50,
    };
    assert_eq!(contract.balance(env), 42);
}

#[test]
fn self_transfer_keeps_balance() {
    let mut contract = Erc20::new(ALICE, 100);
    assert!(contract.transfer(ALICE, ALICE, 60));
    assert_eq!(contract.balance_of(ALICE), 100);
    assert_eq!(contract.total_supply(), 100);
}
