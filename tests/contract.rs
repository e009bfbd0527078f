use price::{AccountId, Balances, Price};

fn account(b: u8) -> AccountId {
    AccountId::new([b; 32])
}

#[test]
fn new_sets_supply_price_owner_and_balance() {
    let a = account(1);
    let p = Price::new(1000, 5, a);
    assert_eq!(p.total_supply(), 1000);
    assert_eq!(p.price(), 5);
    assert_eq!(p.owner(), a);
    assert_eq!(p.balance_of(&a), Some(1000));
    assert_eq!(p.balance_of(&account(2)), None);
}

#[test]
fn new_with_extreme_values() {
    let a = account(0xff);
    let p = Price::new(u32::MAX, 0, a);
    assert_eq!(p.total_supply(), u32::MAX);
    assert_eq!(p.price(), 0);
    assert_eq!(p.balance_of(&a), Some(u32::MAX));
}

#[test]
fn set_price_changes_only_price() {
    let a = account(1);
    let mut p = Price::new(1000, 5, a);
    p.set_price(42);
    assert_eq!(p.price(), 42);
    assert_eq!(p.total_supply(), 1000);
    assert_eq!(p.owner(), a);
    assert_eq!(p.balance_of(&a), Some(1000));
}

#[test]
fn set_owner_by_anyone_succeeds() {
    let a = account(1);
    let b = account(2);
    let mut p = Price::new(1000, 5, a);
    p.set_owner(b);
    assert_eq!(p.owner(), b);
    assert_eq!(p.price(), 5);
    assert_eq!(p.total_supply(), 1000);
    assert_eq!(p.balance_of(&a), Some(1000));
    assert_eq!(p.balance_of(&b), None);
}

#[test]
fn set_price_twice_equals_once() {
    let a = account(3);
    let mut once = Price::new(10, 1, a);
    let mut twice = Price::new(10, 1, a);
    once.set_price(7);
    twice.set_price(7);
    twice.set_price(7);
    assert_eq!(once.price(), twice.price());
    assert_eq!(once.total_supply(), twice.total_supply());
    assert_eq!(once.owner(), twice.owner());
    assert_eq!(once.balance_of(&a), twice.balance_of(&a));
}

#[test]
fn deploy_then_transfer_ownership_then_reprice() {
    let a = account(0xa);
    let b = account(0xb);
    let mut p = Price::new(1000, 5, a);
    assert_eq!(p.total_supply(), 1000);
    assert_eq!(p.price(), 5);
    assert_eq!(p.owner(), a);
    assert_eq!(p.balance_of(&a), Some(1000));
    p.set_owner(b);
    assert_eq!(p.owner(), b);
    p.set_price(9);
    assert_eq!(p.price(), 9);
    assert_eq!(p.owner(), b);
    assert_eq!(p.total_supply(), 1000);
    assert_eq!(p.balance_of(&a), Some(1000));
}

#[test]
fn account_ids_compare_by_every_byte() {
    let mut bytes = [7u8; 32];
    let x = AccountId::new(bytes);
    assert_eq!(x, AccountId::new([7u8; 32]));
    bytes[31] = 8;
    assert_ne!(x, AccountId::new(bytes));
    assert_eq!(AccountId::new(bytes).bytes(), bytes);
}

#[test]
fn balances_insert_overwrites_and_keeps_others() {
    let mut t = Balances::new();
    assert_eq!(t.get(&account(1)), None);
    t.insert(account(1), 10);
    t.insert(account(2), 20);
    t.insert(account(1), 30);
    assert_eq!(t.get(&account(1)), Some(30));
    assert_eq!(t.get(&account(2)), Some(20));
    assert_eq!(t.get(&account(3)), None);
}
