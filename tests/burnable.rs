use token_blocks::{Address, Base, CallContext, Event, TokenError};

fn ctx(signers: Vec<Address>) -> CallContext {
    CallContext { ledger: 1, signers }
}

#[test]
fn burn_works() {
    let account = Address(1);
    let c = ctx(vec![account]);
    let mut base = Base::new();
    base.mint(account, 100).unwrap();
    base.burn(&c, account, 50).unwrap();
    assert_eq!(base.balance(account), 50);
    assert_eq!(base.total_supply(), 50);

    assert_eq!(base.events.len(), 2);
    assert_eq!(base.events[0], Event::Transfer { from: None, to: Some(account), amount: 100 });
    assert_eq!(base.events[1], Event::Transfer { from: Some(account), to: None, amount: 50 });
}

#[test]
fn burn_with_allowance_works() {
    let owner = Address(1);
    let spender = Address(2);
    let c = ctx(vec![owner, spender]);
    let mut base = Base::new();
    base.mint(owner, 100).unwrap();
    base.approve(&c, owner, spender, 30, 1000).unwrap();
    base.burn_from(&c, spender, owner, 30).unwrap();
    assert_eq!(base.balance(owner), 70);
    assert_eq!(base.balance(spender), 0);
    assert_eq!(base.total_supply(), 70);

    assert_eq!(base.events.len(), 3);
    assert_eq!(base.events[0], Event::Transfer { from: None, to: Some(owner), amount: 100 });
    assert_eq!(
        base.events[1],
        Event::Approve { owner, spender, amount: 30, live_until_ledger: 1000 }
    );
    assert_eq!(base.events[2], Event::Transfer { from: Some(owner), to: None, amount: 30 });
}

#[test]
fn burn_with_insufficient_balance_panics() {
    let account = Address(1);
    let c = ctx(vec![account]);
    let mut base = Base::new();
    base.mint(account, 100).unwrap();
    assert_eq!(base.balance(account), 100);
    assert_eq!(base.total_supply(), 100);
    let r = base.burn(&c, account, 101);
    assert_eq!(r, Err(TokenError::InsufficientBalance));
    assert_eq!(TokenError::InsufficientBalance.code(), 100);
    assert_eq!(base.balance(account), 100);
}

#[test]
fn burn_with_no_allowance_panics() {
    let owner = Address(1);
    let spender = Address(2);
    let c = ctx(vec![owner, spender]);
    let mut base = Base::new();
    base.mint(owner, 100).unwrap();
    assert_eq!(base.balance(owner), 100);
    assert_eq!(base.total_supply(), 100);
    let r = base.burn_from(&c, spender, owner, 50);
    assert_eq!(r, Err(TokenError::InsufficientAllowance));
    assert_eq!(TokenError::InsufficientAllowance.code(), 101);
}

#[test]
fn burn_with_insufficient_allowance_panics() {
    let owner = Address(1);
    let spender = Address(2);
    let c = ctx(vec![owner, spender]);
    let mut base = Base::new();
    base.mint(owner, 100).unwrap();
    base.approve(&c, owner, spender, 50, 100).unwrap();
    assert_eq!(base.allowance(c.ledger, owner, spender), 50);
    assert_eq!(base.balance(owner), 100);
    assert_eq!(base.total_supply(), 100);
    let r = base.burn_from(&c, spender, owner, 60);
    assert_eq!(r, Err(TokenError::InsufficientAllowance));
    assert_eq!(TokenError::InsufficientAllowance.code(), 101);
}
