use token_blocks::{
    emit_paused, emit_unpaused, emit_user_blocked, emit_user_unblocked,
    AccessControl, AllowListImpl, FungibleBlockList, Address, Base, BlockListImpl, CallContext, DataKey, Event,
    ExampleContract, Guard, ListPolicy, PauseChecker, Pausable, PausableError, Role, Royalties,
    Token, TokenError,
};

const ADMIN: Address = Address(100);
const A: Address = Address(1);
const B: Address = Address(2);
const C: Address = Address(3);

fn ctx(ledger: u32, signers: &[Address]) -> CallContext {
    CallContext { ledger, signers: signers.to_vec() }
}

fn everyone() -> CallContext {
    ctx(10, &[ADMIN, A, B, C])
}

fn token(list: ListPolicy, cap: Option<i128>) -> Token {
    Token::new(ADMIN, true, list, cap, None).unwrap()
}

#[test]
fn mint_approve_transfer_from_scenario() {
    let c = everyone();
    let mut t = token(ListPolicy::Open, None);
    t.mint(&c, ADMIN, A, 100).unwrap();
    assert_eq!(t.base.balance(A), 100);
    assert_eq!(t.base.total_supply(), 100);
    t.approve(&c, A, B, 30, 1000).unwrap();
    t.transfer_from(&c, B, A, C, 30).unwrap();
    assert_eq!(t.base.balance(A), 70);
    assert_eq!(t.base.balance(C), 30);
    assert_eq!(t.base.allowance(c.ledger, A, B), 0);
    assert_eq!(t.transfer(&c, A, C, 71), Err(TokenError::InsufficientBalance));
    assert_eq!(t.base.balance(A), 70);
}

#[test]
fn blocked_account_cannot_send_or_receive() {
    let c = everyone();
    let mut t = token(ListPolicy::Block(BlockListImpl::new()), None);
    t.mint(&c, ADMIN, A, 100).unwrap();
    t.mint(&c, ADMIN, B, 100).unwrap();
    assert!(!t.blocked(A));
    t.block_user(&c, A, ADMIN).unwrap();
    assert!(t.blocked(A));
    assert!(!t.blocked(B));
    assert_eq!(t.base.events.last(), Some(&Event::UserBlocked { user: A }));
    assert_eq!(t.transfer(&c, A, B, 10), Err(TokenError::AccountBlocked));
    assert_eq!(t.transfer(&c, B, A, 10), Err(TokenError::AccountBlocked));
    t.approve(&c, B, C, 50, 1000).unwrap();
    assert_eq!(t.transfer_from(&c, C, B, A, 10), Err(TokenError::AccountBlocked));
    assert_eq!(t.burn(&c, A, 10), Err(TokenError::AccountBlocked));
    assert_eq!(t.mint(&c, ADMIN, A, 10), Err(TokenError::AccountBlocked));
    t.transfer(&c, B, C, 10).unwrap();
    assert_eq!(t.unblock_user(&c, A, B), Err(TokenError::Unauthorized));
    t.unblock_user(&c, A, ADMIN).unwrap();
    assert!(!t.blocked(A));
    assert_eq!(t.base.events.last(), Some(&Event::UserUnblocked { user: A }));
    t.transfer(&c, A, B, 10).unwrap();
    assert_eq!(t.base.balance(A), 90);
    assert_eq!(t.base.balance(B), 100);
}

#[test]
fn allow_list_admits_only_listed_accounts() {
    let c = everyone();
    let mut t = token(ListPolicy::Allow(AllowListImpl::new()), None);
    assert_eq!(t.mint(&c, ADMIN, A, 100), Err(TokenError::AccountNotAllowed));
    t.allow_user(&c, A, ADMIN).unwrap();
    t.mint(&c, ADMIN, A, 100).unwrap();
    assert_eq!(t.transfer(&c, A, B, 10), Err(TokenError::AccountNotAllowed));
    t.allow_user(&c, B, ADMIN).unwrap();
    t.transfer(&c, A, B, 10).unwrap();
    t.disallow_user(&c, B, ADMIN).unwrap();
    assert_eq!(t.transfer(&c, A, B, 10), Err(TokenError::AccountNotAllowed));
    assert_eq!(t.block_user(&c, B, ADMIN), Err(TokenError::Unauthorized));
}

#[test]
fn pause_gates_every_mutating_call() {
    let c = everyone();
    let mut t = token(ListPolicy::Open, None);
    t.mint(&c, ADMIN, A, 100).unwrap();
    t.approve(&c, A, B, 50, 1000).unwrap();
    assert_eq!(t.unpause(&c, ADMIN), Err(TokenError::ExpectedPause));
    assert_eq!(t.when_not_paused(), Ok(()));
    assert_eq!(t.when_paused(), Err(PausableError::ExpectedPause));
    t.pause(&c, ADMIN).unwrap();
    assert!(t.paused());
    assert_eq!(t.base.events.last(), Some(&Event::Paused { caller: ADMIN }));
    assert_eq!(t.when_not_paused(), Err(PausableError::EnforcedPause));
    assert_eq!(t.pause(&c, ADMIN), Err(TokenError::EnforcedPause));
    assert_eq!(t.transfer(&c, A, B, 1), Err(TokenError::EnforcedPause));
    assert_eq!(t.transfer_from(&c, B, A, C, 1), Err(TokenError::EnforcedPause));
    assert_eq!(t.mint(&c, ADMIN, A, 1), Err(TokenError::EnforcedPause));
    assert_eq!(t.burn(&c, A, 1), Err(TokenError::EnforcedPause));
    assert_eq!(t.burn_from(&c, B, A, 1), Err(TokenError::EnforcedPause));
    t.unpause(&c, ADMIN).unwrap();
    assert_eq!(t.base.events.last(), Some(&Event::Unpaused { caller: ADMIN }));
    t.transfer(&c, A, B, 1).unwrap();
    assert_eq!(t.base.balance(B), 1);
}

#[test]
fn authorization_is_checked_before_pause() {
    let c = everyone();
    let mut t = token(ListPolicy::Open, None);
    t.mint(&c, ADMIN, A, 100).unwrap();
    t.pause(&c, ADMIN).unwrap();
    let only_b = ctx(10, &[B]);
    assert_eq!(t.transfer(&only_b, A, B, 1), Err(TokenError::Unauthorized));
    assert_eq!(t.mint(&only_b, B, B, 1), Err(TokenError::Unauthorized));
    assert_eq!(t.unpause(&only_b, ADMIN), Err(TokenError::Unauthorized));
}

#[test]
fn pause_needs_the_extension() {
    let c = everyone();
    let mut t = Token::new(ADMIN, false, ListPolicy::Open, None, None).unwrap();
    assert_eq!(t.pause(&c, ADMIN), Err(TokenError::Unauthorized));
    assert!(!t.paused());
}

#[test]
fn cap_bounds_total_supply() {
    let c = everyone();
    let mut t = token(ListPolicy::Open, Some(1000));
    t.mint(&c, ADMIN, A, 600).unwrap();
    assert_eq!(t.mint(&c, ADMIN, B, 401), Err(TokenError::CapExceeded));
    assert_eq!(t.base.total_supply(), 600);
    t.mint(&c, ADMIN, B, 400).unwrap();
    assert_eq!(t.base.total_supply(), 1000);
    assert_eq!(t.mint(&c, ADMIN, B, 1), Err(TokenError::CapExceeded));
    t.burn(&c, A, 100).unwrap();
    t.mint(&c, ADMIN, B, 100).unwrap();
    assert_eq!(t.base.total_supply(), 1000);
}

#[test]
fn negative_cap_is_rejected() {
    assert!(matches!(
        Token::new(ADMIN, true, ListPolicy::Open, Some(-1), None),
        Err(TokenError::InvalidCap)
    ));
}

#[test]
fn conservation_over_a_sequence() {
    let c = everyone();
    let mut t = token(ListPolicy::Open, None);
    t.mint(&c, ADMIN, A, 500).unwrap();
    t.mint(&c, ADMIN, B, 250).unwrap();
    t.transfer(&c, A, C, 120).unwrap();
    t.burn(&c, B, 50).unwrap();
    t.transfer(&c, C, C, 20).unwrap();
    assert_eq!(t.transfer(&c, B, A, 1000), Err(TokenError::InsufficientBalance));
    let sum = t.base.balance(A) + t.base.balance(B) + t.base.balance(C);
    assert_eq!(sum, 700);
    assert_eq!(t.base.total_supply(), sum);
}

#[test]
fn transfer_from_debits_allowance_exactly() {
    let c = everyone();
    let mut t = token(ListPolicy::Open, None);
    t.mint(&c, ADMIN, A, 100).unwrap();
    t.approve(&c, A, B, 40, 1000).unwrap();
    t.transfer_from(&c, B, A, C, 15).unwrap();
    assert_eq!(t.base.allowance(c.ledger, A, B), 25);
    assert_eq!(t.transfer_from(&c, B, A, C, 26), Err(TokenError::InsufficientAllowance));
    t.transfer_from(&c, B, A, C, 25).unwrap();
    assert_eq!(t.base.allowance(c.ledger, A, B), 0);
    assert_eq!(t.base.balance(C), 40);
}

#[test]
fn expired_allowance_reads_as_zero() {
    let mut base = Base::new();
    let c = ctx(10, &[A, B]);
    base.mint(A, 100).unwrap();
    base.approve(&c, A, B, 30, 20).unwrap();
    assert_eq!(base.allowance(20, A, B), 30);
    assert_eq!(base.allowance(21, A, B), 0);
    let later = ctx(21, &[A, B]);
    assert_eq!(base.transfer_from(&later, B, A, C, 1), Err(TokenError::InsufficientAllowance));
}

#[test]
fn approve_in_the_past() {
    let mut base = Base::new();
    let c = ctx(10, &[A]);
    assert_eq!(base.approve(&c, A, B, 5, 9), Err(TokenError::InvalidExpiration));
    base.approve(&c, A, B, 0, 9).unwrap();
    assert_eq!(base.allowance(10, A, B), 0);
    assert_eq!(base.approve(&c, A, B, -1, 20), Err(TokenError::LessThanZero));
    assert_eq!(base.approve(&ctx(10, &[B]), A, B, 5, 20), Err(TokenError::Unauthorized));
}

#[test]
fn negative_amounts_and_overflow() {
    let mut base = Base::new();
    let c = ctx(1, &[A]);
    assert_eq!(base.mint(A, -1), Err(TokenError::LessThanZero));
    base.mint(A, i128::MAX).unwrap();
    assert_eq!(base.mint(B, 1), Err(TokenError::MathOverflow));
    assert_eq!(base.transfer(&c, A, B, -5), Err(TokenError::LessThanZero));
    base.transfer(&c, A, B, i128::MAX).unwrap();
    assert_eq!(base.balance(B), i128::MAX);
    assert_eq!(base.update(None, Some(C), 0), Ok(()));
}

#[test]
fn update_without_source_or_destination() {
    let mut base = Base::new();
    base.update(None, Some(A), 70).unwrap();
    assert_eq!(base.total_supply(), 70);
    base.update(Some(A), None, 30).unwrap();
    assert_eq!(base.total_supply(), 40);
    assert_eq!(base.balance(A), 40);
    assert_eq!(base.update(Some(A), None, 41), Err(TokenError::InsufficientBalance));
}

#[test]
fn guards_run_in_order() {
    let c = everyone();
    let mut t = token(ListPolicy::Block(BlockListImpl::new()), Some(10));
    t.block_user(&c, A, ADMIN).unwrap();
    t.pause(&c, ADMIN).unwrap();
    let gs = vec![Guard::NotPaused, Guard::Listed(A), Guard::WithinCap(100)];
    assert_eq!(t.run_guards(&gs), Err(TokenError::EnforcedPause));
    t.unpause(&c, ADMIN).unwrap();
    assert_eq!(t.run_guards(&gs), Err(TokenError::AccountBlocked));
    assert_eq!(t.check_guard(Guard::WithinCap(100)), Err(TokenError::CapExceeded));
    assert_eq!(t.check_guard(Guard::WithinCap(10)), Ok(()));
    assert_eq!(t.run_guards(&Vec::new()), Ok(()));
}

#[test]
fn roles_grant_and_revoke() {
    let c = everyone();
    let manager = Role(7);
    let minter = Role(8);
    let mut access = AccessControl::new();
    access.set_admin(&c, ADMIN).unwrap();
    assert_eq!(access.admin(), Some(ADMIN));
    assert_eq!(access.grant_role(&c, A, minter, B), Err(TokenError::Unauthorized));
    access.grant_role(&c, ADMIN, manager, A).unwrap();
    access.set_role_admin(&c, minter, manager).unwrap();
    assert_eq!(access.role_admin(minter), Some(manager));
    access.grant_role(&c, A, minter, B).unwrap();
    assert!(access.has_role(minter, B));
    assert_eq!(access.require_role(&c, minter, B), Ok(()));
    assert_eq!(access.require_role(&ctx(1, &[A]), minter, B), Err(TokenError::Unauthorized));
    access.revoke_role(&c, A, minter, B).unwrap();
    assert!(!access.has_role(minter, B));
    assert_eq!(access.require_role(&c, minter, B), Err(TokenError::Unauthorized));
    assert_eq!(access.set_admin(&ctx(1, &[A]), A), Err(TokenError::Unauthorized));
    access.set_admin(&ctx(1, &[ADMIN]), A).unwrap();
    assert_eq!(access.require_admin(&ctx(1, &[A])), Ok(()));
    assert_eq!(access.require_admin(&ctx(1, &[ADMIN])), Err(TokenError::Unauthorized));
}

#[test]
fn operator_role_may_mint_and_pause() {
    let c = everyone();
    let ops = Role(3);
    let mut t = Token::new(ADMIN, true, ListPolicy::Open, None, Some(ops)).unwrap();
    assert_eq!(t.mint(&c, A, A, 5), Err(TokenError::Unauthorized));
    t.access.grant_role(&c, ADMIN, ops, A).unwrap();
    t.mint(&c, A, A, 5).unwrap();
    t.pause(&c, A).unwrap();
    assert!(t.paused());
}

#[test]
fn royalty_default_and_token_override() {
    let c = everyone();
    let mut access = AccessControl::new();
    access.set_admin(&c, ADMIN).unwrap();
    let mut r = Royalties::new(None);
    assert_eq!(r.royalty_info(1, 100), Ok((None, 0)));
    r.set_default_royalty(&access, &c, ADMIN, A, 1000).unwrap();
    assert_eq!(r.royalty_info(1, 100), Ok((Some(A), 10)));
    assert_eq!(r.royalty_info(1, 99), Ok((Some(A), 9)));
    r.set_token_royalty(&access, &c, ADMIN, 1, B, 250).unwrap();
    assert_eq!(r.royalty_info(1, 1000), Ok((Some(B), 25)));
    assert_eq!(r.royalty_info(2, 1000), Ok((Some(A), 100)));
    r.remove_token_royalty(&access, &c, ADMIN, 1).unwrap();
    assert_eq!(r.royalty_info(1, 1000), Ok((Some(A), 100)));
    assert_eq!(r.royalty_info(1, i128::MAX), Ok((Some(A), i128::MAX / 10)));
    assert_eq!(r.royalty_info(1, -1), Err(TokenError::LessThanZero));
    assert_eq!(
        r.set_default_royalty(&access, &c, ADMIN, A, 10001),
        Err(TokenError::InvalidBasisPoints)
    );
    assert_eq!(
        r.set_token_royalty(&access, &ctx(1, &[A]), A, 1, A, 10),
        Err(TokenError::Unauthorized)
    );
    r.set_token_royalty(&access, &c, ADMIN, 5, C, 10000).unwrap();
    assert_eq!(r.royalty_info(5, 77), Ok((Some(C), 77)));
}

#[test]
fn error_codes_are_stable() {
    assert_eq!(TokenError::InsufficientBalance.code(), 100);
    assert_eq!(TokenError::EnforcedPause.code(), 1000);
    assert_eq!(PausableError::ExpectedPause.code(), 1001);
    assert_eq!(PausableError::EnforcedPause.into_token_error(), TokenError::EnforcedPause);
}

#[test]
fn example_contract_owner_mints() {
    let owner = Address(9);
    let mut contract = ExampleContract::__constructor(owner);
    assert_eq!(contract.decimals, 7);
    assert_eq!(contract.name, "My Token");
    assert_eq!(contract.symbol, "TKN");
    assert_eq!(contract.mint(&ctx(1, &[A]), A, 100), Err(TokenError::Unauthorized));
    contract.mint(&ctx(1, &[owner]), owner, 100).unwrap();
    assert_eq!(contract.base.balance(owner), 100);
    assert_eq!(DataKey::Owner, DataKey::Owner);
}

#[test]
fn events_are_appended_in_order() {
    let mut log = Vec::new();
    emit_paused(&mut log, &ADMIN);
    emit_user_blocked(&mut log, &A);
    emit_user_unblocked(&mut log, &A);
    emit_unpaused(&mut log, &ADMIN);
    assert_eq!(
        log,
        vec![
            Event::Paused { caller: ADMIN },
            Event::UserBlocked { user: A },
            Event::UserUnblocked { user: A },
            Event::Unpaused { caller: ADMIN },
        ]
    );
}

#[test]
fn block_list_store() {
    let mut list = BlockListImpl::new();
    let mut log = Vec::new();
    list.block_user(&mut log, B);
    assert!(list.is_blocked(B));
    assert!(!list.is_blocked(A));
    list.unblock_user(&mut log, B);
    assert!(!list.is_blocked(B));
    assert_eq!(log.len(), 2);
}
