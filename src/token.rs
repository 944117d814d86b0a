use vstd::prelude::*;
use crate::access::AccessControl;
use crate::error::{PausableError, TokenError};
use crate::events::{emit_paused, emit_unpaused, Event};
use crate::ledger::Base;
use crate::lists::ListPolicy;
use crate::pausable::Pausable;
use crate::blocklist::FungibleBlockList;
use crate::types::{Address, CallContext, Role};

verus! {

/// One check that an extension runs before the base operation.
#[derive(Clone, Copy, Debug, PartialEq, Eq, Structural)]
pub enum Guard {
    /// The contract is not paused.
    NotPaused,
    /// The membership list lets this address send or receive.
    Listed(Address),
    /// Minting this amount keeps the total supply within the cap.
    WithinCap(i128),
}

/// A fungible token with its extensions wired in: the base ledger, access
/// control, the pause flag, a membership list and a supply cap.
///
/// Every mutating operation checks, in this order: authorization, then the
/// pause flag, then the membership list, then the cap (mint only), then the
/// base ledger's own conditions. The first failure ends the call and leaves
/// the token as it was. An extension that is not selected passes every check.
pub struct Token {
    pub base: Base,
    pub access: AccessControl,
    /// Whether the pause extension is selected.
    pub pausable: bool,
    pub paused: bool,
    pub list: ListPolicy,
    pub cap: Option<i128>,
    /// Besides the admin, members of this role may mint, pause and manage the
    /// list.
    pub operator_role: Option<Role>,
}

/// The guards of a transfer, outermost first.
pub open spec fn transfer_chain(from: Address, to: Address) -> Seq<Guard> {
    seq![Guard::NotPaused, Guard::Listed(from), Guard::Listed(to)]
}

/// The guards of a mint, outermost first.
pub open spec fn mint_chain(to: Address, amount: i128) -> Seq<Guard> {
    seq![Guard::NotPaused, Guard::Listed(to), Guard::WithinCap(amount)]
}

/// The guards of a burn, outermost first.
pub open spec fn burn_chain(from: Address) -> Seq<Guard> {
    seq![Guard::NotPaused, Guard::Listed(from)]
}

impl Token {
    /// The ledger is consistent, only a pausable token is ever paused, and
    /// a cap is never negative nor exceeded.
    pub open spec fn wf(&self) -> bool {
        &&& self.base.wf()
        &&& (!self.pausable ==> !self.paused)
        &&& (self.cap matches Some(c) ==> 0 <= c && self.base.total_supply <= c)
    }

    /// `a` is on the list that is selected.
    pub open spec fn listed(&self, a: Address) -> bool {
        match self.list {
            ListPolicy::Open => false,
            ListPolicy::Block(b) => b.lists(a),
            ListPolicy::Allow(l) => l.lists(a),
        }
    }

    pub open spec fn guard_result(&self, g: Guard) -> Result<(), TokenError> {
        match g {
            Guard::NotPaused => if self.paused { Err(TokenError::EnforcedPause) } else { Ok(()) },
            Guard::Listed(a) => match self.list {
                ListPolicy::Open => Ok(()),
                ListPolicy::Block(b) => if b.lists(a) { Err(TokenError::AccountBlocked) } else { Ok(()) },
                ListPolicy::Allow(l) => if l.lists(a) { Ok(()) } else { Err(TokenError::AccountNotAllowed) },
            },
            Guard::WithinCap(amount) => match self.cap {
                Some(c) => if self.base.total_supply + amount > c { Err(TokenError::CapExceeded) } else { Ok(()) },
                None => Ok(()),
            },
        }
    }

    /// The first failure of the guards `gs`, run in order.
    pub open spec fn chain_result(&self, gs: Seq<Guard>) -> Result<(), TokenError>
        decreases gs.len(),
    {
        if gs.len() == 0 {
            Ok(())
        } else {
            match self.guard_result(gs[0]) {
                Err(e) => Err(e),
                Ok(()) => self.chain_result(gs.drop_first()),
            }
        }
    }

    /// The guards `gs` all pass exactly when each one does.
    pub proof fn lemma_chain_all(&self, gs: Seq<Guard>)
        ensures
            self.chain_result(gs) is Ok <==> forall|i: int| 0 <= i < gs.len() ==> (#[trigger] self.guard_result(gs[i])) is Ok,
        decreases gs.len(),
    {
        if gs.len() > 0 {
            self.lemma_chain_all(gs.drop_first());
            assert forall|i: int| 0 < i < gs.len() implies #[trigger] gs[i] == gs.drop_first()[i - 1] by {}
        }
    }

    /// Runs one guard.
    pub fn check_guard(&self, g: Guard) -> (r: Result<(), TokenError>)
        requires
            self.wf(),
        ensures
            r == self.guard_result(g),
    {
        match g {
            Guard::NotPaused => if self.paused { Err(TokenError::EnforcedPause) } else { Ok(()) },
            Guard::Listed(a) => match &self.list {
                ListPolicy::Open => Ok(()),
                ListPolicy::Block(b) => if b.is_blocked(a) { Err(TokenError::AccountBlocked) } else { Ok(()) },
                ListPolicy::Allow(l) => if l.is_allowed(a) { Ok(()) } else { Err(TokenError::AccountNotAllowed) },
            },
            Guard::WithinCap(amount) => match self.cap {
                Some(c) => if amount > c - self.base.total_supply { Err(TokenError::CapExceeded) } else { Ok(()) },
                None => Ok(()),
            },
        }
    }

    /// Runs the guards `gs` in order and stops at the first failure.
    pub fn run_guards(&self, gs: &Vec<Guard>) -> (r: Result<(), TokenError>)
        requires
            self.wf(),
        ensures
            r == self.chain_result(gs@),
    {
        let mut i: usize = 0;
        assert(gs@.skip(0) =~= gs@);
        while i < gs.len()
            invariant
                self.wf(),
                i <= gs@.len(),
                self.chain_result(gs@) == self.chain_result(gs@.skip(i as int)),
            decreases gs@.len() - i,
        {
            assert(gs@.skip(i as int).drop_first() =~= gs@.skip(i as int + 1));
            if let Err(e) = self.check_guard(gs[i]) {
                return Err(e);
            }
            i = i + 1;
        }
        assert(gs@.skip(i as int).len() == 0);
        Ok(())
    }

    /// Everything but the base ledger is as in `old`.
    pub open spec fn same_extensions(self, old: Token) -> bool {
        &&& self.access == old.access
        &&& self.pausable == old.pausable
        &&& self.paused == old.paused
        &&& self.list == old.list
        &&& self.cap == old.cap
        &&& self.operator_role == old.operator_role
    }

    /// `caller` authorized the call and is the admin or an operator.
    pub open spec fn operator(&self, ctx: &CallContext, caller: Address) -> bool {
        self.access.operator_ok(ctx, caller, self.operator_role)
    }

    pub open spec fn transfer_outcome(&self, ctx: &CallContext, from: Address, to: Address, amount: i128) -> Result<(), TokenError> {
        if !ctx.authorized(from) {
            Err(TokenError::Unauthorized)
        } else if self.chain_result(transfer_chain(from, to)) is Err {
            self.chain_result(transfer_chain(from, to))
        } else {
            Base::update_outcome(self.base, Some(from), Some(to), amount)
        }
    }

    pub open spec fn transfer_from_outcome(
        &self,
        ctx: &CallContext,
        spender: Address,
        from: Address,
        to: Address,
        amount: i128,
    ) -> Result<(), TokenError> {
        if !ctx.authorized(spender) {
            Err(TokenError::Unauthorized)
        } else if self.chain_result(transfer_chain(from, to)) is Err {
            self.chain_result(transfer_chain(from, to))
        } else {
            Base::spend_outcome(self.base, ctx, spender, from, Some(to), amount)
        }
    }

    pub open spec fn mint_outcome(&self, ctx: &CallContext, caller: Address, to: Address, amount: i128) -> Result<(), TokenError> {
        if !self.operator(ctx, caller) {
            Err(TokenError::Unauthorized)
        } else if self.chain_result(mint_chain(to, amount)) is Err {
            self.chain_result(mint_chain(to, amount))
        } else {
            Base::update_outcome(self.base, None, Some(to), amount)
        }
    }

    pub open spec fn burn_outcome(&self, ctx: &CallContext, from: Address, amount: i128) -> Result<(), TokenError> {
        if !ctx.authorized(from) {
            Err(TokenError::Unauthorized)
        } else if self.chain_result(burn_chain(from)) is Err {
            self.chain_result(burn_chain(from))
        } else {
            Base::update_outcome(self.base, Some(from), None, amount)
        }
    }

    pub open spec fn burn_from_outcome(&self, ctx: &CallContext, spender: Address, from: Address, amount: i128) -> Result<(), TokenError> {
        if !ctx.authorized(spender) {
            Err(TokenError::Unauthorized)
        } else if self.chain_result(burn_chain(from)) is Err {
            self.chain_result(burn_chain(from))
        } else {
            Base::spend_outcome(self.base, ctx, spender, from, None, amount)
        }
    }

    /// A token over an empty ledger with `admin` as its admin and the given
    /// extensions. Fails with `InvalidCap` on a negative cap.
    pub fn new(
        admin: Address,
        pausable: bool,
        list: ListPolicy,
        cap: Option<i128>,
        operator_role: Option<Role>,
    ) -> (r: Result<Token, TokenError>)
        ensures
            r is Err <==> (cap matches Some(c) && c < 0),
            r is Err ==> r == Err::<Token, TokenError>(TokenError::InvalidCap),
            r matches Ok(t) ==> {
                &&& t.wf()
                &&& t.access.admin == Some(admin)
                &&& forall|g: Role, a: Address| !t.access.holds(g, a)
                &&& t.pausable == pausable
                &&& !t.paused
                &&& t.list == list
                &&& t.cap == cap
                &&& t.operator_role == operator_role
                &&& t.base.total_supply == 0
                &&& forall|a: Address| t.base.balance_of(a) == 0
                &&& forall|o: Address, s: Address| t.base.allowance_entry(o, s) is None
                &&& t.base.events@ == Seq::<Event>::empty()
            },
    {
        if let Some(c) = cap {
            if c < 0 {
                return Err(TokenError::InvalidCap);
            }
        }
        let mut access = AccessControl::new();
        access.admin = Some(admin);
        let t = Token { base: Base::new(), access, pausable, paused: false, list, cap, operator_role };
        assert(t.wf());
        assert(forall|g: Role, a: Address| !t.access.holds(g, a));
        assert(forall|a: Address| t.base.balance_of(a) == 0);
        assert(forall|o: Address, s: Address| t.base.allowance_entry(o, s) is None);
        Ok(t)
    }

    /// Moves `amount` from `from` to `to`; `from` must authorize the call.
    pub fn transfer(&mut self, ctx: &CallContext, from: Address, to: Address, amount: i128) -> (r: Result<(), TokenError>)
        requires
            old(self).wf(),
        ensures
            final(self).wf(),
            r == old(self).transfer_outcome(ctx, from, to, amount),
            r is Err ==> *final(self) == *old(self),
            r is Ok ==> final(self).base.moved(old(self).base, Some(from), Some(to), amount)
                && final(self).same_extensions(*old(self)),
    {
        if !ctx.is_authorized(from) {
            return Err(TokenError::Unauthorized);
        }
        if let Err(e) = self.run_guards(&vec![Guard::NotPaused, Guard::Listed(from), Guard::Listed(to)]) {
            return Err(e);
        }
        self.base.transfer(ctx, from, to, amount)
    }

    /// Moves `amount` from `from` to `to` out of `spender`'s allowance;
    /// `spender` must authorize the call.
    pub fn transfer_from(
        &mut self,
        ctx: &CallContext,
        spender: Address,
        from: Address,
        to: Address,
        amount: i128,
    ) -> (r: Result<(), TokenError>)
        requires
            old(self).wf(),
        ensures
            final(self).wf(),
            r == old(self).transfer_from_outcome(ctx, spender, from, to, amount),
            r is Err ==> *final(self) == *old(self),
            r is Ok ==> final(self).base.spent_and_moved(old(self).base, ctx.ledger, spender, from, Some(to), amount)
                && final(self).same_extensions(*old(self)),
    {
        if !ctx.is_authorized(spender) {
            return Err(TokenError::Unauthorized);
        }
        if let Err(e) = self.run_guards(&vec![Guard::NotPaused, Guard::Listed(from), Guard::Listed(to)]) {
            return Err(e);
        }
        self.base.transfer_from(ctx, spender, from, to, amount)
    }

    /// Lets `spender` spend up to `amount` of `owner`'s balance until
    /// `live_until_ledger`; `owner` must authorize the call.
    pub fn approve(
        &mut self,
        ctx: &CallContext,
        owner: Address,
        spender: Address,
        amount: i128,
        live_until_ledger: u32,
    ) -> (r: Result<(), TokenError>)
        requires
            old(self).wf(),
        ensures
            final(self).wf(),
            r == Base::approve_outcome(ctx, owner, amount, live_until_ledger),
            r is Err ==> *final(self) == *old(self),
            r is Ok ==> final(self).same_extensions(*old(self))
                && final(self).base.balances@ == old(self).base.balances@
                && final(self).base.total_supply == old(self).base.total_supply
                && final(self).base.allowance_entry(owner, spender)
                    == Some(crate::ledger::AllowanceData { amount, live_until_ledger })
                && (forall|o: Address, s: Address| !(o == owner && s == spender)
                    ==> #[trigger] final(self).base.allowance_entry(o, s) == old(self).base.allowance_entry(o, s))
                && final(self).base.events@ == old(self).base.events@.push(
                    Event::Approve { owner, spender, amount, live_until_ledger }),
    {
        self.base.approve(ctx, owner, spender, amount, live_until_ledger)
    }

    /// Creates `amount` new units for `to`; `caller` must authorize the
    /// call and be the admin or an operator.
    pub fn mint(&mut self, ctx: &CallContext, caller: Address, to: Address, amount: i128) -> (r: Result<(), TokenError>)
        requires
            old(self).wf(),
        ensures
            final(self).wf(),
            r == old(self).mint_outcome(ctx, caller, to, amount),
            r is Err ==> *final(self) == *old(self),
            r is Ok ==> final(self).base.moved(old(self).base, None, Some(to), amount)
                && final(self).same_extensions(*old(self)),
    {
        if let Err(e) = self.access.require_operator(ctx, caller, self.operator_role) {
            return Err(e);
        }
        if let Err(e) = self.run_guards(&vec![Guard::NotPaused, Guard::Listed(to), Guard::WithinCap(amount)]) {
            return Err(e);
        }
        proof {
            self.lemma_chain_all(mint_chain(to, amount));
            assert(self.guard_result(mint_chain(to, amount)[2]) is Ok);
        }
        self.base.mint(to, amount)
    }

    /// Destroys `amount` units held by `from`; `from` must authorize the
    /// call.
    pub fn burn(&mut self, ctx: &CallContext, from: Address, amount: i128) -> (r: Result<(), TokenError>)
        requires
            old(self).wf(),
        ensures
            final(self).wf(),
            r == old(self).burn_outcome(ctx, from, amount),
            r is Err ==> *final(self) == *old(self),
            r is Ok ==> final(self).base.moved(old(self).base, Some(from), None, amount)
                && final(self).same_extensions(*old(self)),
    {
        if !ctx.is_authorized(from) {
            return Err(TokenError::Unauthorized);
        }
        if let Err(e) = self.run_guards(&vec![Guard::NotPaused, Guard::Listed(from)]) {
            return Err(e);
        }
        self.base.burn(ctx, from, amount)
    }

    /// Destroys `amount` units of `from` out of `spender`'s allowance;
    /// `spender` must authorize the call.
    pub fn burn_from(&mut self, ctx: &CallContext, spender: Address, from: Address, amount: i128) -> (r: Result<(), TokenError>)
        requires
            old(self).wf(),
        ensures
            final(self).wf(),
            r == old(self).burn_from_outcome(ctx, spender, from, amount),
            r is Err ==> *final(self) == *old(self),
            r is Ok ==> final(self).base.spent_and_moved(old(self).base, ctx.ledger, spender, from, None, amount)
                && final(self).same_extensions(*old(self)),
    {
        if !ctx.is_authorized(spender) {
            return Err(TokenError::Unauthorized);
        }
        if let Err(e) = self.run_guards(&vec![Guard::NotPaused, Guard::Listed(from)]) {
            return Err(e);
        }
        self.base.burn_from(ctx, spender, from, amount)
    }
}

impl Token {
    /// What `pause` returns: `Unauthorized` unless the token is pausable and
    /// `caller` is an operator, then `EnforcedPause` if already paused.
    pub open spec fn pause_outcome(&self, ctx: &CallContext, caller: Address) -> Result<(), TokenError> {
        if !self.pausable || !self.operator(ctx, caller) {
            Err(TokenError::Unauthorized)
        } else if self.paused {
            Err(TokenError::EnforcedPause)
        } else {
            Ok(())
        }
    }

    /// What `unpause` returns: `Unauthorized` unless the token is pausable
    /// and `caller` is an operator, then `ExpectedPause` if not paused.
    pub open spec fn unpause_outcome(&self, ctx: &CallContext, caller: Address) -> Result<(), TokenError> {
        if !self.pausable || !self.operator(ctx, caller) {
            Err(TokenError::Unauthorized)
        } else if !self.paused {
            Err(TokenError::ExpectedPause)
        } else {
            Ok(())
        }
    }

    /// What the list setters return: `Unauthorized` unless `caller` is an
    /// operator and the token uses a list of the kind asked for.
    pub open spec fn list_outcome(&self, ctx: &CallContext, caller: Address, block: bool) -> Result<(), TokenError> {
        let kind_ok = if block { self.list is Block } else { self.list is Allow };
        if !self.operator(ctx, caller) || !kind_ok {
            Err(TokenError::Unauthorized)
        } else {
            Ok(())
        }
    }

    /// Everything but the list and the event log is as in `old`.
    pub open spec fn same_but_list(self, old: Token) -> bool {
        &&& self.base.balances@ == old.base.balances@
        &&& self.base.allowances@ == old.base.allowances@
        &&& self.base.total_supply == old.base.total_supply
        &&& self.access == old.access
        &&& self.pausable == old.pausable
        &&& self.paused == old.paused
        &&& self.cap == old.cap
        &&& self.operator_role == old.operator_role
    }

    fn set_listed(&mut self, ctx: &CallContext, caller: Address, user: Address, block: bool, add: bool) -> (r: Result<(), TokenError>)
        ensures
            old(self).wf() ==> final(self).wf(),
            r == old(self).list_outcome(ctx, caller, block),
            r is Err ==> *final(self) == *old(self),
            r is Ok ==> {
                &&& final(self).same_but_list(*old(self))
                &&& final(self).list is Block == old(self).list is Block
                &&& final(self).list is Allow == old(self).list is Allow
                &&& forall|a: Address| #[trigger] final(self).listed(a)
                    == if a == user { add } else { old(self).listed(a) }
                &&& final(self).base.events@ == old(self).base.events@.push(
                    if block {
                        if add { Event::UserBlocked { user } } else { Event::UserUnblocked { user } }
                    } else {
                        if add { Event::UserAllowed { user } } else { Event::UserDisallowed { user } }
                    })
            },
    {
        if let Err(e) = self.access.require_operator(ctx, caller, self.operator_role) {
            return Err(e);
        }
        match &mut self.list {
            ListPolicy::Block(b) => {
                if !block {
                    return Err(TokenError::Unauthorized);
                }
                if add {
                    b.block_user(&mut self.base.events, user);
                } else {
                    b.unblock_user(&mut self.base.events, user);
                }
            },
            ListPolicy::Allow(l) => {
                if block {
                    return Err(TokenError::Unauthorized);
                }
                if add {
                    l.allow_user(&mut self.base.events, user);
                } else {
                    l.disallow_user(&mut self.base.events, user);
                }
            },
            ListPolicy::Open => {
                return Err(TokenError::Unauthorized);
            },
        }
        Ok(())
    }

    /// Allows `user`; `caller` must authorize the call and be an operator,
    /// and the token must use an allow list.
    pub fn allow_user(&mut self, ctx: &CallContext, user: Address, caller: Address) -> (r: Result<(), TokenError>)
        requires
            old(self).wf(),
        ensures
            final(self).wf(),
            r == old(self).list_outcome(ctx, caller, false),
            r is Err ==> *final(self) == *old(self),
            r is Ok ==> final(self).same_but_list(*old(self)) && final(self).list is Allow
                && (forall|a: Address| #[trigger] final(self).listed(a) == (a == user || old(self).listed(a)))
                && final(self).base.events@ == old(self).base.events@.push(Event::UserAllowed { user }),
    {
        self.set_listed(ctx, caller, user, false, true)
    }

    /// Withdraws `user`'s permission; `caller` must authorize the call and
    /// be an operator, and the token must use an allow list.
    pub fn disallow_user(&mut self, ctx: &CallContext, user: Address, caller: Address) -> (r: Result<(), TokenError>)
        requires
            old(self).wf(),
        ensures
            final(self).wf(),
            r == old(self).list_outcome(ctx, caller, false),
            r is Err ==> *final(self) == *old(self),
            r is Ok ==> final(self).same_but_list(*old(self)) && final(self).list is Allow
                && (forall|a: Address| #[trigger] final(self).listed(a) == (a != user && old(self).listed(a)))
                && final(self).base.events@ == old(self).base.events@.push(Event::UserDisallowed { user }),
    {
        self.set_listed(ctx, caller, user, false, false)
    }
}

impl Pausable for Token {
    open spec fn is_paused(&self) -> bool {
        self.paused
    }

    fn paused(&self) -> (r: bool) {
        self.paused
    }

    fn pause(&mut self, ctx: &CallContext, caller: Address) -> (r: Result<(), TokenError>)
        ensures
            old(self).wf() ==> final(self).wf(),
            r == old(self).pause_outcome(ctx, caller),
            r is Err ==> *final(self) == *old(self),
            r is Ok ==> final(self).paused && final(self).base.events@ == old(self).base.events@.push(
                Event::Paused { caller }),
            final(self).base.balances@ == old(self).base.balances@,
            final(self).base.allowances@ == old(self).base.allowances@,
            final(self).base.total_supply == old(self).base.total_supply,
            final(self).access == old(self).access,
            final(self).list == old(self).list,
            final(self).cap == old(self).cap,
    {
        if !self.pausable {
            return Err(TokenError::Unauthorized);
        }
        if let Err(e) = self.access.require_operator(ctx, caller, self.operator_role) {
            return Err(e);
        }
        if self.paused {
            return Err(PausableError::EnforcedPause.into_token_error());
        }
        self.paused = true;
        emit_paused(&mut self.base.events, &caller);
        Ok(())
    }

    fn unpause(&mut self, ctx: &CallContext, caller: Address) -> (r: Result<(), TokenError>)
        ensures
            old(self).wf() ==> final(self).wf(),
            r == old(self).unpause_outcome(ctx, caller),
            r is Err ==> *final(self) == *old(self),
            r is Ok ==> !final(self).paused && final(self).base.events@ == old(self).base.events@.push(
                Event::Unpaused { caller }),
            final(self).base.balances@ == old(self).base.balances@,
            final(self).base.allowances@ == old(self).base.allowances@,
            final(self).base.total_supply == old(self).base.total_supply,
            final(self).access == old(self).access,
            final(self).list == old(self).list,
            final(self).cap == old(self).cap,
    {
        if !self.pausable {
            return Err(TokenError::Unauthorized);
        }
        if let Err(e) = self.access.require_operator(ctx, caller, self.operator_role) {
            return Err(e);
        }
        if !self.paused {
            return Err(PausableError::ExpectedPause.into_token_error());
        }
        self.paused = false;
        emit_unpaused(&mut self.base.events, &caller);
        Ok(())
    }
}

impl FungibleBlockList for Token {
    open spec fn is_blocked(&self, account: Address) -> bool {
        self.list is Block && self.listed(account)
    }

    fn blocked(&self, account: Address) -> (r: bool) {
        match &self.list {
            ListPolicy::Block(b) => b.is_blocked(account),
            _ => false,
        }
    }

    fn block_user(&mut self, ctx: &CallContext, user: Address, operator: Address) -> (r: Result<(), TokenError>)
        ensures
            old(self).wf() ==> final(self).wf(),
            r == old(self).list_outcome(ctx, operator, true),
            r is Err ==> *final(self) == *old(self),
            r is Ok ==> final(self).same_but_list(*old(self)) && final(self).list is Block
                && (forall|a: Address| #[trigger] final(self).listed(a) == (a == user || old(self).listed(a)))
                && final(self).base.events@ == old(self).base.events@.push(Event::UserBlocked { user }),
    {
        self.set_listed(ctx, operator, user, true, true)
    }

    fn unblock_user(&mut self, ctx: &CallContext, user: Address, operator: Address) -> (r: Result<(), TokenError>)
        ensures
            old(self).wf() ==> final(self).wf(),
            r == old(self).list_outcome(ctx, operator, true),
            r is Err ==> *final(self) == *old(self),
            r is Ok ==> final(self).same_but_list(*old(self)) && final(self).list is Block
                && (forall|a: Address| #[trigger] final(self).listed(a) == (a != user && old(self).listed(a)))
                && final(self).base.events@ == old(self).base.events@.push(Event::UserUnblocked { user }),
    {
        self.set_listed(ctx, operator, user, true, false)
    }
}

} // verus!
