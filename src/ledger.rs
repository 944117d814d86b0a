use std::collections::HashMap;
use vstd::prelude::*;
use crate::error::TokenError;
use crate::events::Event;
use crate::sum::{balance_sum, lemma_sum_insert, lemma_value_le_sum, value_at};
use crate::types::{lemma_pair_key_injective, make_pair_key, pair_key, Address, CallContext};

verus! {

broadcast use vstd::std_specs::hash::group_hash_axioms;

/// A delegated spending right: how much is left and the last ledger on which
/// it can be spent.
#[derive(Clone, Copy, Debug, PartialEq, Eq, Structural)]
pub struct AllowanceData {
    pub amount: i128,
    pub live_until_ledger: u32,
}

/// The base ledger of a fungible token: balances, allowances and the total
/// supply, with the operations that keep them consistent and a log of the
/// events they produced.
pub struct Base {
    pub balances: HashMap<u64, i128>,
    pub allowances: HashMap<u128, AllowanceData>,
    pub total_supply: i128,
    pub events: Vec<Event>,
}

/// How much `a` gains from moving `amount` out of `from` into `to`.
pub open spec fn delta(from: Option<Address>, to: Option<Address>, amount: int, a: Address) -> int {
    (if to == Some(a) { amount } else { 0 }) - (if from == Some(a) { amount } else { 0 })
}

impl Base {
    /// Balances are never negative, the total supply is their sum, and no
    /// allowance is negative.
    pub open spec fn wf(&self) -> bool {
        &&& self.balances@.dom().finite()
        &&& forall|k: u64| #[trigger] self.balances@.contains_key(k) ==> self.balances@[k] >= 0
        &&& self.total_supply == balance_sum(self.balances@)
        &&& self.total_supply >= 0
        &&& forall|k: u128| #[trigger] self.allowances@.contains_key(k) ==> self.allowances@[k].amount >= 0
    }

    pub open spec fn balance_of(&self, a: Address) -> int {
        value_at(self.balances@, a.0)
    }

    pub open spec fn allowance_entry(&self, owner: Address, spender: Address) -> Option<AllowanceData> {
        let k = pair_key(owner.0, spender.0);
        if self.allowances@.contains_key(k) {
            Some(self.allowances@[k])
        } else {
            None
        }
    }

    /// The allowance that `spender` may still spend from `owner` on ledger
    /// `now`: zero once it has expired.
    pub open spec fn allowance_of(&self, owner: Address, spender: Address, now: u32) -> int {
        match self.allowance_entry(owner, spender) {
            Some(d) => if d.live_until_ledger >= now { d.amount as int } else { 0 },
            None => 0,
        }
    }

    /// What `update` returns on this ledger.
    pub open spec fn update_outcome(old: Base, from: Option<Address>, to: Option<Address>, amount: i128) -> Result<(), TokenError> {
        if amount < 0 {
            Err(TokenError::LessThanZero)
        } else if from is Some && old.balance_of(from->0) < amount {
            Err(TokenError::InsufficientBalance)
        } else if from is None && old.total_supply + amount > i128::MAX {
            Err(TokenError::MathOverflow)
        } else {
            Ok(())
        }
    }

    /// What `approve` returns.
    pub open spec fn approve_outcome(ctx: &CallContext, owner: Address, amount: i128, live_until_ledger: u32) -> Result<(), TokenError> {
        if !ctx.authorized(owner) {
            Err(TokenError::Unauthorized)
        } else if amount < 0 {
            Err(TokenError::LessThanZero)
        } else if amount > 0 && live_until_ledger < ctx.ledger {
            Err(TokenError::InvalidExpiration)
        } else {
            Ok(())
        }
    }

    /// What a spend from an allowance followed by `update` returns.
    pub open spec fn spend_outcome(
        old: Base,
        ctx: &CallContext,
        spender: Address,
        from: Address,
        to: Option<Address>,
        amount: i128,
    ) -> Result<(), TokenError> {
        if !ctx.authorized(spender) {
            Err(TokenError::Unauthorized)
        } else if amount < 0 {
            Err(TokenError::LessThanZero)
        } else if old.allowance_of(from, spender, ctx.ledger) < amount {
            Err(TokenError::InsufficientAllowance)
        } else if old.balance_of(from) < amount {
            Err(TokenError::InsufficientBalance)
        } else {
            Ok(())
        }
    }

    /// `self` is `old` after `amount` moved out of `from` into `to`, with
    /// allowances untouched and one transfer event recorded.
    pub open spec fn moved(self, old: Base, from: Option<Address>, to: Option<Address>, amount: i128) -> bool {
        &&& forall|a: Address| #[trigger] self.balance_of(a) == old.balance_of(a) + delta(from, to, amount as int, a)
        &&& self.total_supply == old.total_supply
            + (if from is None { amount as int } else { 0 })
            - (if to is None { amount as int } else { 0 })
        &&& self.allowances@ == old.allowances@
        &&& self.events@ == old.events@.push(Event::Transfer { from, to, amount })
    }

    /// `self` is `old` with `amount` taken off the allowance of `spender`
    /// over `owner`'s balance, and nothing else changed.
    pub open spec fn spent(self, old: Base, ledger: u32, owner: Address, spender: Address, amount: i128) -> bool {
        &&& self.balances@ == old.balances@
        &&& self.total_supply == old.total_supply
        &&& self.events@ == old.events@
        &&& self.allowance_of(owner, spender, ledger) == old.allowance_of(owner, spender, ledger) - amount
        &&& forall|o: Address, s: Address| !(o == owner && s == spender)
            ==> #[trigger] self.allowance_entry(o, s) == old.allowance_entry(o, s)
    }

    /// `self` is `old` after a spend from `spender`'s allowance over
    /// `from`'s balance and the matching move.
    pub open spec fn spent_and_moved(
        self,
        old: Base,
        ledger: u32,
        spender: Address,
        from: Address,
        to: Option<Address>,
        amount: i128,
    ) -> bool {
        &&& forall|a: Address| #[trigger] self.balance_of(a) == old.balance_of(a) + delta(Some(from), to, amount as int, a)
        &&& self.total_supply == old.total_supply - (if to is None { amount as int } else { 0 })
        &&& self.allowance_of(from, spender, ledger) == old.allowance_of(from, spender, ledger) - amount
        &&& forall|o: Address, s: Address| !(o == from && s == spender)
            ==> #[trigger] self.allowance_entry(o, s) == old.allowance_entry(o, s)
        &&& self.events@ == old.events@.push(Event::Transfer { from: Some(from), to, amount })
    }

    /// An empty ledger.
    pub fn new() -> (r: Base)
        ensures
            r.wf(),
            r.total_supply == 0,
            forall|a: Address| r.balance_of(a) == 0,
            forall|o: Address, s: Address| r.allowance_entry(o, s) is None,
            r.events@ == Seq::<Event>::empty(),
    {
        let r = Base {
            balances: HashMap::new(),
            allowances: HashMap::new(),
            total_supply: 0,
            events: Vec::new(),
        };
        assert(r.balances@.dom() =~= Set::<u64>::empty());
        r
    }

    /// The balance of `account`.
    pub fn balance(&self, account: Address) -> (r: i128)
        ensures
            r == self.balance_of(account),
    {
        match self.balances.get(&account.0) {
            Some(v) => *v,
            None => 0,
        }
    }

    /// The total number of units issued.
    pub fn total_supply(&self) -> (r: i128)
        ensures
            r == self.total_supply,
    {
        self.total_supply
    }

    /// What `spender` may still spend from `owner` on ledger `ledger`.
    pub fn allowance(&self, ledger: u32, owner: Address, spender: Address) -> (r: i128)
        ensures
            r == self.allowance_of(owner, spender, ledger),
    {
        let k = make_pair_key(owner.0, spender.0);
        match self.allowances.get(&k) {
            Some(d) => if d.live_until_ledger >= ledger { d.amount } else { 0 },
            None => 0,
        }
    }

    fn set_allowance_entry(&mut self, owner: Address, spender: Address, d: AllowanceData)
        requires
            old(self).wf(),
            d.amount >= 0,
        ensures
            final(self).wf(),
            final(self).balances@ == old(self).balances@,
            final(self).total_supply == old(self).total_supply,
            final(self).events@ == old(self).events@,
            forall|o: Address, s: Address| #[trigger] final(self).allowance_entry(o, s)
                == if o == owner && s == spender { Some(d) } else { old(self).allowance_entry(o, s) },
    {
        let k = make_pair_key(owner.0, spender.0);
        self.allowances.insert(k, d);
        assert forall|o: Address, s: Address| #[trigger] self.allowance_entry(o, s)
            == if o == owner && s == spender { Some(d) } else { old(self).allowance_entry(o, s) } by {
            lemma_pair_key_injective(o.0, s.0, owner.0, spender.0);
        }
    }

    /// The shared primitive behind transfers, mints and burns: debits `from`
    /// if present, credits `to` if present, and changes the total supply only
    /// when one side is absent. Records a transfer event.
    pub fn update(&mut self, from: Option<Address>, to: Option<Address>, amount: i128) -> (r: Result<(), TokenError>)
        requires
            old(self).wf(),
        ensures
            final(self).wf(),
            r == Base::update_outcome(*old(self), from, to, amount),
            r is Err ==> *final(self) == *old(self),
            r is Ok ==> final(self).moved(*old(self), from, to, amount),
    {
        if amount < 0 {
            return Err(TokenError::LessThanZero);
        }
        match from {
            Some(f) => {
                if self.balance(f) < amount {
                    return Err(TokenError::InsufficientBalance);
                }
            },
            None => {
                if self.total_supply > i128::MAX - amount {
                    return Err(TokenError::MathOverflow);
                }
            },
        }
        let ghost before = self.balances@;
        match from {
            Some(f) => {
                let fb = self.balance(f);
                proof {
                    lemma_sum_insert(self.balances@, f.0, (fb - amount) as i128);
                }
                self.balances.insert(f.0, fb - amount);
            },
            None => {
                self.total_supply = self.total_supply + amount;
            },
        }
        let ghost mid = self.balances@;
        // here the supply exceeds the sum of the balances by `amount`
        assert(self.total_supply == balance_sum(mid) + amount);
        match to {
            Some(t) => {
                let tb = self.balance(t);
                proof {
                    lemma_value_le_sum(mid, t.0);
                    lemma_sum_insert(mid, t.0, (tb + amount) as i128);
                }
                self.balances.insert(t.0, tb + amount);
            },
            None => {
                proof {
                    lemma_value_le_sum(mid, 0);
                }
                self.total_supply = self.total_supply - amount;
            },
        }
        self.events.push(Event::Transfer { from, to, amount });
        proof {
            lemma_value_le_sum(self.balances@, 0);
        }
        assert forall|a: Address| #[trigger] self.balance_of(a)
            == old(self).balance_of(a) + delta(from, to, amount as int, a) by {
            assert(value_at(self.balances@, a.0) == value_at(before, a.0) + delta(from, to, amount as int, a));
        }
        Ok(())
    }

    /// Moves `amount` from `from` to `to`; `from` must authorize the call.
    pub fn transfer(&mut self, ctx: &CallContext, from: Address, to: Address, amount: i128) -> (r: Result<(), TokenError>)
        requires
            old(self).wf(),
        ensures
            final(self).wf(),
            r == Err::<(), TokenError>(TokenError::Unauthorized) <==> !ctx.authorized(from),
            r is Err ==> *final(self) == *old(self),
            ctx.authorized(from) ==> r == Base::update_outcome(*old(self), Some(from), Some(to), amount),
            r is Ok ==> final(self).moved(*old(self), Some(from), Some(to), amount),
    {
        if !ctx.is_authorized(from) {
            return Err(TokenError::Unauthorized);
        }
        self.update(Some(from), Some(to), amount)
    }

    /// Creates `amount` new units for `to`. The caller decides who may mint.
    pub fn mint(&mut self, to: Address, amount: i128) -> (r: Result<(), TokenError>)
        requires
            old(self).wf(),
        ensures
            final(self).wf(),
            r == Base::update_outcome(*old(self), None, Some(to), amount),
            r is Err ==> *final(self) == *old(self),
            r is Ok ==> final(self).moved(*old(self), None, Some(to), amount),
    {
        self.update(None, Some(to), amount)
    }

    /// Destroys `amount` units held by `from`; `from` must authorize the call.
    pub fn burn(&mut self, ctx: &CallContext, from: Address, amount: i128) -> (r: Result<(), TokenError>)
        requires
            old(self).wf(),
        ensures
            final(self).wf(),
            r == Err::<(), TokenError>(TokenError::Unauthorized) <==> !ctx.authorized(from),
            r is Err ==> *final(self) == *old(self),
            ctx.authorized(from) ==> r == Base::update_outcome(*old(self), Some(from), None, amount),
            r is Ok ==> final(self).moved(*old(self), Some(from), None, amount),
    {
        if !ctx.is_authorized(from) {
            return Err(TokenError::Unauthorized);
        }
        self.update(Some(from), None, amount)
    }

    /// Lets `spender` spend up to `amount` of `owner`'s balance until ledger
    /// `live_until_ledger`; `owner` must authorize the call. A zero amount
    /// may carry any expiration; a positive one may not lie in the past.
    pub fn approve(
        &mut self,
        ctx: &CallContext,
        owner: Address,
        spender: Address,
        amount: i128,
        live_until_ledger: u32,
    ) -> (r: Result<(), TokenError>)
        requires
            old(self).wf(),
        ensures
            final(self).wf(),
            r == Base::approve_outcome(ctx, owner, amount, live_until_ledger),
            r is Err ==> *final(self) == *old(self),
            r is Ok ==> {
                &&& final(self).balances@ == old(self).balances@
                &&& final(self).total_supply == old(self).total_supply
                &&& forall|o: Address, s: Address| #[trigger] final(self).allowance_entry(o, s)
                    == if o == owner && s == spender {
                        Some(AllowanceData { amount, live_until_ledger })
                    } else {
                        old(self).allowance_entry(o, s)
                    }
                &&& final(self).events@ == old(self).events@.push(
                    Event::Approve { owner, spender, amount, live_until_ledger })
            },
    {
        if !ctx.is_authorized(owner) {
            return Err(TokenError::Unauthorized);
        }
        if amount < 0 {
            return Err(TokenError::LessThanZero);
        }
        if amount > 0 && live_until_ledger < ctx.ledger {
            return Err(TokenError::InvalidExpiration);
        }
        self.events.push(Event::Approve { owner, spender, amount, live_until_ledger });
        self.set_allowance_entry(owner, spender, AllowanceData { amount, live_until_ledger });
        Ok(())
    }

    /// Takes `amount` off what `spender` may spend from `owner`, keeping the
    /// expiration. Fails when less than `amount` is left.
    pub fn spend_allowance(&mut self, ledger: u32, owner: Address, spender: Address, amount: i128) -> (r: Result<(), TokenError>)
        requires
            old(self).wf(),
        ensures
            final(self).wf(),
            r == (if amount < 0 {
                Err(TokenError::LessThanZero)
            } else if old(self).allowance_of(owner, spender, ledger) < amount {
                Err(TokenError::InsufficientAllowance)
            } else {
                Ok(())
            }),
            r is Err ==> *final(self) == *old(self),
            r is Ok ==> final(self).spent(*old(self), ledger, owner, spender, amount),
    {
        if amount < 0 {
            return Err(TokenError::LessThanZero);
        }
        let current = self.allowance(ledger, owner, spender);
        if current < amount {
            return Err(TokenError::InsufficientAllowance);
        }
        if amount > 0 {
            let k = make_pair_key(owner.0, spender.0);
            let live = match self.allowances.get(&k) {
                Some(d) => d.live_until_ledger,
                None => 0,
            };
            self.set_allowance_entry(owner, spender, AllowanceData { amount: current - amount, live_until_ledger: live });
        }
        Ok(())
    }

    /// Moves `amount` from `from` to `to` out of `spender`'s allowance;
    /// `spender` must authorize the call. The allowance goes down by exactly
    /// `amount`.
    pub fn transfer_from(
        &mut self,
        ctx: &CallContext,
        spender: Address,
        from: Address,
        to: Address,
        amount: i128,
    ) -> (r: Result<(), TokenError>)
        requires
            old(self).wf(),
        ensures
            final(self).wf(),
            r == Base::spend_outcome(*old(self), ctx, spender, from, Some(to), amount),
            r is Err ==> *final(self) == *old(self),
            r is Ok ==> final(self).spent_and_moved(*old(self), ctx.ledger, spender, from, Some(to), amount),
    {
        self.spend_and_update(ctx, spender, from, Some(to), amount)
    }

    /// Destroys `amount` units of `from` out of `spender`'s allowance;
    /// `spender` must authorize the call.
    pub fn burn_from(&mut self, ctx: &CallContext, spender: Address, from: Address, amount: i128) -> (r: Result<(), TokenError>)
        requires
            old(self).wf(),
        ensures
            final(self).wf(),
            r == Base::spend_outcome(*old(self), ctx, spender, from, None, amount),
            r is Err ==> *final(self) == *old(self),
            r is Ok ==> final(self).spent_and_moved(*old(self), ctx.ledger, spender, from, None, amount),
    {
        self.spend_and_update(ctx, spender, from, None, amount)
    }

    fn spend_and_update(
        &mut self,
        ctx: &CallContext,
        spender: Address,
        from: Address,
        to: Option<Address>,
        amount: i128,
    ) -> (r: Result<(), TokenError>)
        requires
            old(self).wf(),
        ensures
            final(self).wf(),
            r == Base::spend_outcome(*old(self), ctx, spender, from, to, amount),
            r is Err ==> *final(self) == *old(self),
            r is Ok ==> final(self).spent_and_moved(*old(self), ctx.ledger, spender, from, to, amount),
    {
        if !ctx.is_authorized(spender) {
            return Err(TokenError::Unauthorized);
        }
        if amount < 0 {
            return Err(TokenError::LessThanZero);
        }
        if self.allowance(ctx.ledger, from, spender) < amount {
            return Err(TokenError::InsufficientAllowance);
        }
        if self.balance(from) < amount {
            return Err(TokenError::InsufficientBalance);
        }
        let ghost s0 = *self;
        let spent = self.spend_allowance(ctx.ledger, from, spender, amount);
        let ghost s1 = *self;
        assert(spent is Ok);
        assert(s1.balance_of(from) == s0.balance_of(from));
        let moved = self.update(Some(from), to, amount);
        assert(moved is Ok);
        assert forall|o: Address, s: Address| !(o == from && s == spender)
            implies #[trigger] self.allowance_entry(o, s) == s0.allowance_entry(o, s) by {
            assert(self.allowance_entry(o, s) == s1.allowance_entry(o, s));
        }
        Ok(())
    }
}

} // verus!
