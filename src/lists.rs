use std::collections::HashSet;
use vstd::prelude::*;
use crate::events::{emit_user_blocked, emit_user_unblocked, Event};
use crate::types::Address;

verus! {

broadcast use vstd::std_specs::hash::group_hash_axioms;

/// The block list: a listed address may neither send nor receive.
pub struct BlockListImpl {
    pub blocked: HashSet<u64>,
}

/// The allow list: only a listed address may send or receive.
pub struct AllowListImpl {
    pub allowed: HashSet<u64>,
}

impl BlockListImpl {
    pub open spec fn lists(&self, a: Address) -> bool {
        self.blocked@.contains(a.0)
    }

    pub fn new() -> (r: BlockListImpl)
        ensures
            forall|a: Address| !r.lists(a),
    {
        BlockListImpl { blocked: HashSet::new() }
    }

    /// Whether `account` is blocked.
    pub fn is_blocked(&self, account: Address) -> (r: bool)
        ensures
            r == self.lists(account),
    {
        self.blocked.contains(&account.0)
    }

    /// Blocks `user` and records the event.
    pub fn block_user(&mut self, log: &mut Vec<Event>, user: Address)
        ensures
            forall|a: Address| #[trigger] final(self).lists(a) == (a == user || old(self).lists(a)),
            final(log)@ == old(log)@.push(Event::UserBlocked { user }),
    {
        self.blocked.insert(user.0);
        emit_user_blocked(log, &user);
    }

    /// Unblocks `user` and records the event.
    pub fn unblock_user(&mut self, log: &mut Vec<Event>, user: Address)
        ensures
            forall|a: Address| #[trigger] final(self).lists(a) == (a != user && old(self).lists(a)),
            final(log)@ == old(log)@.push(Event::UserUnblocked { user }),
    {
        self.blocked.remove(&user.0);
        emit_user_unblocked(log, &user);
    }
}

impl AllowListImpl {
    pub open spec fn lists(&self, a: Address) -> bool {
        self.allowed@.contains(a.0)
    }

    pub fn new() -> (r: AllowListImpl)
        ensures
            forall|a: Address| !r.lists(a),
    {
        AllowListImpl { allowed: HashSet::new() }
    }

    /// Whether `account` is allowed.
    pub fn is_allowed(&self, account: Address) -> (r: bool)
        ensures
            r == self.lists(account),
    {
        self.allowed.contains(&account.0)
    }

    /// Allows `user` and records the event.
    pub fn allow_user(&mut self, log: &mut Vec<Event>, user: Address)
        ensures
            forall|a: Address| #[trigger] final(self).lists(a) == (a == user || old(self).lists(a)),
            final(log)@ == old(log)@.push(Event::UserAllowed { user }),
    {
        self.allowed.insert(user.0);
        log.push(Event::UserAllowed { user });
    }

    /// Withdraws `user`'s permission and records the event.
    pub fn disallow_user(&mut self, log: &mut Vec<Event>, user: Address)
        ensures
            forall|a: Address| #[trigger] final(self).lists(a) == (a != user && old(self).lists(a)),
            final(log)@ == old(log)@.push(Event::UserDisallowed { user }),
    {
        self.allowed.remove(&user.0);
        log.push(Event::UserDisallowed { user });
    }
}

/// Which membership list, if any, gates transfers.
pub enum ListPolicy {
    Open,
    Block(BlockListImpl),
    Allow(AllowListImpl),
}

} // verus!
