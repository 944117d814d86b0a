use vstd::prelude::*;
use crate::error::TokenError;
use crate::types::{Address, CallContext};

verus! {

/// A token whose transfers a block list can stop. A blocked account can
/// neither send nor receive.
pub trait FungibleBlockList {
    spec fn is_blocked(&self, account: Address) -> bool;

    /// Whether `account` is blocked.
    fn blocked(&self, account: Address) -> (r: bool)
        ensures
            r == self.is_blocked(account);

    /// Blocks `user`; `operator` must be allowed to manage the list.
    fn block_user(&mut self, ctx: &CallContext, user: Address, operator: Address) -> (r: Result<(), TokenError>)
        ensures
            r is Ok ==> final(self).is_blocked(user),
            r is Ok ==> forall|a: Address| a != user ==> #[trigger] final(self).is_blocked(a) == old(self).is_blocked(a);

    /// Unblocks `user`; `operator` must be allowed to manage the list.
    fn unblock_user(&mut self, ctx: &CallContext, user: Address, operator: Address) -> (r: Result<(), TokenError>)
        ensures
            r is Ok ==> !final(self).is_blocked(user),
            r is Ok ==> forall|a: Address| a != user ==> #[trigger] final(self).is_blocked(a) == old(self).is_blocked(a);
}

} // verus!
