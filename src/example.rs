use vstd::prelude::*;
use crate::error::TokenError;
use crate::ledger::Base;
use crate::types::{Address, CallContext};

verus! {

/// Keys under which the owned token contract keeps its instance data.
#[derive(Clone, Copy, Debug, PartialEq, Eq, Structural)]
pub enum DataKey {
    Owner,
}

/// A fungible token with one owner, who alone may mint.
pub struct ExampleContract {
    pub owner: Address,
    pub decimals: u32,
    pub name: String,
    pub symbol: String,
    pub base: Base,
}

impl ExampleContract {
    /// Sets up the token: `owner` as its owner, seven decimals, named
    /// "My Token" with symbol "TKN", and an empty ledger.
    #[allow(non_snake_case)]
    pub fn __constructor(owner: Address) -> (r: ExampleContract)
        ensures
            r.owner == owner,
            r.decimals == 7,
            r.name@ == "My Token"@,
            r.symbol@ == "TKN"@,
            r.base.wf(),
            r.base.total_supply == 0,
            forall|a: Address| r.base.balance_of(a) == 0,
    {
        ExampleContract {
            owner,
            decimals: 7,
            name: String::from_str("My Token"),
            symbol: String::from_str("TKN"),
            base: Base::new(),
        }
    }

    /// Creates `amount` units for `to`; the owner must authorize the call.
    pub fn mint(&mut self, ctx: &CallContext, to: Address, amount: i128) -> (r: Result<(), TokenError>)
        requires
            old(self).base.wf(),
        ensures
            final(self).base.wf(),
            final(self).owner == old(self).owner,
            r == (if !ctx.authorized(old(self).owner) {
                Err(TokenError::Unauthorized)
            } else {
                Base::update_outcome(old(self).base, None, Some(to), amount)
            }),
            r is Err ==> final(self).base == old(self).base,
            r is Ok ==> final(self).base.moved(old(self).base, None, Some(to), amount),
    {
        if !ctx.is_authorized(self.owner) {
            return Err(TokenError::Unauthorized);
        }
        self.base.mint(to, amount)
    }
}

} // verus!
