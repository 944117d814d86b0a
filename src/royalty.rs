use std::collections::HashMap;
use vstd::prelude::*;
use vstd::arithmetic::div_mod::{lemma_fundamental_div_mod, lemma_hoist_over_denominator};
use crate::access::AccessControl;
use crate::error::TokenError;
use crate::types::{Address, CallContext, Role};

verus! {

broadcast use vstd::std_specs::hash::group_hash_axioms;

/// Basis points in a whole.
pub const BASIS_POINTS_WHOLE: u32 = 10000;

/// Who receives the resale fee, and how many basis points of the price it is.
#[derive(Clone, Copy, Debug, PartialEq, Eq, Structural)]
pub struct RoyaltyInfo {
    pub receiver: Address,
    pub basis_points: u32,
}

/// Royalty configuration of a collection: a default record and records for
/// single tokens, which override the default.
pub struct Royalties {
    pub default_royalty: Option<RoyaltyInfo>,
    pub token_royalties: HashMap<u32, RoyaltyInfo>,
    /// Besides the admin, the members of this role may change the records.
    pub manager: Option<Role>,
}

/// The fee on a sale at `price`: `price * basis_points / 10000`, truncated.
pub open spec fn royalty_amount(price: int, basis_points: int) -> int {
    price * basis_points / 10000
}

proof fn lemma_royalty_split(p: int, b: int)
    requires
        0 <= p,
        0 <= b <= 10000,
    ensures
        (p / 10000) * b + ((p % 10000) * b) / 10000 == royalty_amount(p, b),
        0 <= (p / 10000) * b <= p,
        0 <= (p % 10000) * b < 100000000,
        royalty_amount(p, b) <= p,
{
    let q = p / 10000;
    let r = p % 10000;
    lemma_fundamental_div_mod(p, 10000);
    assert(0 <= r < 10000);
    assert(0 <= q);
    assert(p * b == r * b + (q * b) * 10000) by (nonlinear_arith)
        requires p == 10000 * q + r;
    lemma_hoist_over_denominator(r * b, q * b, 10000);
    assert(0 <= q * b <= q * 10000) by (nonlinear_arith)
        requires 0 <= q, 0 <= b <= 10000;
    assert(0 <= r * b < 100000000) by (nonlinear_arith)
        requires 0 <= r < 10000, 0 <= b <= 10000;
    assert(p * b <= p * 10000) by (nonlinear_arith)
        requires 0 <= p, b <= 10000;
    assert((p * b) / 10000 <= p) by (nonlinear_arith)
        requires 0 <= p * b <= p * 10000;
}

impl Royalties {
    /// Every record has at most a whole in basis points.
    pub open spec fn wf(&self) -> bool {
        &&& (self.default_royalty matches Some(d) ==> d.basis_points <= 10000)
        &&& forall|t: u32| #[trigger] self.token_royalties@.contains_key(t)
            ==> self.token_royalties@[t].basis_points <= 10000
    }

    /// The record that applies to `token_id`.
    pub open spec fn record_for(&self, token_id: u32) -> Option<RoyaltyInfo> {
        if self.token_royalties@.contains_key(token_id) {
            Some(self.token_royalties@[token_id])
        } else {
            self.default_royalty
        }
    }

    /// No record yet.
    pub fn new(manager: Option<Role>) -> (r: Royalties)
        ensures
            r.wf(),
            r.manager == manager,
            forall|t: u32| r.record_for(t) is None,
    {
        Royalties { default_royalty: None, token_royalties: HashMap::new(), manager }
    }

    /// The receiver and the fee on a sale of `token_id` at `sale_price`:
    /// from the token's own record where one is set, else from the default;
    /// no receiver and zero where neither is.
    pub fn royalty_info(&self, token_id: u32, sale_price: i128) -> (r: Result<(Option<Address>, i128), TokenError>)
        requires
            self.wf(),
        ensures
            r == (if sale_price < 0 {
                Err(TokenError::LessThanZero)
            } else {
                match self.record_for(token_id) {
                    Some(info) => Ok((Some(info.receiver),
                        royalty_amount(sale_price as int, info.basis_points as int) as i128)),
                    None => Ok((None, 0i128)),
                }
            }),
    {
        if sale_price < 0 {
            return Err(TokenError::LessThanZero);
        }
        let record = match self.token_royalties.get(&token_id) {
            Some(info) => Some(*info),
            None => self.default_royalty,
        };
        match record {
            Some(info) => {
                let b = info.basis_points as i128;
                proof {
                    lemma_royalty_split(sale_price as int, b as int);
                }
                let amount = (sale_price / 10000) * b + ((sale_price % 10000) * b) / 10000;
                Ok((Some(info.receiver), amount))
            },
            None => Ok((None, 0)),
        }
    }

    fn check_setter(&self, access: &AccessControl, ctx: &CallContext, operator: Address, basis_points: u32) -> (r: Result<(), TokenError>)
        ensures
            r == Royalties::setter_outcome(*self, *access, ctx, operator, basis_points),
    {
        if let Err(e) = access.require_operator(ctx, operator, self.manager) {
            return Err(e);
        }
        if basis_points > BASIS_POINTS_WHOLE {
            return Err(TokenError::InvalidBasisPoints);
        }
        Ok(())
    }

    /// What a setter returns: `Unauthorized` unless `operator` authorized
    /// the call and is the admin or a manager, then `InvalidBasisPoints`
    /// above a whole.
    pub open spec fn setter_outcome(
        r: Royalties,
        access: AccessControl,
        ctx: &CallContext,
        operator: Address,
        basis_points: u32,
    ) -> Result<(), TokenError> {
        if !access.operator_ok(ctx, operator, r.manager) {
            Err(TokenError::Unauthorized)
        } else if basis_points > 10000 {
            Err(TokenError::InvalidBasisPoints)
        } else {
            Ok(())
        }
    }

    /// Sets the record that applies to every token without its own.
    pub fn set_default_royalty(
        &mut self,
        access: &AccessControl,
        ctx: &CallContext,
        operator: Address,
        receiver: Address,
        basis_points: u32,
    ) -> (r: Result<(), TokenError>)
        requires
            old(self).wf(),
        ensures
            final(self).wf(),
            r == Royalties::setter_outcome(*old(self), *access, ctx, operator, basis_points),
            r is Err ==> *final(self) == *old(self),
            r is Ok ==> final(self).default_royalty == Some(RoyaltyInfo { receiver, basis_points })
                && final(self).token_royalties@ == old(self).token_royalties@
                && final(self).manager == old(self).manager,
    {
        if let Err(e) = self.check_setter(access, ctx, operator, basis_points) {
            return Err(e);
        }
        self.default_royalty = Some(RoyaltyInfo { receiver, basis_points });
        Ok(())
    }

    /// Sets the record of `token_id`, which overrides the default.
    pub fn set_token_royalty(
        &mut self,
        access: &AccessControl,
        ctx: &CallContext,
        operator: Address,
        token_id: u32,
        receiver: Address,
        basis_points: u32,
    ) -> (r: Result<(), TokenError>)
        requires
            old(self).wf(),
        ensures
            final(self).wf(),
            r == Royalties::setter_outcome(*old(self), *access, ctx, operator, basis_points),
            r is Err ==> *final(self) == *old(self),
            r is Ok ==> final(self).token_royalties@ == old(self).token_royalties@.insert(
                token_id, RoyaltyInfo { receiver, basis_points })
                && final(self).default_royalty == old(self).default_royalty
                && final(self).manager == old(self).manager,
    {
        if let Err(e) = self.check_setter(access, ctx, operator, basis_points) {
            return Err(e);
        }
        self.token_royalties.insert(token_id, RoyaltyInfo { receiver, basis_points });
        Ok(())
    }

    /// Removes the record of `token_id`, so that the default applies again.
    pub fn remove_token_royalty(
        &mut self,
        access: &AccessControl,
        ctx: &CallContext,
        operator: Address,
        token_id: u32,
    ) -> (r: Result<(), TokenError>)
        requires
            old(self).wf(),
        ensures
            final(self).wf(),
            r == Royalties::setter_outcome(*old(self), *access, ctx, operator, 0),
            r is Err ==> *final(self) == *old(self),
            r is Ok ==> final(self).token_royalties@ == old(self).token_royalties@.remove(token_id)
                && final(self).default_royalty == old(self).default_royalty
                && final(self).manager == old(self).manager,
    {
        if let Err(e) = access.require_operator(ctx, operator, self.manager) {
            return Err(e);
        }
        self.token_royalties.remove(&token_id);
        Ok(())
    }
}

} // verus!
