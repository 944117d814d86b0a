use std::collections::{HashMap, HashSet};
use vstd::prelude::*;
use crate::error::TokenError;
use crate::types::{lemma_pair_key_injective, make_pair_key, pair_key, Address, CallContext, Role};

verus! {

broadcast use vstd::std_specs::hash::group_hash_axioms;

/// The admin address and the role memberships of a contract.
pub struct AccessControl {
    pub admin: Option<Address>,
    /// Keys `pair_key(role, account)` of the memberships.
    pub members: HashSet<u128>,
    /// For each role, the role whose members may grant and revoke it.
    pub role_admins: HashMap<u64, u64>,
}

impl AccessControl {
    pub open spec fn holds(&self, role: Role, account: Address) -> bool {
        self.members@.contains(pair_key(role.0, account.0))
    }

    pub open spec fn manager_of(&self, role: Role) -> Option<Role> {
        if self.role_admins@.contains_key(role.0) {
            Some(Role(self.role_admins@[role.0]))
        } else {
            None
        }
    }

    /// `caller` may grant and revoke `role`: it is the admin, or holds the
    /// role that manages `role`.
    pub open spec fn may_manage(&self, caller: Address, role: Role) -> bool {
        self.admin == Some(caller) || match self.manager_of(role) {
            Some(m) => self.holds(m, caller),
            None => false,
        }
    }

    /// The admin authorized the current call.
    pub open spec fn admin_authorized(&self, ctx: &CallContext) -> bool {
        match self.admin {
            Some(a) => ctx.authorized(a),
            None => false,
        }
    }

    /// `caller` authorized the call and is the admin, or holds `role`.
    pub open spec fn operator_ok(&self, ctx: &CallContext, caller: Address, role: Option<Role>) -> bool {
        &&& ctx.authorized(caller)
        &&& (self.admin == Some(caller) || match role {
            Some(g) => self.holds(g, caller),
            None => false,
        })
    }

    /// Fails with `Unauthorized` unless `caller` authorized the call and is
    /// the admin, or holds `role`.
    pub fn require_operator(&self, ctx: &CallContext, caller: Address, role: Option<Role>) -> (r: Result<(), TokenError>)
        ensures
            r is Ok <==> self.operator_ok(ctx, caller, role),
            r is Err ==> r == Err::<(), TokenError>(TokenError::Unauthorized),
    {
        if !ctx.is_authorized(caller) {
            return Err(TokenError::Unauthorized);
        }
        if self.admin == Some(caller) {
            return Ok(());
        }
        match role {
            Some(g) => if self.has_role(g, caller) { Ok(()) } else { Err(TokenError::Unauthorized) },
            None => Err(TokenError::Unauthorized),
        }
    }

    /// No admin, no roles.
    pub fn new() -> (r: AccessControl)
        ensures
            r.admin is None,
            r.members@ == Set::<u128>::empty(),
            r.role_admins@ == Map::<u64, u64>::empty(),
            forall|role: Role, a: Address| !r.holds(role, a),
            forall|role: Role| r.manager_of(role) is None,
    {
        AccessControl { admin: None, members: HashSet::new(), role_admins: HashMap::new() }
    }

    /// The admin, if one was set.
    pub fn admin(&self) -> (r: Option<Address>)
        ensures
            r == self.admin,
    {
        self.admin
    }

    /// Whether `account` holds `role`.
    pub fn has_role(&self, role: Role, account: Address) -> (r: bool)
        ensures
            r == self.holds(role, account),
    {
        self.members.contains(&make_pair_key(role.0, account.0))
    }

    /// The role that manages `role`, if one was set.
    pub fn role_admin(&self, role: Role) -> (r: Option<Role>)
        ensures
            r == self.manager_of(role),
    {
        match self.role_admins.get(&role.0) {
            Some(m) => Some(Role(*m)),
            None => None,
        }
    }

    /// Fails with `Unauthorized` unless an admin is set and authorized the
    /// current call.
    pub fn require_admin(&self, ctx: &CallContext) -> (r: Result<(), TokenError>)
        ensures
            r is Ok <==> self.admin_authorized(ctx),
            r is Err ==> r == Err::<(), TokenError>(TokenError::Unauthorized),
    {
        match self.admin {
            Some(a) => if ctx.is_authorized(a) { Ok(()) } else { Err(TokenError::Unauthorized) },
            None => Err(TokenError::Unauthorized),
        }
    }

    /// Fails with `Unauthorized` unless `account` authorized the current
    /// call and holds `role`.
    pub fn require_role(&self, ctx: &CallContext, role: Role, account: Address) -> (r: Result<(), TokenError>)
        ensures
            r is Ok <==> ctx.authorized(account) && self.holds(role, account),
            r is Err ==> r == Err::<(), TokenError>(TokenError::Unauthorized),
    {
        if ctx.is_authorized(account) && self.has_role(role, account) {
            Ok(())
        } else {
            Err(TokenError::Unauthorized)
        }
    }

    /// Makes `new_admin` the admin. The first admin is set without a check;
    /// after that the current admin must authorize the change.
    pub fn set_admin(&mut self, ctx: &CallContext, new_admin: Address) -> (r: Result<(), TokenError>)
        ensures
            r is Ok <==> old(self).admin is None || old(self).admin_authorized(ctx),
            r is Err ==> r == Err::<(), TokenError>(TokenError::Unauthorized) && *final(self) == *old(self),
            r is Ok ==> final(self).admin == Some(new_admin),
            final(self).members@ == old(self).members@,
            final(self).role_admins@ == old(self).role_admins@,
    {
        if self.admin.is_some() {
            if let Err(e) = self.require_admin(ctx) {
                return Err(e);
            }
        }
        self.admin = Some(new_admin);
        Ok(())
    }

    /// Lets members of `manager` grant and revoke `role`; the admin must
    /// authorize the change.
    pub fn set_role_admin(&mut self, ctx: &CallContext, role: Role, manager: Role) -> (r: Result<(), TokenError>)
        ensures
            r is Ok <==> old(self).admin_authorized(ctx),
            r is Err ==> r == Err::<(), TokenError>(TokenError::Unauthorized) && *final(self) == *old(self),
            r is Ok ==> final(self).role_admins@ == old(self).role_admins@.insert(role.0, manager.0),
            final(self).admin == old(self).admin,
            final(self).members@ == old(self).members@,
    {
        if let Err(e) = self.require_admin(ctx) {
            return Err(e);
        }
        self.role_admins.insert(role.0, manager.0);
        Ok(())
    }

    /// Gives `role` to `account`; `caller` must authorize the call and be
    /// allowed to manage `role`.
    pub fn grant_role(&mut self, ctx: &CallContext, caller: Address, role: Role, account: Address) -> (r: Result<(), TokenError>)
        ensures
            r is Ok <==> ctx.authorized(caller) && old(self).may_manage(caller, role),
            r is Err ==> r == Err::<(), TokenError>(TokenError::Unauthorized) && *final(self) == *old(self),
            r is Ok ==> forall|g: Role, a: Address| #[trigger] final(self).holds(g, a)
                == ((g == role && a == account) || old(self).holds(g, a)),
            final(self).admin == old(self).admin,
            final(self).role_admins@ == old(self).role_admins@,
    {
        if !ctx.is_authorized(caller) {
            return Err(TokenError::Unauthorized);
        }
        if !self.may_manage_role(caller, role) {
            return Err(TokenError::Unauthorized);
        }
        self.members.insert(make_pair_key(role.0, account.0));
        assert forall|g: Role, a: Address| #[trigger] self.holds(g, a)
            == ((g == role && a == account) || old(self).holds(g, a)) by {
            lemma_pair_key_injective(g.0, a.0, role.0, account.0);
        }
        Ok(())
    }

    /// Takes `role` away from `account`; `caller` must authorize the call
    /// and be allowed to manage `role`.
    pub fn revoke_role(&mut self, ctx: &CallContext, caller: Address, role: Role, account: Address) -> (r: Result<(), TokenError>)
        ensures
            r is Ok <==> ctx.authorized(caller) && old(self).may_manage(caller, role),
            r is Err ==> r == Err::<(), TokenError>(TokenError::Unauthorized) && *final(self) == *old(self),
            r is Ok ==> forall|g: Role, a: Address| #[trigger] final(self).holds(g, a)
                == (!(g == role && a == account) && old(self).holds(g, a)),
            final(self).admin == old(self).admin,
            final(self).role_admins@ == old(self).role_admins@,
    {
        if !ctx.is_authorized(caller) {
            return Err(TokenError::Unauthorized);
        }
        if !self.may_manage_role(caller, role) {
            return Err(TokenError::Unauthorized);
        }
        self.members.remove(&make_pair_key(role.0, account.0));
        assert forall|g: Role, a: Address| #[trigger] self.holds(g, a)
            == (!(g == role && a == account) && old(self).holds(g, a)) by {
            lemma_pair_key_injective(g.0, a.0, role.0, account.0);
        }
        Ok(())
    }

    fn may_manage_role(&self, caller: Address, role: Role) -> (r: bool)
        ensures
            r == self.may_manage(caller, role),
    {
        if self.admin == Some(caller) {
            return true;
        }
        match self.role_admin(role) {
            Some(m) => self.has_role(m, caller),
            None => false,
        }
    }
}

} // verus!
