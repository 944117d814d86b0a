use vstd::prelude::*;
use crate::error::TokenError;
use crate::ledger::Base;
use crate::lists::ListPolicy;
use crate::sum::{balance_sum, lemma_value_le_sum};
use crate::token::{burn_chain, mint_chain, transfer_chain, Guard, Token};
use crate::types::{Address, CallContext};

verus! {

/// On a consistent token the balances add up to the total supply, which is
/// never negative. Every operation keeps the token consistent, so this
/// holds after every call of any sequence of transfers, mints and burns.
pub proof fn lemma_conservation(t: &Token)
    requires
        t.wf(),
    ensures
        balance_sum(t.base.balances@) == t.base.total_supply,
        t.base.total_supply >= 0,
{
    lemma_value_le_sum(t.base.balances@, 0);
}

/// A spend from an allowance takes off exactly the amount moved and never
/// leaves the allowance negative.
pub proof fn lemma_allowance_exact_debit(
    before: Base,
    after: Base,
    ledger: u32,
    spender: Address,
    from: Address,
    to: Option<Address>,
    amount: i128,
)
    requires
        before.wf(),
        after.wf(),
        after.spent_and_moved(before, ledger, spender, from, to, amount),
    ensures
        after.allowance_of(from, spender, ledger) == before.allowance_of(from, spender, ledger) - amount,
        after.allowance_of(from, spender, ledger) >= 0,
{
    let k = crate::types::pair_key(from.0, spender.0);
    if after.allowances@.contains_key(k) {
        assert(after.allowances@[k].amount >= 0);
    }
}

proof fn lemma_first_guard(t: &Token, gs: Seq<Guard>)
    requires
        gs.len() > 0,
        t.guard_result(gs[0]) is Err,
    ensures
        t.chain_result(gs) == t.guard_result(gs[0]),
{
}

/// A chain of three guards fails with the first failure among them.
proof fn lemma_unfold_chain(t: &Token, gs: Seq<Guard>)
    requires
        gs.len() == 3,
    ensures
        t.chain_result(gs) == (if t.guard_result(gs[0]) is Err {
            t.guard_result(gs[0])
        } else if t.guard_result(gs[1]) is Err {
            t.guard_result(gs[1])
        } else {
            t.guard_result(gs[2])
        }),
{
    let g1 = gs.drop_first();
    let g2 = g1.drop_first();
    assert(g1[0] == gs[1]);
    assert(g2[0] == gs[2]);
    assert(g2.drop_first().len() == 0);
    assert(t.chain_result(g2.drop_first()) is Ok);
    assert(t.chain_result(g2) == t.guard_result(gs[2]));
    assert(t.chain_result(g1) == (if t.guard_result(gs[1]) is Err {
        t.guard_result(gs[1])
    } else {
        t.guard_result(gs[2])
    }));
}

/// While the token is paused every guarded operation by an authorized
/// caller fails with `EnforcedPause`, and so does a second pause; while it is
/// not paused, unpausing fails with `ExpectedPause`.
pub proof fn lemma_pause_gating(t: &Token, ctx: &CallContext, caller: Address, spender: Address, from: Address, to: Address, amount: i128)
    requires
        t.wf(),
    ensures
        t.paused && ctx.authorized(from) ==> t.transfer_outcome(ctx, from, to, amount)
            == Err::<(), TokenError>(TokenError::EnforcedPause),
        t.paused && ctx.authorized(spender) ==> t.transfer_from_outcome(ctx, spender, from, to, amount)
            == Err::<(), TokenError>(TokenError::EnforcedPause),
        t.paused && t.operator(ctx, caller) ==> t.mint_outcome(ctx, caller, to, amount)
            == Err::<(), TokenError>(TokenError::EnforcedPause),
        t.paused && ctx.authorized(from) ==> t.burn_outcome(ctx, from, amount)
            == Err::<(), TokenError>(TokenError::EnforcedPause),
        t.paused && ctx.authorized(spender) ==> t.burn_from_outcome(ctx, spender, from, amount)
            == Err::<(), TokenError>(TokenError::EnforcedPause),
        t.paused && t.operator(ctx, caller) ==> t.pause_outcome(ctx, caller)
            == Err::<(), TokenError>(TokenError::EnforcedPause),
        !t.paused && t.pausable && t.operator(ctx, caller) ==> t.unpause_outcome(ctx, caller)
            == Err::<(), TokenError>(TokenError::ExpectedPause),
{
    if t.paused {
        lemma_first_guard(t, transfer_chain(from, to));
        lemma_first_guard(t, mint_chain(to, amount));
        lemma_first_guard(t, burn_chain(from));
    }
}

/// Whether the selected list lets `a` send or receive.
pub open spec fn list_permits(t: &Token, a: Address) -> bool {
    match t.list {
        ListPolicy::Open => true,
        ListPolicy::Block(b) => !b.lists(a),
        ListPolicy::Allow(l) => l.lists(a),
    }
}

/// A successful transfer, from an owner or out of an allowance, has a source
/// and a destination that the list permits: for a block list neither is
/// listed, for an allow list both are. An authorized transfer on a token
/// that is not paused fails with `AccountBlocked` when either side is
/// blocked, and with `AccountNotAllowed` when either is not allowed.
pub proof fn lemma_list_polarity(t: &Token, ctx: &CallContext, spender: Address, from: Address, to: Address, amount: i128)
    requires
        t.wf(),
    ensures
        t.transfer_outcome(ctx, from, to, amount) is Ok ==> list_permits(t, from) && list_permits(t, to),
        t.transfer_from_outcome(ctx, spender, from, to, amount) is Ok ==> list_permits(t, from) && list_permits(t, to),
        ctx.authorized(from) && !t.paused && t.list is Block && !(list_permits(t, from) && list_permits(t, to))
            ==> t.transfer_outcome(ctx, from, to, amount) == Err::<(), TokenError>(TokenError::AccountBlocked),
        ctx.authorized(from) && !t.paused && t.list is Allow && !(list_permits(t, from) && list_permits(t, to))
            ==> t.transfer_outcome(ctx, from, to, amount) == Err::<(), TokenError>(TokenError::AccountNotAllowed),
{
    let gs = transfer_chain(from, to);
    lemma_unfold_chain(t, gs);
}

/// No mint carries the total supply past the cap: one that would fails, and
/// with `CapExceeded` when nothing earlier in the chain stops it.
pub proof fn lemma_cap(t: &Token, ctx: &CallContext, caller: Address, to: Address, amount: i128)
    requires
        t.wf(),
        t.cap is Some,
    ensures
        t.mint_outcome(ctx, caller, to, amount) is Ok ==> t.base.total_supply + amount <= t.cap->0,
        t.operator(ctx, caller) && !t.paused && list_permits(t, to) && t.base.total_supply + amount > t.cap->0
            ==> t.mint_outcome(ctx, caller, to, amount) == Err::<(), TokenError>(TokenError::CapExceeded),
{
    let gs = mint_chain(to, amount);
    lemma_unfold_chain(t, gs);
}

} // verus!
