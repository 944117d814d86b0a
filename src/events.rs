use vstd::prelude::*;
use crate::types::Address;

verus! {

/// A record of one state transition, handed to the host's event log.
/// A mint is a transfer with no source, a burn one with no destination.
#[derive(Clone, Copy, Debug, PartialEq, Eq, Structural)]
pub enum Event {
    Transfer { from: Option<Address>, to: Option<Address>, amount: i128 },
    Approve { owner: Address, spender: Address, amount: i128, live_until_ledger: u32 },
    Paused { caller: Address },
    Unpaused { caller: Address },
    UserBlocked { user: Address },
    UserUnblocked { user: Address },
    UserAllowed { user: Address },
    UserDisallowed { user: Address },
}

/// Records that the contract was paused by `caller`.
pub fn emit_paused(log: &mut Vec<Event>, caller: &Address)
    ensures
        final(log)@ == old(log)@.push(Event::Paused { caller: *caller }),
{
    log.push(Event::Paused { caller: *caller });
}

/// Records that the contract was unpaused by `caller`.
pub fn emit_unpaused(log: &mut Vec<Event>, caller: &Address)
    ensures
        final(log)@ == old(log)@.push(Event::Unpaused { caller: *caller }),
{
    log.push(Event::Unpaused { caller: *caller });
}

/// Records that `user` was blocked from sending and receiving tokens.
pub fn emit_user_blocked(log: &mut Vec<Event>, user: &Address)
    ensures
        final(log)@ == old(log)@.push(Event::UserBlocked { user: *user }),
{
    log.push(Event::UserBlocked { user: *user });
}

/// Records that `user` may send and receive tokens again.
pub fn emit_user_unblocked(log: &mut Vec<Event>, user: &Address)
    ensures
        final(log)@ == old(log)@.push(Event::UserUnblocked { user: *user }),
{
    log.push(Event::UserUnblocked { user: *user });
}

} // verus!
