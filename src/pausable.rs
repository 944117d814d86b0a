use vstd::prelude::*;
use crate::error::{PausableError, TokenError};
use crate::types::{Address, CallContext};

verus! {

/// A contract that can be halted and resumed.
pub trait Pausable {
    spec fn is_paused(&self) -> bool;

    /// Whether the contract is paused.
    fn paused(&self) -> (r: bool)
        ensures
            r == self.is_paused();

    /// Halts the contract; fails while it is already paused.
    fn pause(&mut self, ctx: &CallContext, caller: Address) -> (r: Result<(), TokenError>)
        ensures
            old(self).is_paused() ==> r is Err,
            r is Ok ==> final(self).is_paused(),
            r is Err ==> final(self).is_paused() == old(self).is_paused();

    /// Resumes the contract; fails while it is not paused.
    fn unpause(&mut self, ctx: &CallContext, caller: Address) -> (r: Result<(), TokenError>)
        ensures
            !old(self).is_paused() ==> r is Err,
            r is Ok ==> !final(self).is_paused(),
            r is Err ==> final(self).is_paused() == old(self).is_paused();
}

/// The two pause guards, for any pausable contract.
pub trait PauseChecker: Pausable {
    /// Fails with `EnforcedPause` while paused.
    fn when_not_paused(&self) -> (r: Result<(), PausableError>)
        ensures
            r == (if self.is_paused() { Err(PausableError::EnforcedPause) } else { Ok(()) });

    /// Fails with `ExpectedPause` while not paused.
    fn when_paused(&self) -> (r: Result<(), PausableError>)
        ensures
            r == (if self.is_paused() { Ok(()) } else { Err(PausableError::ExpectedPause) });
}

impl<T: Pausable> PauseChecker for T {
    fn when_not_paused(&self) -> (r: Result<(), PausableError>) {
        if self.paused() {
            Err(PausableError::EnforcedPause)
        } else {
            Ok(())
        }
    }

    fn when_paused(&self) -> (r: Result<(), PausableError>) {
        if self.paused() {
            Ok(())
        } else {
            Err(PausableError::ExpectedPause)
        }
    }
}

} // verus!
