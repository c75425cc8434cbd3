//! The wake handle that every poll receives.
//!
//! The executor never sleeps: it polls each slot in turn, so nothing has to be
//! told that a computation can make progress. The handle exists so that a
//! computation's `poll` has the usual shape; waking it does nothing.

use vstd::prelude::*;

verus! {

/// A wake handle that carries no signal.
#[derive(Clone, Copy, Debug, PartialEq, Eq, Structural)]
pub struct Waker {}

impl Waker {
    /// Consumes the handle. Nothing is notified.
    pub fn wake(self) {
    }

    /// Nothing is notified, and the handle stays usable.
    pub fn wake_by_ref(&self) {
    }
}

/// Makes the inert wake handle that the executor hands to every poll.
pub fn dummy_waker() -> (waker: Waker)
    ensures
        waker == (Waker {}),
{
    Waker {}
}

/// What a computation is given when it is polled: a borrowed wake handle.
pub struct Context<'a> {
    waker: &'a Waker,
}

impl<'a> Context<'a> {
    /// The handle that this context lends out.
    pub closed spec fn view(&self) -> Waker {
        *self.waker
    }

    /// Wraps a borrowed wake handle.
    pub fn from_waker(waker: &'a Waker) -> (cx: Context<'a>)
        ensures
            cx@ == *waker,
    {
        Context { waker }
    }

    /// The wake handle of this context.
    pub fn waker(&self) -> (waker: &'a Waker)
        ensures
            *waker == self@,
    {
        self.waker
    }
}

} // verus!
