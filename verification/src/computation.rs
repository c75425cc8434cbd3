//! What the executor asks of the work it runs.

use vstd::prelude::*;
use crate::waker::Context;

verus! {

/// The outcome of resuming a computation once.
#[derive(Clone, Copy, Debug, PartialEq, Eq, Structural)]
pub enum Poll {
    /// The computation has suspended itself and wants to be resumed again.
    Pending,
    /// The computation has finished and must not be resumed again.
    Ready,
}

/// A resumable unit of work with private state.
///
/// A computation is moved into a slot, polled until it reports
/// [`Poll::Ready`], and then dropped. Its state is all that a poll may read or
/// change, which is what keeps the occupants of different slots apart.
pub trait Computation: Sized {
    /// Whether one poll in state `self` may leave the state `next` behind and
    /// report `outcome`.
    ///
    /// A computation that depends on nothing but its own state admits exactly
    /// one `next` and one `outcome` for each `self`; one that consults the
    /// outside world admits several. Unless an implementation says otherwise,
    /// every state and either outcome may follow.
    open spec fn advances(&self, next: &Self, outcome: Poll) -> bool {
        true
    }

    /// Runs the computation up to its next suspension point.
    fn poll(&mut self, cx: &mut Context<'_>) -> (outcome: Poll)
        ensures
            old(self).advances(final(self), outcome),
    ;
}

/// Whether `states` and `outcomes` record consecutive polls of one
/// computation: poll number `i`, counted from 0, found it in `states[i]`, left
/// it in `states[i + 1]` and reported `outcomes[i]`.
pub open spec fn is_poll_trace<C: Computation>(states: Seq<C>, outcomes: Seq<Poll>) -> bool {
    &&& states.len() == outcomes.len() + 1
    &&& forall|i: int| 0 <= i < outcomes.len() ==> #[trigger] is_poll_of(states, outcomes, i)
}

/// Whether one poll may lead from `states[i]` to `states[i + 1]` and report
/// `outcomes[i]`.
pub open spec fn is_poll_of<C: Computation>(states: Seq<C>, outcomes: Seq<Poll>, i: int) -> bool {
    states[i].advances(&states[i + 1], outcomes[i])
}

} // verus!
