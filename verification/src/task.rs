//! A slot: room for one suspended computation.

use vstd::prelude::*;
use crate::computation::{Computation, Poll};
use crate::waker::Context;

verus! {

/// The number of bytes that a slot sets aside for the state of its occupant.
pub const TASK_STORAGE_SIZE: usize = 512;

/// Whether a value of type `C` is small enough to be held in a slot.
pub open spec fn fits_in_task<C>() -> bool {
    vstd::layout::size_of::<C>() <= TASK_STORAGE_SIZE
}

/// A slot that is either empty or holds exactly one live computation.
pub struct Task<C: Computation> {
    state: Option<C>,
}

impl<C: Computation> Task<C> {
    /// The occupant, if there is one.
    pub closed spec fn view(&self) -> Option<C> {
        self.state
    }

    /// An empty slot.
    pub fn new() -> (task: Self)
        ensures
            task@ is None,
    {
        Task { state: None }
    }

    /// Moves `computation` into the slot, if a slot has room for a `C`.
    ///
    /// On success the slot holds `computation` and whatever it held before is
    /// dropped. A computation that is too large is rejected: the slot stays as
    /// it was and `false` is returned.
    pub fn init_with(&mut self, computation: C) -> (installed: bool)
        ensures
            installed == fits_in_task::<C>(),
            installed ==> final(self)@ == Some(computation),
            !installed ==> final(self)@ == old(self)@,
    {
        if core::mem::size_of::<C>() <= TASK_STORAGE_SIZE {
            self.state = Some(computation);
            true
        } else {
            false
        }
    }

    /// Resumes the occupant once and reports what it reported.
    ///
    /// The slot stays occupied whatever the outcome: dropping a finished
    /// computation is the work of [`Task::deactivate`].
    pub fn poll(&mut self, cx: &mut Context<'_>) -> (outcome: Poll)
        requires
            old(self)@ is Some,
        ensures
            final(self)@ is Some,
            old(self)@.unwrap().advances(&final(self)@.unwrap(), outcome),
    {
        match &mut self.state {
            Some(computation) => computation.poll(cx),
            None => Poll::Ready,
        }
    }

    /// Whether the slot holds a computation.
    pub fn is_active(&self) -> (active: bool)
        ensures
            active == (self@ is Some),
    {
        self.state.is_some()
    }

    /// The occupant, if there is one.
    pub fn get(&self) -> (occupant: Option<&C>)
        ensures
            occupant is Some == self@ is Some,
            occupant matches Some(computation) ==> *computation == self@.unwrap(),
    {
        self.state.as_ref()
    }

    /// Drops the occupant and leaves the slot empty. On an empty slot this
    /// does nothing.
    pub fn deactivate(&mut self)
        ensures
            final(self)@ is None,
    {
        self.state = None;
    }
}

} // verus!
