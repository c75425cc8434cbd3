//! The suspension points that longer computations are built from: a one-shot
//! yield, a delay that is worked off in bounded chunks, and the pause that is
//! the one after the other.

use vstd::prelude::*;
use crate::computation::{is_poll_of, is_poll_trace, Computation, Poll};
use crate::executor::{
    after_rounds, is_run, lemma_round_resumes_each_slot_once, ExecutorView, MAX_TASKS,
};
use crate::waker::Context;

verus! {

/// The most units of busy work that a [`Delay`] performs in one poll.
pub const DELAY_CHUNK: u32 = 1000;

/// `core::hint::spin_loop` tells the processor that the caller is busy
/// waiting. It takes nothing, returns nothing and does not panic; nothing more
/// is claimed of it.
pub assume_specification[ core::hint::spin_loop ]();

/// Gives up the processor once: pending on the first poll, ready on the next.
#[derive(Debug, PartialEq, Eq, Structural)]
pub struct Yield {
    yielded: bool,
}

impl View for Yield {
    type V = bool;

    /// Whether this computation has already yielded.
    closed spec fn view(&self) -> bool {
        self.yielded
    }
}

impl Yield {
    /// A yield that has not been polled yet.
    pub fn new() -> (fresh: Self)
        ensures
            !fresh@,
    {
        Yield { yielded: false }
    }

    /// Whether this computation has already yielded.
    pub fn has_yielded(&self) -> (yielded: bool)
        ensures
            yielded == self@,
    {
        self.yielded
    }
}

impl Computation for Yield {
    /// A poll records that the yield has happened, and is ready exactly if it
    /// had happened before.
    open spec fn advances(&self, next: &Self, outcome: Poll) -> bool {
        &&& next@
        &&& outcome == if self@ { Poll::Ready } else { Poll::Pending }
    }

    fn poll(&mut self, cx: &mut Context<'_>) -> (outcome: Poll) {
        if self.yielded {
            Poll::Ready
        } else {
            self.yielded = true;
            Poll::Pending
        }
    }
}

/// A yield that has not been polled reports pending on its first poll and
/// ready on its second.
pub proof fn lemma_yield_pending_then_ready(states: Seq<Yield>, outcomes: Seq<Poll>)
    requires
        is_poll_trace(states, outcomes),
        !states[0]@,
    ensures
        outcomes.len() >= 1 ==> outcomes[0] == Poll::Pending,
        forall|i: int| 1 <= i < outcomes.len() ==> outcomes[i] == Poll::Ready,
{
    if outcomes.len() >= 1 {
        assert(is_poll_of(states, outcomes, 0));
    }
    assert forall|i: int| 1 <= i < outcomes.len() implies outcomes[i] == Poll::Ready by {
        assert(is_poll_of(states, outcomes, i - 1));
        assert(is_poll_of(states, outcomes, i));
    }
}

/// The units that one poll of a delay with `remaining` units left works off.
pub open spec fn delay_chunk(remaining: nat) -> nat {
    if remaining <= DELAY_CHUNK { remaining } else { DELAY_CHUNK as nat }
}

/// What one poll makes of a delay with `remaining` units left: one chunk is
/// worked off, and the delay is ready exactly if nothing is left after that.
pub open spec fn delay_step(remaining: nat) -> (nat, Poll) {
    let left = (remaining - delay_chunk(remaining)) as nat;
    (
        left,
        if left == 0 {
            Poll::Ready
        } else {
            Poll::Pending
        },
    )
}

/// The number of polls after which a delay of `total` units is used up: the
/// quotient of `total` by [`DELAY_CHUNK`], rounded up.
pub open spec fn polls_needed(total: nat) -> nat {
    ((total + DELAY_CHUNK - 1) / (DELAY_CHUNK as int)) as nat
}

/// The number of polls that it takes until a delay of `total` units reports
/// ready: [`polls_needed`], but one poll even where nothing is to be done.
pub open spec fn polls_to_finish(total: nat) -> nat {
    if total == 0 {
        1
    } else {
        polls_needed(total)
    }
}

/// Busy-waits for a number of units, a bounded amount in each poll.
#[derive(Debug, PartialEq, Eq, Structural)]
pub struct Delay {
    remaining: u32,
}

impl View for Delay {
    type V = nat;

    /// The units of busy work that are still to be done.
    closed spec fn view(&self) -> nat {
        self.remaining as nat
    }
}

impl Delay {
    /// A delay of `cycles` units, none of them worked off yet.
    pub fn new(cycles: u32) -> (delay: Self)
        ensures
            delay@ == cycles,
    {
        Delay { remaining: cycles }
    }

    /// The units of busy work that are still to be done.
    pub fn remaining(&self) -> (units: u32)
        ensures
            units == self@,
    {
        self.remaining
    }
}

impl Computation for Delay {
    /// A poll works off one chunk, and is ready exactly if nothing is left
    /// after it.
    open spec fn advances(&self, next: &Self, outcome: Poll) -> bool {
        (next@, outcome) == delay_step(self@)
    }

    fn poll(&mut self, cx: &mut Context<'_>) -> (outcome: Poll) {
        let chunk: u32 = if self.remaining <= DELAY_CHUNK { self.remaining } else { DELAY_CHUNK };
        self.remaining = self.remaining - chunk;
        busy_wait(chunk);
        if self.remaining == 0 {
            Poll::Ready
        } else {
            Poll::Pending
        }
    }
}

/// Spins the processor `units` times.
fn busy_wait(units: u32) {
    let mut spun: u32 = 0;
    while spun < units
        invariant
            spun <= units,
        decreases units - spun,
    {
        core::hint::spin_loop();
        spun = spun + 1;
    }
}

/// The units that are left of a delay of `total` units after `polls` polls.
pub open spec fn remaining_after(total: nat, polls: nat) -> nat {
    if total >= polls * DELAY_CHUNK { (total - polls * DELAY_CHUNK) as nat } else { 0 }
}

/// Each poll of a delay works off one more chunk, until nothing is left.
pub proof fn lemma_delay_remaining(states: Seq<Delay>, outcomes: Seq<Poll>, polls: int)
    requires
        is_poll_trace(states, outcomes),
        0 <= polls <= outcomes.len(),
    ensures
        states[polls]@ == remaining_after(states[0]@, polls as nat),
    decreases polls,
{
    if polls > 0 {
        lemma_delay_remaining(states, outcomes, polls - 1);
        assert(is_poll_of(states, outcomes, polls - 1));
    }
}

/// A delay reports pending on every poll before the one that finishes it,
/// and ready on that poll and on every later one.
pub proof fn lemma_delay_outcomes(states: Seq<Delay>, outcomes: Seq<Poll>)
    requires
        is_poll_trace(states, outcomes),
    ensures
        forall|i: int|
            0 <= i < outcomes.len() ==> outcomes[i] == if i + 1 < polls_to_finish(states[0]@) {
                Poll::Pending
            } else {
                Poll::Ready
            },
{
    let total = states[0]@;
    assert forall|i: int| 0 <= i < outcomes.len() implies outcomes[i] == if i + 1
        < polls_to_finish(total) {
        Poll::Pending
    } else {
        Poll::Ready
    } by {
        lemma_delay_remaining(states, outcomes, i + 1);
        assert(is_poll_of(states, outcomes, i));
    }
}

/// A delay of `total > 0` units is used up by exactly `polls_needed(total)`
/// polls: each poll before the last of them reports pending, and the last
/// reports ready.
pub proof fn lemma_delay_completes(states: Seq<Delay>, outcomes: Seq<Poll>)
    requires
        is_poll_trace(states, outcomes),
        states[0]@ > 0,
    ensures
        forall|i: int|
            0 <= i < outcomes.len() && i + 1 < polls_needed(states[0]@) ==> outcomes[i]
                == Poll::Pending,
        forall|i: int|
            0 <= i < outcomes.len() && i + 1 == polls_needed(states[0]@) ==> outcomes[i]
                == Poll::Ready,
{
    lemma_delay_outcomes(states, outcomes);
}

/// Where a [`Pause`] stands.
pub enum PauseView {
    /// The delay is being worked off, with this many units left.
    Delaying(nat),
    /// The delay is over and the yield has its turn; the flag tells whether
    /// it has yielded already.
    Yielding(bool),
}

/// What one poll makes of a pause: the delay works off a chunk, and once
/// nothing is left of it the yield is polled, in the same poll the first
/// time.
pub open spec fn pause_step(pause: PauseView) -> (PauseView, Poll) {
    match pause {
        PauseView::Delaying(remaining) => {
            if delay_step(remaining).1 == Poll::Pending {
                (PauseView::Delaying(delay_step(remaining).0), Poll::Pending)
            } else {
                (PauseView::Yielding(true), Poll::Pending)
            }
        },
        PauseView::Yielding(yielded) => (
            PauseView::Yielding(true),
            if yielded {
                Poll::Ready
            } else {
                Poll::Pending
            },
        ),
    }
}

enum PausePhase {
    Delaying(Delay),
    Yielding(Yield),
}

/// A delay followed by a yield, resumed as one computation: what a loop
/// does between two rounds of work to let time pass and others run.
pub struct Pause {
    phase: PausePhase,
}

impl View for Pause {
    type V = PauseView;

    closed spec fn view(&self) -> PauseView {
        match self.phase {
            PausePhase::Delaying(delay) => PauseView::Delaying(delay@),
            PausePhase::Yielding(yielding) => PauseView::Yielding(yielding@),
        }
    }
}

impl Pause {
    /// A pause that delays for `cycles` units and then yields once.
    pub fn new(cycles: u32) -> (pause: Self)
        ensures
            pause@ == PauseView::Delaying(cycles as nat),
    {
        Pause { phase: PausePhase::Delaying(Delay::new(cycles)) }
    }

    /// Whether the delay is over and the yield has happened, so that the
    /// next poll reports ready.
    pub fn has_yielded(&self) -> (yielded: bool)
        ensures
            yielded == (self@ == PauseView::Yielding(true)),
    {
        match &self.phase {
            PausePhase::Delaying(_) => false,
            PausePhase::Yielding(yielding) => yielding.has_yielded(),
        }
    }
}

impl Computation for Pause {
    open spec fn advances(&self, next: &Self, outcome: Poll) -> bool {
        (next@, outcome) == pause_step(self@)
    }

    fn poll(&mut self, cx: &mut Context<'_>) -> (outcome: Poll) {
        if let PausePhase::Delaying(delay) = &mut self.phase {
            if let Poll::Pending = delay.poll(cx) {
                return Poll::Pending;
            }
            self.phase = PausePhase::Yielding(Yield::new());
        }
        match &mut self.phase {
            PausePhase::Yielding(yielding) => yielding.poll(cx),
            PausePhase::Delaying(_) => Poll::Pending,
        }
    }
}

/// A pause of `total` units is pending for as many polls as its delay takes
/// to finish, and ready on the poll after those.
pub proof fn lemma_pause_completes(states: Seq<Pause>, outcomes: Seq<Poll>)
    requires
        is_poll_trace(states, outcomes),
        states[0]@ matches PauseView::Delaying(_),
    ensures
        forall|i: int|
            0 <= i < outcomes.len() ==> outcomes[i] == if i < polls_to_finish(states[0]@->Delaying_0) {
                Poll::Pending
            } else {
                Poll::Ready
            },
{
    let total = states[0]@->Delaying_0;
    assert forall|i: int| 0 <= i < outcomes.len() implies outcomes[i] == if i < polls_to_finish(
        total,
    ) {
        Poll::Pending
    } else {
        Poll::Ready
    } by {
        lemma_pause_state(states, outcomes, i);
        assert(is_poll_of(states, outcomes, i));
    }
}

/// Where a pause of `total` units stands after `polls` polls.
pub open spec fn pause_after(total: nat, polls: nat) -> PauseView {
    if polls < polls_to_finish(total) {
        PauseView::Delaying(remaining_after(total, polls))
    } else {
        PauseView::Yielding(true)
    }
}

/// After `polls` polls a pause stands where [`pause_after`] says.
pub proof fn lemma_pause_state(states: Seq<Pause>, outcomes: Seq<Poll>, polls: int)
    requires
        is_poll_trace(states, outcomes),
        states[0]@ matches PauseView::Delaying(_),
        0 <= polls <= outcomes.len(),
    ensures
        states[polls]@ == pause_after(states[0]@->Delaying_0, polls as nat),
    decreases polls,
{
    if polls > 0 {
        lemma_pause_state(states, outcomes, polls - 1);
        assert(is_poll_of(states, outcomes, polls - 1));
    }
}

/// A yield that is spawned into a slot stays there for one round and is gone
/// after the second, whatever the other slots hold.
pub proof fn lemma_yield_in_slot(trace: Seq<ExecutorView<Yield>>, index: int)
    requires
        is_run(trace),
        0 <= index < MAX_TASKS,
        trace[0].tasks[index] matches Some(fresh) && !fresh@,
        after_rounds(2) < trace.len(),
    ensures
        trace[after_rounds(1)].tasks[index] matches Some(yielded) && yielded@,
        trace[after_rounds(2)].tasks[index] is None,
{
    lemma_round_resumes_each_slot_once(trace, index, 0);
    lemma_round_resumes_each_slot_once(trace, index, 1);
}

/// A delay of `total` units that is spawned into a slot is worked off by one
/// chunk in every round, and is gone after as many rounds as it takes polls
/// to finish, whatever the other slots hold. The slot then stays empty for
/// the rest of the run.
pub proof fn lemma_delay_in_slot(trace: Seq<ExecutorView<Delay>>, index: int, rounds: int)
    requires
        is_run(trace),
        0 <= index < MAX_TASKS,
        trace[0].tasks[index] is Some,
        0 <= rounds,
        after_rounds(rounds) < trace.len(),
    ensures
        rounds < polls_to_finish(trace[0].tasks[index].unwrap()@) ==> {
            &&& trace[after_rounds(rounds)].tasks[index] matches Some(delay)
            &&& delay@ == remaining_after(trace[0].tasks[index].unwrap()@, rounds as nat)
        },
        rounds >= polls_to_finish(trace[0].tasks[index].unwrap()@) ==> trace[after_rounds(
            rounds,
        )].tasks[index] is None,
    decreases rounds,
{
    if rounds > 0 {
        lemma_delay_in_slot(trace, index, rounds - 1);
        lemma_round_resumes_each_slot_once(trace, index, rounds - 1);
    }
}

} // verus!
