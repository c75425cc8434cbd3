//! The table of slots and the round-robin policy that steps through it.

use vstd::prelude::*;
use core::ops::Range;
use crate::computation::{Computation, Poll};
use crate::task::{fits_in_task, Task};
use crate::waker::{dummy_waker, Context};

verus! {

/// The number of slots in an executor's table.
pub const MAX_TASKS: usize = 8;

/// The index after `index` in the rotation through the table.
pub open spec fn next_index(index: nat) -> nat {
    (index + 1) % (MAX_TASKS as nat)
}

/// The rotation cursor: an index into the table that is always in range.
struct Cursor {
    index: usize,
}

impl Cursor {
    #[verifier::type_invariant]
    spec fn in_range(self) -> bool {
        self.index < MAX_TASKS
    }

    spec fn view(&self) -> nat {
        self.index as nat
    }

    fn new() -> (cursor: Self)
        ensures
            cursor@ == 0,
    {
        Cursor { index: 0 }
    }

    fn get(&self) -> (index: usize)
        ensures
            index == self@,
            index < MAX_TASKS,
    {
        proof {
            use_type_invariant(self);
        }
        self.index
    }

    fn advance(&mut self)
        ensures
            final(self)@ == next_index(old(self)@),
    {
        proof {
            use_type_invariant(&*self);
        }
        self.index = (self.index + 1) % MAX_TASKS;
    }
}

/// An executor as contracts see it: what each slot holds, and where the
/// cursor stands.
pub struct ExecutorView<C> {
    /// The occupant of each slot, in index order.
    pub tasks: Seq<Option<C>>,
    /// The index of the slot that the next step resumes.
    pub current_task: nat,
}

impl<C: Computation> ExecutorView<C> {
    /// The table has [`MAX_TASKS`] slots and the cursor points at one of them.
    pub open spec fn wf(self) -> bool {
        &&& self.tasks.len() == MAX_TASKS
        &&& self.current_task < MAX_TASKS
    }

    /// Whether every slot holds a computation.
    pub open spec fn is_full(self) -> bool {
        forall|i: int| 0 <= i < self.tasks.len() ==> self.tasks[i] is Some
    }

    /// Whether `index` is the lowest empty slot.
    pub open spec fn is_first_free(self, index: int) -> bool {
        &&& 0 <= index < self.tasks.len()
        &&& self.tasks[index] is None
        &&& forall|j: int| 0 <= j < index ==> self.tasks[j] is Some
    }

    /// The lowest empty slot of a table that is not full.
    pub open spec fn first_free(self) -> int {
        choose|index: int| self.is_first_free(index)
    }

    /// Whether a spawn of a `C` is accepted: a slot is free, and a slot has
    /// room for a `C`.
    pub open spec fn accepts(self) -> bool {
        !self.is_full() && fits_in_task::<C>()
    }

    /// The executor with `occupant` in slot `index` and all else the same.
    pub open spec fn with_task(self, index: int, occupant: Option<C>) -> Self {
        ExecutorView { tasks: self.tasks.update(index, occupant), current_task: self.current_task }
    }

    /// The executor after a spawn of `computation`: it sits in the lowest empty
    /// slot if the spawn is accepted, and nothing has changed if not.
    pub open spec fn spawn(self, computation: C) -> Self {
        if self.accepts() {
            self.with_task(self.first_free(), Some(computation))
        } else {
            self
        }
    }

    /// Whether slot `index` may turn from `self.tasks[index]` into `after` by
    /// being resumed once: an empty slot stays empty, a computation that
    /// reports pending stays with its new state, and one that reports ready is
    /// gone.
    pub open spec fn resumes_to(self, index: int, after: Option<C>) -> bool {
        match (self.tasks[index], after) {
            (None, None) => true,
            (None, Some(_)) => false,
            (Some(before), Some(suspended)) => before.advances(&suspended, Poll::Pending),
            (Some(before), None) => exists|finished: C| #[trigger]
                before.advances(&finished, Poll::Ready),
        }
    }

    /// Whether one step may lead from `self` to `next`: the slot under the
    /// cursor is resumed once, every other slot is left alone, and the cursor
    /// moves on by one, from the last slot back to the first.
    pub open spec fn steps_to(self, next: Self) -> bool {
        &&& self.wf()
        &&& next.wf()
        &&& next.current_task == next_index(self.current_task)
        &&& self.resumes_to(self.current_task as int, next.tasks[self.current_task as int])
        &&& forall|i: int|
            0 <= i < MAX_TASKS && i != self.current_task ==> next.tasks[i] == self.tasks[i]
    }

    /// Whether some slot with an index in `start..end` holds a computation.
    pub open spec fn has_active(self, start: int, end: int) -> bool {
        exists|i: int| start <= i < end && 0 <= i < self.tasks.len() && self.tasks[i] is Some
    }

    /// If `index` is the lowest empty slot, then the table is not full and
    /// `first_free` is `index`.
    pub proof fn lemma_first_free_is(self, index: int)
        requires
            self.is_first_free(index),
        ensures
            !self.is_full(),
            self.first_free() == index,
    {
        let chosen = self.first_free();
        assert(self.is_first_free(chosen));
        if chosen < index {
            assert(self.tasks[chosen] is Some);
        } else if index < chosen {
            assert(self.tasks[index] is Some);
        }
    }

    /// A table that is not full has a lowest empty slot, and `first_free` is
    /// that slot.
    pub proof fn lemma_first_free_exists(self)
        requires
            !self.is_full(),
        ensures
            self.is_first_free(self.first_free()),
    {
        let lowest = self.lowest_free_below(self.tasks.len() as int);
        assert(self.is_first_free(lowest));
    }

    /// If every slot below `bound` is occupied, the result is `bound`; if not,
    /// it is the lowest empty slot.
    proof fn lowest_free_below(self, bound: int) -> (lowest: int)
        requires
            0 <= bound <= self.tasks.len(),
        ensures
            0 <= lowest <= bound,
            forall|j: int| 0 <= j < lowest ==> self.tasks[j] is Some,
            lowest < bound ==> self.tasks[lowest] is None,
        decreases bound,
    {
        if bound == 0 {
            0
        } else {
            let below = self.lowest_free_below(bound - 1);
            if below < bound - 1 || self.tasks[bound - 1] is None {
                below
            } else {
                bound
            }
        }
    }
}

/// Whether `trace` records consecutive steps of one executor: step number
/// `i`, counted from 0, led from `trace[i]` to `trace[i + 1]`.
pub open spec fn is_run<C: Computation>(trace: Seq<ExecutorView<C>>) -> bool {
    &&& trace.len() >= 1
    &&& trace[0].wf()
    &&& forall|i: int| 0 <= i < trace.len() - 1 ==> #[trigger] is_step_of(trace, i)
}

/// Whether one step may lead from `trace[i]` to `trace[i + 1]`.
pub open spec fn is_step_of<C: Computation>(trace: Seq<ExecutorView<C>>, i: int) -> bool {
    trace[i].steps_to(trace[i + 1])
}

impl<C: Computation> ExecutorView<C> {
    /// The executor after spawning `computations` one after the other.
    pub open spec fn spawn_all(self, computations: Seq<C>) -> Self
        decreases computations.len(),
    {
        if computations.len() == 0 {
            self
        } else {
            self.spawn_all(computations.drop_last()).spawn(computations.last())
        }
    }

    /// A spawn onto a full table is turned away, whatever is spawned, and
    /// leaves every slot and the cursor as they were.
    pub proof fn lemma_spawn_onto_full(self, computation: C)
        requires
            self.is_full(),
        ensures
            !self.accepts(),
            self.spawn(computation) == self,
    {
    }

    /// Where a slot has room for a `C`, a spawn puts the computation into the
    /// lowest empty slot and changes nothing else.
    pub proof fn lemma_spawn_takes_first_free(self, computation: C, index: int)
        requires
            self.is_first_free(index),
            fits_in_task::<C>(),
        ensures
            self.accepts(),
            self.spawn(computation) == self.with_task(index, Some(computation)),
    {
        self.lemma_first_free_is(index);
    }

    /// Spawned onto an empty table, the first [`MAX_TASKS`] computations take
    /// the slots in index order and every later one is turned away without a
    /// change to those in the table. Where a slot has no room for a `C`, all
    /// of them are turned away.
    pub proof fn lemma_spawn_all_onto_empty(self, computations: Seq<C>)
        requires
            self.wf(),
            forall|i: int| 0 <= i < MAX_TASKS ==> self.tasks[i] is None,
        ensures
            self.spawn_all(computations).wf(),
            self.spawn_all(computations).current_task == self.current_task,
            !fits_in_task::<C>() ==> self.spawn_all(computations) == self,
            fits_in_task::<C>() ==> forall|i: int|
                0 <= i < MAX_TASKS ==> #[trigger] self.spawn_all(computations).tasks[i] == if i
                    < computations.len() {
                    Some(computations[i])
                } else {
                    None
                },
        decreases computations.len(),
    {
        if computations.len() > 0 {
            let earlier = self.spawn_all(computations.drop_last());
            self.lemma_spawn_all_onto_empty(computations.drop_last());
            if fits_in_task::<C>() {
                let landing = computations.len() - 1;
                if landing < MAX_TASKS {
                    assert(earlier.tasks[landing] is None);
                    assert forall|j: int| 0 <= j < landing implies earlier.tasks[j] is Some by {
                        assert(earlier.tasks[j] == Some(computations.drop_last()[j]));
                    }
                    earlier.lemma_spawn_takes_first_free(computations.last(), landing);
                } else {
                    assert forall|j: int| 0 <= j < earlier.tasks.len() implies earlier.tasks[j]
                        is Some by {
                        assert(earlier.tasks[j] == Some(computations.drop_last()[j]));
                    }
                    earlier.lemma_spawn_onto_full(computations.last());
                }
            }
        }
    }

    /// A step changes no slot but the one under the cursor.
    pub proof fn lemma_step_leaves_other_slots(self, next: Self, index: int)
        requires
            self.steps_to(next),
            0 <= index < MAX_TASKS,
            index != self.current_task,
        ensures
            next.tasks[index] == self.tasks[index],
    {
    }

    /// A computation that cannot report pending is gone after the step that
    /// resumes it. Its slot is then free for the next spawn, which takes it
    /// unless a slot with a lower index is free as well.
    pub proof fn lemma_finished_slot_is_free(self, next: Self, computation: C)
        requires
            self.steps_to(next),
            self.tasks[self.current_task as int] matches Some(finishing) && forall|suspended: C|
                !#[trigger] finishing.advances(&suspended, Poll::Pending),
        ensures
            next.tasks[self.current_task as int] is None,
            !next.is_full(),
            0 <= next.first_free() <= self.current_task,
            fits_in_task::<C>() ==> next.spawn(computation) == next.with_task(
                next.first_free(),
                Some(computation),
            ),
            (forall|j: int| 0 <= j < self.current_task ==> next.tasks[j] is Some)
                ==> next.first_free() == self.current_task,
    {
        let index = self.current_task as int;
        assert(self.resumes_to(index, next.tasks[index]));
        assert(next.tasks[index] is None);
        next.lemma_first_free_exists();
        let lowest = next.first_free();
        if lowest > index {
            assert(next.tasks[index] is Some);
        }
    }
}

/// After `steps` steps the cursor stands `steps` slots further on, counted
/// round the table.
pub proof fn lemma_cursor_after_steps<C: Computation>(trace: Seq<ExecutorView<C>>, steps: int)
    requires
        is_run(trace),
        0 <= steps < trace.len(),
    ensures
        trace[steps].wf(),
        trace[steps].current_task == (trace[0].current_task + steps) % (MAX_TASKS as int),
    decreases steps,
{
    if steps > 0 {
        lemma_cursor_after_steps(trace, steps - 1);
        assert(is_step_of(trace, steps - 1));
    }
}

/// [`MAX_TASKS`] steps take the cursor once round the table and back to the
/// slot it started from, whichever slots are occupied.
pub proof fn lemma_full_round_restores_cursor<C: Computation>(trace: Seq<ExecutorView<C>>)
    requires
        is_run(trace),
        trace.len() == MAX_TASKS + 1,
    ensures
        trace[MAX_TASKS as int].current_task == trace[0].current_task,
{
    lemma_cursor_after_steps(trace, MAX_TASKS as int);
}

/// The step of a round, counted from 0, in which the slot `index` is resumed,
/// when the round starts with the cursor on `start`.
pub open spec fn visit_of(start: nat, index: int) -> int {
    (index - start + MAX_TASKS) % (MAX_TASKS as int)
}

/// In [`MAX_TASKS`] consecutive steps every slot is under the cursor exactly
/// once: slot `index` in step `visit_of(start, index)` and in no other.
pub proof fn lemma_full_round_visits_each_slot_once<C: Computation>(
    trace: Seq<ExecutorView<C>>,
    index: int,
)
    requires
        is_run(trace),
        trace.len() >= MAX_TASKS,
        0 <= index < MAX_TASKS,
    ensures
        0 <= visit_of(trace[0].current_task, index) < MAX_TASKS,
        forall|step: int|
            0 <= step < MAX_TASKS ==> (#[trigger] trace[step].current_task == index <==> step
                == visit_of(trace[0].current_task, index)),
{
    assert forall|step: int| 0 <= step < MAX_TASKS implies (#[trigger] trace[step].current_task
        == index <==> step == visit_of(trace[0].current_task, index)) by {
        lemma_cursor_after_steps(trace, step);
    }
}

/// Steps that resume other slots leave slot `index` as it was.
pub proof fn lemma_slot_unchanged_between<C: Computation>(
    trace: Seq<ExecutorView<C>>,
    index: int,
    from: int,
    to: int,
)
    requires
        is_run(trace),
        0 <= from <= to < trace.len(),
        0 <= index < MAX_TASKS,
        forall|step: int| from <= step < to ==> #[trigger] trace[step].current_task != index,
    ensures
        trace[to].tasks[index] == trace[from].tasks[index],
    decreases to - from,
{
    if from < to {
        lemma_slot_unchanged_between(trace, index, from, to - 1);
        assert(is_step_of(trace, to - 1));
        assert(trace[to - 1].current_task != index);
    }
}

/// Over one round of [`MAX_TASKS`] steps each slot is resumed exactly once,
/// and what becomes of its occupant depends on that occupant alone: nothing
/// that the other slots hold, or that their occupants do when they are
/// resumed, has any part in it.
pub proof fn lemma_full_round_resumes_each_slot_once<C: Computation>(
    trace: Seq<ExecutorView<C>>,
    index: int,
)
    requires
        is_run(trace),
        trace.len() == MAX_TASKS + 1,
        0 <= index < MAX_TASKS,
    ensures
        trace[0].resumes_to(index, trace[MAX_TASKS as int].tasks[index]),
{
    let visit = visit_of(trace[0].current_task, index);
    lemma_full_round_visits_each_slot_once(trace, index);
    lemma_slot_unchanged_between(trace, index, 0, visit);
    lemma_slot_unchanged_between(trace, index, visit + 1, MAX_TASKS as int);
    assert(is_step_of(trace, visit));
    assert(trace[visit].current_task == index);
    assert(trace[visit].resumes_to(index, trace[visit + 1].tasks[index]));
}

/// What is left of a run when its first `from` steps are taken away is a run.
pub proof fn lemma_run_from<C: Computation>(trace: Seq<ExecutorView<C>>, from: int)
    requires
        is_run(trace),
        0 <= from < trace.len(),
    ensures
        is_run(trace.subrange(from, trace.len() as int)),
{
    let rest = trace.subrange(from, trace.len() as int);
    lemma_cursor_after_steps(trace, from);
    assert forall|i: int| 0 <= i < rest.len() - 1 implies #[trigger] is_step_of(rest, i) by {
        assert(is_step_of(trace, from + i));
    }
}

/// The number of the state that a run is in after `rounds` rounds of
/// [`MAX_TASKS`] steps each.
pub open spec fn after_rounds(rounds: int) -> int {
    rounds * MAX_TASKS
}

/// In every round of a run each slot is resumed exactly once, and what
/// becomes of its occupant in that round depends on that occupant alone.
pub proof fn lemma_round_resumes_each_slot_once<C: Computation>(
    trace: Seq<ExecutorView<C>>,
    index: int,
    round: int,
)
    requires
        is_run(trace),
        0 <= index < MAX_TASKS,
        0 <= round,
        after_rounds(round + 1) < trace.len(),
    ensures
        trace[after_rounds(round)].resumes_to(index, trace[after_rounds(round + 1)].tasks[index]),
{
    let start = after_rounds(round);
    lemma_run_from(trace, start);
    let rest = trace.subrange(start, trace.len() as int);
    let this_round = rest.subrange(0, MAX_TASKS + 1);
    assert forall|i: int| 0 <= i < this_round.len() - 1 implies #[trigger] is_step_of(
        this_round,
        i,
    ) by {
        assert(is_step_of(rest, i));
    }
    lemma_full_round_resumes_each_slot_once(this_round, index);
}

/// A fixed table of slots that are resumed in turn, one per step.
pub struct Executor<C: Computation> {
    tasks: [Task<C>; MAX_TASKS],
    current_task: Cursor,
}

impl<C: Computation> View for Executor<C> {
    type V = ExecutorView<C>;

    closed spec fn view(&self) -> ExecutorView<C> {
        ExecutorView {
            tasks: Seq::new(MAX_TASKS as nat, |i: int| self.tasks[i]@),
            current_task: self.current_task@,
        }
    }
}

impl<C: Computation> Executor<C> {
    /// An executor with every slot empty and the cursor on the first slot.
    pub fn new() -> (executor: Self)
        ensures
            executor@.wf(),
            executor@.current_task == 0,
            forall|i: int| 0 <= i < MAX_TASKS ==> executor@.tasks[i] is None,
    {
        Executor {
            tasks: [
                Task::new(),
                Task::new(),
                Task::new(),
                Task::new(),
                Task::new(),
                Task::new(),
                Task::new(),
                Task::new(),
            ],
            current_task: Cursor::new(),
        }
    }

    /// Moves `computation` into the lowest empty slot.
    ///
    /// Returns `false`, with `computation` dropped and the table as it was, if
    /// every slot is taken or if a `C` is too large for a slot.
    pub fn spawn(&mut self, computation: C) -> (accepted: bool)
        ensures
            old(self)@.wf(),
            final(self)@.wf(),
            accepted == old(self)@.accepts(),
            final(self)@ == old(self)@.spawn(computation),
    {
        proof {
            use_type_invariant(&self.current_task);
        }
        let mut index: usize = 0;
        while index < MAX_TASKS
            invariant
                index <= MAX_TASKS,
                *self == *old(self),
                self@.wf(),
                forall|j: int| 0 <= j < index ==> self@.tasks[j] is Some,
            decreases MAX_TASKS - index,
        {
            if !self.tasks[index].is_active() {
                assert(self@.is_first_free(index as int));
                let installed = self.tasks[index].init_with(computation);
                proof {
                    if installed {
                        assert(self@.tasks =~= old(self)@.tasks.update(index as int, Some(computation)));
                    } else {
                        assert(self@.tasks =~= old(self)@.tasks);
                    }
                }
                return installed;
            }
            index = index + 1;
        }
        false
    }

    /// Resumes the slot under the cursor, if it is occupied, and moves the
    /// cursor on by one.
    ///
    /// A computation that reports ready is dropped before this returns, so
    /// that no slot is ever seen holding a finished computation. No other slot
    /// is touched, however many are occupied. A computation cannot reach the
    /// executor that resumes it: for the length of the step the executor is
    /// borrowed by the step alone.
    pub fn run_step(&mut self)
        ensures
            old(self)@.steps_to(final(self)@),
    {
        let current = self.current_task.get();
        if self.tasks[current].is_active() {
            let waker = dummy_waker();
            let mut cx = Context::from_waker(&waker);
            match self.tasks[current].poll(&mut cx) {
                Poll::Ready => {
                    self.tasks[current].deactivate();
                },
                Poll::Pending => {},
            }
        }
        self.current_task.advance();
    }

    /// Whether some slot with an index in `range` holds a computation.
    ///
    /// With the range `1..MAX_TASKS` this tells whether any computation but
    /// one kept in slot 0 is still running.
    pub fn has_active(&self, range: Range<usize>) -> (active: bool)
        ensures
            active == self@.has_active(range.start as int, range.end as int),
    {
        let end: usize = if range.end < MAX_TASKS { range.end } else { MAX_TASKS };
        let mut index: usize = range.start;
        while index < end
            invariant
                end <= MAX_TASKS,
                end <= range.end,
                end == range.end || end == MAX_TASKS,
                range.start <= index,
                forall|j: int| range.start <= j < index ==> self@.tasks[j] is None,
            decreases end - index,
        {
            if self.tasks[index].is_active() {
                assert(self@.tasks[index as int] is Some);
                return true;
            }
            index = index + 1;
        }
        false
    }

    /// The index of the slot that the next step resumes.
    pub fn current_task(&self) -> (index: usize)
        ensures
            index == self@.current_task,
            index < MAX_TASKS,
    {
        self.current_task.get()
    }

    /// The slot with the given index.
    pub fn task(&self, index: usize) -> (task: &Task<C>)
        requires
            index < MAX_TASKS,
        ensures
            task@ == self@.tasks[index as int],
    {
        &self.tasks[index]
    }
}

} // verus!
