//! The background enhancer: now and then it sets a star in a random colour
//! into each corner of the screen. It never ends.

use vstd::prelude::*;
use vstd::string::*;
use crate::computation::{Computation, Poll};
use crate::rng::{get_random_color, next_random, random_color, Rng};
use crate::screen::{with_line, write_at, Cell, Screen};
use crate::suspend::{delay_step, Delay, Yield};
use crate::waker::Context;

verus! {

/// The units of delay between two rounds.
pub const ENHANCER_PAUSE: u32 = 2_000_000;

/// The stars are set in one round out of this many.
pub const ENHANCER_ROUNDS: u8 = 3;

/// What the enhancer does when it is resumed next.
pub enum EnhancerPhaseView {
    /// It waits, with this many units left, and then does its round.
    Waiting(nat),
    /// It yields after a round; the flag tells whether it has yielded
    /// already.
    Yielding(bool),
}

/// The enhancer as contracts see it.
pub struct EnhancerView {
    /// The number of rounds done, counted up to [`ENHANCER_ROUNDS`] and then
    /// from 0 again. The stars are set in the rounds that find it at 0.
    pub counter: nat,
    /// What happens on the next resume.
    pub phase: EnhancerPhaseView,
}

/// `cells` with a star in each corner, in colours drawn one after the other
/// from a generator in state `rng`, and the state that the generator is in
/// afterwards.
pub open spec fn with_corner_stars(cells: Seq<Cell>, rng: u32) -> (Seq<Cell>, u32) {
    let first = next_random(rng);
    let second = next_random(first);
    let third = next_random(second);
    let cells = with_line(cells, "*", 0, 0, random_color(rng));
    let cells = with_line(cells, "*", 0, 79, random_color(first));
    let cells = with_line(cells, "*", 24, 0, random_color(second));
    let cells = with_line(cells, "*", 24, 79, random_color(third));
    (cells, next_random(third))
}

impl EnhancerView {
    /// An enhancer at the start of its first wait.
    pub open spec fn fresh() -> Self {
        EnhancerView { counter: 0, phase: EnhancerPhaseView::Waiting(ENHANCER_PAUSE as nat) }
    }

    /// The counter is below [`ENHANCER_ROUNDS`].
    pub open spec fn wf(self) -> bool {
        self.counter < ENHANCER_ROUNDS
    }

    /// The wait with `remaining` units left is polled: either it goes on, or
    /// it is over, the round is done and the yield that follows is begun.
    pub open spec fn wait(self, remaining: nat, cells: Seq<Cell>, rng: u32) -> (
        Self,
        Seq<Cell>,
        u32,
    ) {
        if delay_step(remaining).1 == Poll::Pending {
            (
                EnhancerView {
                    counter: self.counter,
                    phase: EnhancerPhaseView::Waiting(delay_step(remaining).0),
                },
                cells,
                rng,
            )
        } else {
            let drawn = if self.counter == 0 {
                with_corner_stars(cells, rng)
            } else {
                (cells, rng)
            };
            (
                EnhancerView {
                    counter: (self.counter + 1) % (ENHANCER_ROUNDS as nat),
                    phase: EnhancerPhaseView::Yielding(true),
                },
                drawn.0,
                drawn.1,
            )
        }
    }

    /// What one resume makes of the enhancer, of the screen and of the state
    /// of the random number generator.
    pub open spec fn resume(self, cells: Seq<Cell>, rng: u32) -> (Self, Seq<Cell>, u32) {
        match self.phase {
            EnhancerPhaseView::Yielding(false) => (
                EnhancerView { counter: self.counter, phase: EnhancerPhaseView::Yielding(true) },
                cells,
                rng,
            ),
            EnhancerPhaseView::Yielding(true) => self.wait(ENHANCER_PAUSE as nat, cells, rng),
            EnhancerPhaseView::Waiting(remaining) => self.wait(remaining, cells, rng),
        }
    }
}

enum EnhancerPhase {
    Waiting(Delay),
    Yielding(Yield),
}

/// The background enhancer.
pub struct Enhancer {
    counter: u8,
    phase: EnhancerPhase,
}

impl View for Enhancer {
    type V = EnhancerView;

    closed spec fn view(&self) -> EnhancerView {
        EnhancerView {
            counter: self.counter as nat,
            phase: match self.phase {
                EnhancerPhase::Waiting(delay) => EnhancerPhaseView::Waiting(delay@),
                EnhancerPhase::Yielding(yielding) => EnhancerPhaseView::Yielding(yielding@),
            },
        }
    }
}

impl Enhancer {
    /// An enhancer at the start of its first wait.
    pub fn new() -> (enhancer: Self)
        ensures
            enhancer@ == EnhancerView::fresh(),
    {
        Enhancer { counter: 0, phase: EnhancerPhase::Waiting(Delay::new(ENHANCER_PAUSE)) }
    }

    /// The number of rounds done, counted up to [`ENHANCER_ROUNDS`] and then
    /// from 0 again.
    pub fn counter(&self) -> (rounds: u8)
        ensures
            rounds == self@.counter,
    {
        self.counter
    }

    /// Runs the enhancer up to its next suspension point. The outcome is
    /// always pending: the enhancer runs for as long as it is resumed.
    pub fn resume(&mut self, cx: &mut Context<'_>, screen: &mut Screen, rng: &mut Rng) -> (outcome:
        Poll)
        requires
            old(self)@.wf(),
        ensures
            final(self)@.wf(),
            outcome == Poll::Pending,
            (final(self)@, final(screen)@, final(rng)@) == old(self)@.resume(
                old(screen)@,
                old(rng)@,
            ),
    {
        if let EnhancerPhase::Yielding(yielding) = &mut self.phase {
            if let Poll::Pending = yielding.poll(cx) {
                return Poll::Pending;
            }
            self.phase = EnhancerPhase::Waiting(Delay::new(ENHANCER_PAUSE));
        }
        if let EnhancerPhase::Waiting(delay) = &mut self.phase {
            if let Poll::Pending = delay.poll(cx) {
                return Poll::Pending;
            }
            if self.counter == 0 {
                let color = get_random_color(rng);
                write_at(screen, "*".as_bytes(), 0, 0, color);
                let color = get_random_color(rng);
                write_at(screen, "*".as_bytes(), 0, 79, color);
                let color = get_random_color(rng);
                write_at(screen, "*".as_bytes(), 24, 0, color);
                let color = get_random_color(rng);
                write_at(screen, "*".as_bytes(), 24, 79, color);
            }
            self.counter = (self.counter + 1) % ENHANCER_ROUNDS;
            self.phase = EnhancerPhase::Yielding(Yield::new());
        }
        match &mut self.phase {
            EnhancerPhase::Yielding(yielding) => yielding.poll(cx),
            EnhancerPhase::Waiting(_) => Poll::Pending,
        }
    }
}

} // verus!
