//! The programs that the system runs, behind one type, so that a table of
//! slots can hold any of them.

use vstd::prelude::*;
use crate::computation::Poll;
use crate::enhancer::Enhancer;
use crate::generator::{Generator, GeneratorView};
use crate::hypnotizer::{Hypnotizer, HypnotizerView};
use crate::matrix::{Matrix, MatrixView};
use crate::menu::MenuChoice;
use crate::rng::Rng;
use crate::screen::{Cell, Screen};
use crate::waker::Context;

verus! {

/// One of the programs.
pub enum Program {
    /// The background enhancer.
    Enhancer(Enhancer),
    /// The word generator.
    Generator(Generator),
    /// The character rain.
    Matrix(Matrix),
    /// The hypnotizer.
    Hypnotizer(Hypnotizer),
}

impl Program {
    /// The program is in a state that it can be resumed in.
    pub open spec fn wf(self) -> bool {
        match self {
            Program::Enhancer(enhancer) => enhancer@.wf(),
            Program::Generator(generator) => generator@.wf(),
            Program::Matrix(matrix) => matrix@.wf(),
            Program::Hypnotizer(hypnotizer) => hypnotizer@.wf(),
        }
    }

    /// Whether the next resume looks at the keyboard.
    pub open spec fn spec_wants_input(self) -> bool {
        match self {
            Program::Enhancer(_) => false,
            Program::Generator(generator) => generator@.wants_input(),
            Program::Matrix(matrix) => matrix@.wants_input(),
            Program::Hypnotizer(hypnotizer) => hypnotizer@.wants_input(),
        }
    }

    /// Whether a resume with the scan code `input` may lead from `self`, the
    /// screen `cells` and a random number generator in state `rng` to
    /// `after`, `cells_after` and `rng_after`, and report `outcome`: the
    /// program stays the one it is and does what a resume of its own does.
    pub open spec fn resumes_to(
        self,
        input: Option<u8>,
        cells: Seq<Cell>,
        rng: u32,
        after: Self,
        cells_after: Seq<Cell>,
        rng_after: u32,
        outcome: Poll,
    ) -> bool {
        match (self, after) {
            (Program::Enhancer(before), Program::Enhancer(after)) => {
                &&& outcome == Poll::Pending
                &&& (after@, cells_after, rng_after) == before@.resume(cells, rng)
            },
            (Program::Generator(before), Program::Generator(after)) => {
                &&& (after@, cells_after, outcome) == before@.resume(input, cells)
                &&& rng_after == rng
            },
            (Program::Matrix(before), Program::Matrix(after)) => {
                (after@, cells_after, rng_after, outcome) == before@.resume(input, cells, rng)
            },
            (Program::Hypnotizer(before), Program::Hypnotizer(after)) => {
                (after@, cells_after, rng_after, outcome) == before@.resume(input, cells, rng)
            },
            _ => false,
        }
    }

    /// The program that a menu entry starts, freshly made. The panic screen
    /// is no program: it takes over the machine.
    pub fn launch(choice: MenuChoice) -> (program: Option<Program>)
        ensures
            program is None <==> choice == MenuChoice::Panic,
            program matches Some(launched) ==> launched.wf() && match (choice, launched) {
                (MenuChoice::Generator, Program::Generator(generator)) => generator@
                    == GeneratorView::fresh(),
                (MenuChoice::Matrix, Program::Matrix(matrix)) => matrix@ == MatrixView::fresh(),
                (MenuChoice::Hypnotizer, Program::Hypnotizer(hypnotizer)) => hypnotizer@
                    == HypnotizerView::fresh(),
                _ => false,
            },
    {
        match choice {
            MenuChoice::Generator => Some(Program::Generator(Generator::new())),
            MenuChoice::Panic => None,
            MenuChoice::Matrix => Some(Program::Matrix(Matrix::new())),
            MenuChoice::Hypnotizer => Some(Program::Hypnotizer(Hypnotizer::new())),
        }
    }

    /// Whether the next resume looks at the keyboard. The caller reads a
    /// scan code for a resume only if it does, so that no key is lost on a
    /// resume that would not look at it.
    pub fn wants_input(&self) -> (wanted: bool)
        ensures
            wanted == self.spec_wants_input(),
    {
        match self {
            Program::Enhancer(_) => false,
            Program::Generator(generator) => generator.wants_input(),
            Program::Matrix(matrix) => matrix.wants_input(),
            Program::Hypnotizer(hypnotizer) => hypnotizer.wants_input(),
        }
    }

    /// Runs the program up to its next suspension point.
    pub fn resume(
        &mut self,
        cx: &mut Context<'_>,
        input: Option<u8>,
        screen: &mut Screen,
        rng: &mut Rng,
    ) -> (outcome: Poll)
        requires
            old(self).wf(),
        ensures
            final(self).wf(),
            old(self).resumes_to(
                input,
                old(screen)@,
                old(rng)@,
                *final(self),
                final(screen)@,
                final(rng)@,
                outcome,
            ),
    {
        match self {
            Program::Enhancer(enhancer) => enhancer.resume(cx, screen, rng),
            Program::Generator(generator) => generator.resume(cx, input, screen),
            Program::Matrix(matrix) => matrix.resume(cx, input, screen, rng),
            Program::Hypnotizer(hypnotizer) => hypnotizer.resume(cx, input, screen, rng),
        }
    }
}

} // verus!
