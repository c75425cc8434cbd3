//! The word generator: it writes a word down the screen, one line at a time
//! and in changing colours, and starts over on a cleared screen when the page
//! is full.

use vstd::prelude::*;
use vstd::string::*;
use crate::computation::{Computation, Poll};
use crate::keyboard::KEY_ESC;
use crate::screen::{blank_cells, clear_screen, with_line, write_at, Cell, Screen};
use crate::suspend::{delay_step, pause_step, Delay, Pause, PauseView};
use crate::waker::Context;

verus! {

/// The colours that the generator cycles through.
pub const GENERATOR_COLORS: [u8; 6] = [0x0c, 0x0a, 0x0e, 0x0b, 0x0d, 0x09];

/// The number of colours in [`GENERATOR_COLORS`].
pub const GENERATOR_COLOR_COUNT: usize = 6;

/// The column in which the word starts.
pub const GENERATOR_COLUMN: usize = 38;

/// The number of lines on a page.
pub const GENERATOR_LINES: usize = 25;

/// The units of delay after each line.
pub const GENERATOR_LINE_PAUSE: u32 = 500_000;

/// The units of delay before a full page is cleared.
pub const GENERATOR_PAGE_PAUSE: u32 = 5_000_000;

/// What the generator does when it is resumed next.
pub enum GeneratorPhaseView {
    /// It looks at the keyboard and writes a line.
    Working,
    /// The page is full: it waits, with this many units left, and then
    /// clears the screen.
    PageFull(nat),
    /// It pauses after a line.
    Pausing(PauseView),
    /// The escape key has ended it.
    Finished,
}

/// The generator as contracts see it.
pub struct GeneratorView {
    /// The line that is written next.
    pub line: nat,
    /// The place in [`GENERATOR_COLORS`] of the colour that is used next.
    pub color_index: nat,
    /// What happens on the next resume.
    pub phase: GeneratorPhaseView,
}

impl GeneratorView {
    /// A generator that is about to write its first line, on line 0 and in
    /// the first colour.
    pub open spec fn fresh() -> Self {
        GeneratorView { line: 0, color_index: 0, phase: GeneratorPhaseView::Working }
    }

    /// The line is on the page and the colour is one of the cycle.
    pub open spec fn wf(self) -> bool {
        self.line < GENERATOR_LINES && self.color_index < GENERATOR_COLOR_COUNT
    }

    /// Whether the next resume looks at the keyboard: it does when a line is
    /// due, at once or after the yield that ends a pause.
    pub open spec fn wants_input(self) -> bool {
        self.phase is Working || self.phase == GeneratorPhaseView::Pausing(
            PauseView::Yielding(true),
        )
    }

    /// The generator in another phase.
    pub open spec fn in_phase(self, phase: GeneratorPhaseView) -> Self {
        GeneratorView { phase, ..self }
    }

    /// A round of work: the escape key ends the generator; without it a line
    /// is written and the pause that follows is begun.
    pub open spec fn work(self, input: Option<u8>, cells: Seq<Cell>) -> (Self, Seq<Cell>, Poll) {
        if input == Some(KEY_ESC) {
            (self.in_phase(GeneratorPhaseView::Finished), cells, Poll::Ready)
        } else {
            let written = with_line(
                cells,
                "SWAG",
                self.line as int,
                GENERATOR_COLUMN as int,
                GENERATOR_COLORS[self.color_index as int],
            );
            let line = (self.line + 1) % (GENERATOR_LINES as nat);
            let color_index = (self.color_index + 1) % (GENERATOR_COLOR_COUNT as nat);
            let phase = if line == 0 {
                GeneratorPhaseView::PageFull(delay_step(GENERATOR_PAGE_PAUSE as nat).0)
            } else {
                GeneratorPhaseView::Pausing(
                    pause_step(PauseView::Delaying(GENERATOR_LINE_PAUSE as nat)).0,
                )
            };
            (GeneratorView { line, color_index, phase }, written, Poll::Pending)
        }
    }

    /// What one resume makes of the generator and of the screen, and what it
    /// reports.
    pub open spec fn resume(self, input: Option<u8>, cells: Seq<Cell>) -> (Self, Seq<Cell>, Poll) {
        match self.phase {
            GeneratorPhaseView::Finished => (self, cells, Poll::Ready),
            GeneratorPhaseView::Working => self.work(input, cells),
            GeneratorPhaseView::Pausing(pause) => {
                if pause_step(pause).1 == Poll::Pending {
                    (
                        self.in_phase(GeneratorPhaseView::Pausing(pause_step(pause).0)),
                        cells,
                        Poll::Pending,
                    )
                } else {
                    self.work(input, cells)
                }
            },
            GeneratorPhaseView::PageFull(remaining) => {
                if delay_step(remaining).1 == Poll::Pending {
                    (
                        self.in_phase(GeneratorPhaseView::PageFull(delay_step(remaining).0)),
                        cells,
                        Poll::Pending,
                    )
                } else {
                    (
                        self.in_phase(
                            GeneratorPhaseView::Pausing(
                                pause_step(PauseView::Delaying(GENERATOR_LINE_PAUSE as nat)).0,
                            ),
                        ),
                        blank_cells(),
                        Poll::Pending,
                    )
                }
            },
        }
    }
}

enum GeneratorPhase {
    Working,
    PageFull(Delay),
    Pausing(Pause),
    Finished,
}

/// The word generator.
pub struct Generator {
    current_line: usize,
    color_index: usize,
    phase: GeneratorPhase,
}

impl View for Generator {
    type V = GeneratorView;

    closed spec fn view(&self) -> GeneratorView {
        GeneratorView {
            line: self.current_line as nat,
            color_index: self.color_index as nat,
            phase: match self.phase {
                GeneratorPhase::Working => GeneratorPhaseView::Working,
                GeneratorPhase::PageFull(delay) => GeneratorPhaseView::PageFull(delay@),
                GeneratorPhase::Pausing(pause) => GeneratorPhaseView::Pausing(pause@),
                GeneratorPhase::Finished => GeneratorPhaseView::Finished,
            },
        }
    }
}

impl Generator {
    /// A generator that is about to write its first line.
    pub fn new() -> (generator: Self)
        ensures
            generator@ == GeneratorView::fresh(),
    {
        Generator { current_line: 0, color_index: 0, phase: GeneratorPhase::Working }
    }

    /// The line that is written next.
    pub fn current_line(&self) -> (line: usize)
        ensures
            line == self@.line,
    {
        self.current_line
    }

    /// The place in [`GENERATOR_COLORS`] of the colour that is used next.
    pub fn color_index(&self) -> (index: usize)
        ensures
            index == self@.color_index,
    {
        self.color_index
    }

    /// Whether the next resume looks at the keyboard.
    pub fn wants_input(&self) -> (wanted: bool)
        ensures
            wanted == self@.wants_input(),
    {
        match &self.phase {
            GeneratorPhase::Working => true,
            GeneratorPhase::Pausing(pause) => pause.has_yielded(),
            _ => false,
        }
    }

    /// Runs the generator up to its next suspension point.
    ///
    /// `input` is the scan code that was read for this resume, if one was
    /// read; it is looked at only where [`Generator::wants_input`] said so.
    pub fn resume(&mut self, cx: &mut Context<'_>, input: Option<u8>, screen: &mut Screen) -> (outcome:
        Poll)
        requires
            old(self)@.wf(),
        ensures
            final(self)@.wf(),
            (final(self)@, final(screen)@, outcome) == old(self)@.resume(input, old(screen)@),
    {
        if let GeneratorPhase::Finished = self.phase {
            return Poll::Ready;
        }
        if let GeneratorPhase::Pausing(pause) = &mut self.phase {
            if let Poll::Pending = pause.poll(cx) {
                return Poll::Pending;
            }
            self.phase = GeneratorPhase::Working;
        }
        if let GeneratorPhase::Working = self.phase {
            if let Some(scan_code) = input {
                if scan_code == KEY_ESC {
                    self.phase = GeneratorPhase::Finished;
                    return Poll::Ready;
                }
            }
            write_at(
                screen,
                "SWAG".as_bytes(),
                self.current_line,
                GENERATOR_COLUMN,
                GENERATOR_COLORS[self.color_index],
            );
            self.current_line = (self.current_line + 1) % GENERATOR_LINES;
            self.color_index = (self.color_index + 1) % GENERATOR_COLOR_COUNT;
            if self.current_line == 0 {
                self.phase = GeneratorPhase::PageFull(Delay::new(GENERATOR_PAGE_PAUSE));
            } else {
                self.phase = GeneratorPhase::Pausing(Pause::new(GENERATOR_LINE_PAUSE));
            }
        }
        if let GeneratorPhase::PageFull(delay) = &mut self.phase {
            if let Poll::Pending = delay.poll(cx) {
                return Poll::Pending;
            }
            clear_screen(screen);
            self.phase = GeneratorPhase::Pausing(Pause::new(GENERATOR_LINE_PAUSE));
        }
        match &mut self.phase {
            GeneratorPhase::Pausing(pause) => pause.poll(cx),
            _ => Poll::Pending,
        }
    }
}

} // verus!
