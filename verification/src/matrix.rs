//! The character rain: in every column a short trail of random characters
//! falls down the screen, each column at its own speed.

use vstd::prelude::*;
use vstd::string::*;
use crate::computation::{Computation, Poll};
use crate::keyboard::KEY_ESC;
use crate::rng::{
    get_random_char, get_random_color, next_random, random, random_char, random_color, Rng,
};
use crate::screen::{with_char, write_at, Cell, Screen};
use crate::suspend::{pause_step, Pause, PauseView};
use crate::waker::Context;

verus! {

/// The number of columns that rain falls in.
pub const MATRIX_COLUMNS: usize = 80;

/// The number of rows that a trail falls through before it starts again at
/// the top.
pub const MATRIX_ROWS: u8 = 25;

/// The greatest number of rows that a trail falls in one frame.
pub const MATRIX_MAX_SPEED: u8 = 3;

/// The number of cells, from the head of a trail upwards, that are blanked
/// before the trail is drawn.
pub const MATRIX_BLANKED: u8 = 5;

/// The number of characters in a trail, head included.
pub const MATRIX_TRAIL: u8 = 8;

/// The units of delay after each frame.
pub const MATRIX_PAUSE: u32 = 50_000;

/// What the rain does when it is resumed next.
pub enum MatrixPhaseView {
    /// It draws the starting row and the speed of every column, and goes on
    /// as in `Working`.
    Starting,
    /// It looks at the keyboard and draws a frame.
    Working,
    /// It pauses after a frame.
    Pausing(PauseView),
    /// The escape key has ended it.
    Finished,
}

/// The rain as contracts see it.
pub struct MatrixView {
    /// The row of the head of the trail in each column.
    pub heads: Seq<u8>,
    /// The number of rows that the trail in each column falls per frame.
    pub speeds: Seq<u8>,
    /// What happens on the next resume.
    pub phase: MatrixPhaseView,
}

/// The row that lies `above` rows above `head`, counted round from the top
/// row to the bottom row.
pub open spec fn row_above(head: u8, above: nat) -> int {
    if head >= above {
        head - above
    } else {
        MATRIX_ROWS + head - above
    }
}

/// The colour of the character that follows the head of a trail at a
/// distance of `behind` rows: white for the head itself, bright green for the
/// next two, dark green for the rest.
pub open spec fn trail_color(behind: nat) -> u8 {
    if behind == 0 {
        0x0f
    } else if behind < 3 {
        0x0a
    } else {
        0x02
    }
}

/// The speed that the number `roll` stands for: 1, 2 or 3.
pub open spec fn speed_from(roll: u32) -> u8 {
    (roll % 3 + 1) as u8
}

/// The columns of the rain together with the screen that it falls on and
/// the state of the random number generator that it draws from: all that a
/// frame reads and changes.
pub struct Rain {
    /// The row of the head of the trail in each column.
    pub heads: Seq<u8>,
    /// The number of rows that the trail in each column falls per frame.
    pub speeds: Seq<u8>,
    /// The cells of the screen.
    pub cells: Seq<Cell>,
    /// The state of the random number generator.
    pub rng: u32,
}

impl Rain {
    /// The rain after the first `count` columns have been given a speed and
    /// a starting row, each from two numbers drawn one after the other.
    #[verifier::opaque]
    pub open spec fn started(self, count: nat) -> Rain
        decreases count,
    {
        if count == 0 {
            self
        } else {
            let earlier = self.started((count - 1) as nat);
            let first = next_random(earlier.rng);
            let second = next_random(first);
            Rain {
                heads: earlier.heads.update(count - 1, (second % 25) as u8),
                speeds: earlier.speeds.update(count - 1, speed_from(first)),
                cells: earlier.cells,
                rng: second,
            }
        }
    }

    /// Starting the columns leaves the screen alone.
    pub proof fn lemma_started_leaves_the_screen(self, count: nat)
        ensures
            self.started(count).cells == self.cells,
        decreases count,
    {
        reveal(Rain::started);
        if count > 0 {
            self.lemma_started_leaves_the_screen((count - 1) as nat);
        }
    }

    /// The rain after the head in column `col` has fallen by the speed of
    /// the column, round from the bottom row to the top row.
    pub open spec fn moved(self, col: int) -> Rain {
        Rain {
            heads: self.heads.update(
                col,
                ((self.heads[col] + self.speeds[col]) % (MATRIX_ROWS as int)) as u8,
            ),
            ..self
        }
    }

    /// The rain after `count` cells of column `col` have been blanked, from
    /// the head upwards.
    #[verifier::opaque]
    pub open spec fn blanked(self, col: int, count: nat) -> Rain
        decreases count,
    {
        if count == 0 {
            self
        } else {
            let earlier = self.blanked(col, (count - 1) as nat);
            Rain {
                cells: with_char(
                    earlier.cells,
                    0x20,
                    row_above(self.heads[col], (count - 1) as nat),
                    col,
                    0x00,
                ),
                ..earlier
            }
        }
    }

    /// The rain after `count` characters of the trail in column `col` have
    /// been drawn, from the head upwards. Each is a random character. One
    /// in twenty, by a number drawn for it, gets a random colour, the others
    /// the colour of their place in the trail.
    #[verifier::opaque]
    pub open spec fn trailed(self, col: int, count: nat) -> Rain
        decreases count,
    {
        if count == 0 {
            self
        } else {
            let earlier = self.trailed(col, (count - 1) as nat);
            let ch = random_char(earlier.rng);
            let roll = next_random(next_random(earlier.rng));
            let lucky = roll % 20 == 0;
            let color = if lucky {
                random_color(roll)
            } else {
                trail_color((count - 1) as nat)
            };
            Rain {
                cells: with_char(
                    earlier.cells,
                    ch,
                    row_above(self.heads[col], (count - 1) as nat),
                    col,
                    color,
                ),
                rng: if lucky {
                    next_random(roll)
                } else {
                    roll
                },
                ..earlier
            }
        }
    }

    /// The rain after the lottery that ends the turn of column `col`: one
    /// column in a hundred, by a number drawn for it, starts again from the
    /// top row at a speed drawn anew.
    pub open spec fn restarted(self, col: int) -> Rain {
        let roll = next_random(self.rng);
        if roll % 100 == 0 {
            Rain {
                heads: self.heads.update(col, 0),
                speeds: self.speeds.update(col, speed_from(next_random(roll))),
                cells: self.cells,
                rng: next_random(roll),
            }
        } else {
            Rain { rng: roll, ..self }
        }
    }

    /// The rain after the turn of column `col`: its head falls, the cells
    /// from the head upwards are blanked, the trail is drawn over them, and
    /// the lottery decides whether the column starts again.
    pub open spec fn fallen(self, col: int) -> Rain {
        self.moved(col).blanked(col, MATRIX_BLANKED as nat).trailed(
            col,
            MATRIX_TRAIL as nat,
        ).restarted(col)
    }

    /// The rain after the first `count` columns have had their turn, from
    /// the left to the right.
    #[verifier::opaque]
    pub open spec fn frame(self, count: nat) -> Rain
        decreases count,
    {
        if count == 0 {
            self
        } else {
            self.frame((count - 1) as nat).fallen(count - 1)
        }
    }
}

impl MatrixView {
    /// A rain that has not started: every head is in the top row, every
    /// speed is 1, and the first resume draws them anew.
    pub open spec fn fresh() -> Self {
        MatrixView {
            heads: Seq::new(MATRIX_COLUMNS as nat, |col: int| 0u8),
            speeds: Seq::new(MATRIX_COLUMNS as nat, |col: int| 1u8),
            phase: MatrixPhaseView::Starting,
        }
    }

    /// There is a head and a speed for every column, every head is on the
    /// screen and every speed is between 1 and [`MATRIX_MAX_SPEED`].
    pub open spec fn wf(self) -> bool {
        &&& self.heads.len() == MATRIX_COLUMNS
        &&& self.speeds.len() == MATRIX_COLUMNS
        &&& forall|col: int| 0 <= col < MATRIX_COLUMNS ==> self.heads[col] < MATRIX_ROWS
        &&& forall|col: int|
            0 <= col < MATRIX_COLUMNS ==> 1 <= #[trigger] self.speeds[col] && self.speeds[col]
                <= MATRIX_MAX_SPEED
    }

    /// Whether the next resume goes on with a pause that is not over yet. If
    /// so, that is all it does.
    pub open spec fn keeps_pausing(self) -> bool {
        self.phase matches MatrixPhaseView::Pausing(pause) && pause_step(pause).1 == Poll::Pending
    }

    /// Whether the next resume looks at the keyboard: it does unless the rain
    /// has finished or is in the middle of a pause.
    pub open spec fn wants_input(self) -> bool {
        !(self.phase is Finished) && !self.keeps_pausing()
    }

    /// The columns of this rain, with the screen `cells` and a random number
    /// generator in state `rng`.
    pub open spec fn rain(self, cells: Seq<Cell>, rng: u32) -> Rain {
        Rain { heads: self.heads, speeds: self.speeds, cells, rng }
    }

    /// What one resume with the scan code `input` makes of the rain, of the
    /// screen and of the state of the random number generator, and what it
    /// reports.
    ///
    /// A pause that is not over goes on. Otherwise the columns are started,
    /// if they have not been; then the escape key ends the rain, and without
    /// it a frame is drawn and the pause that follows is begun.
    pub open spec fn resume(self, input: Option<u8>, cells: Seq<Cell>, rng: u32) -> (
        Self,
        Seq<Cell>,
        u32,
        Poll,
    ) {
        if self.phase is Finished {
            (self, cells, rng, Poll::Ready)
        } else if self.keeps_pausing() {
            (
                MatrixView {
                    phase: MatrixPhaseView::Pausing(pause_step(self.phase->Pausing_0).0),
                    ..self
                },
                cells,
                rng,
                Poll::Pending,
            )
        } else {
            let ready = if self.phase is Starting {
                self.rain(cells, rng).started(MATRIX_COLUMNS as nat)
            } else {
                self.rain(cells, rng)
            };
            if input == Some(KEY_ESC) {
                (
                    MatrixView {
                        heads: ready.heads,
                        speeds: ready.speeds,
                        phase: MatrixPhaseView::Finished,
                    },
                    ready.cells,
                    ready.rng,
                    Poll::Ready,
                )
            } else {
                let drawn = ready.frame(MATRIX_COLUMNS as nat);
                (
                    MatrixView {
                        heads: drawn.heads,
                        speeds: drawn.speeds,
                        phase: MatrixPhaseView::Pausing(
                            pause_step(PauseView::Delaying(MATRIX_PAUSE as nat)).0,
                        ),
                    },
                    drawn.cells,
                    drawn.rng,
                    Poll::Pending,
                )
            }
        }
    }
}

enum MatrixPhase {
    Starting,
    Working,
    Pausing(Pause),
    Finished,
}

/// The character rain.
pub struct Matrix {
    columns: [u8; MATRIX_COLUMNS],
    column_speeds: [u8; MATRIX_COLUMNS],
    phase: MatrixPhase,
}

impl View for Matrix {
    type V = MatrixView;

    closed spec fn view(&self) -> MatrixView {
        MatrixView {
            heads: self.columns@,
            speeds: self.column_speeds@,
            phase: match self.phase {
                MatrixPhase::Starting => MatrixPhaseView::Starting,
                MatrixPhase::Working => MatrixPhaseView::Working,
                MatrixPhase::Pausing(pause) => MatrixPhaseView::Pausing(pause@),
                MatrixPhase::Finished => MatrixPhaseView::Finished,
            },
        }
    }
}

impl Matrix {
    /// A rain that has not started.
    pub fn new() -> (matrix: Self)
        ensures
            matrix@ == MatrixView::fresh(),
            matrix@.wf(),
    {
        let matrix = Matrix {
            columns: [0u8; MATRIX_COLUMNS],
            column_speeds: [1u8; MATRIX_COLUMNS],
            phase: MatrixPhase::Starting,
        };
        assert(matrix@.heads =~= MatrixView::fresh().heads);
        assert(matrix@.speeds =~= MatrixView::fresh().speeds);
        matrix
    }

    /// The row of the head of the trail in column `col`.
    pub fn head(&self, col: usize) -> (row: u8)
        requires
            col < MATRIX_COLUMNS,
        ensures
            row == self@.heads[col as int],
    {
        self.columns[col]
    }

    /// The number of rows that the trail in column `col` falls per frame.
    pub fn speed(&self, col: usize) -> (rows: u8)
        requires
            col < MATRIX_COLUMNS,
        ensures
            rows == self@.speeds[col as int],
    {
        self.column_speeds[col]
    }

    /// Whether the next resume looks at the keyboard.
    pub fn wants_input(&self) -> (wanted: bool)
        ensures
            wanted == self@.wants_input(),
    {
        match &self.phase {
            MatrixPhase::Starting => true,
            MatrixPhase::Working => true,
            MatrixPhase::Pausing(pause) => pause.has_yielded(),
            MatrixPhase::Finished => false,
        }
    }

    /// The columns, as contracts see them, with a screen and the state of a
    /// random number generator.
    spec fn rain(&self, cells: Seq<Cell>, rng: u32) -> Rain {
        self@.rain(cells, rng)
    }

    /// Draws a speed and a starting row for every column.
    fn start(&mut self, screen: &Screen, rng: &mut Rng)
        requires
            old(self)@.wf(),
        ensures
            final(self)@.wf(),
            final(self)@.phase == old(self)@.phase,
            final(self).rain(screen@, final(rng)@) == old(self).rain(screen@, old(rng)@).started(
                MATRIX_COLUMNS as nat,
            ),
    {
        let ghost before = self.rain(screen@, rng@);
        proof {
            reveal(Rain::started);
        }
        let mut col: usize = 0;
        while col < MATRIX_COLUMNS
            invariant
                col <= MATRIX_COLUMNS,
                self@.wf(),
                self@.phase == old(self)@.phase,
                before.heads.len() == MATRIX_COLUMNS,
                before.speeds.len() == MATRIX_COLUMNS,
                self.rain(screen@, rng@) == before.started(col as nat),
            decreases MATRIX_COLUMNS - col,
        {
            let speed = (random(rng) % 3 + 1) as u8;
            let head = (random(rng) % 25) as u8;
            self.column_speeds[col] = speed;
            self.columns[col] = head;
            proof {
                reveal(Rain::started);
                let now = before.started((col + 1) as nat);
                assert(self@.heads =~= now.heads);
                assert(self@.speeds =~= now.speeds);
            }
            col = col + 1;
        }
    }

    /// Lets the trail in column `col` fall by one frame and draws it.
    fn fall(&mut self, col: usize, screen: &mut Screen, rng: &mut Rng)
        requires
            old(self)@.wf(),
            col < MATRIX_COLUMNS,
        ensures
            final(self)@.wf(),
            final(self)@.phase == old(self)@.phase,
            final(self).rain(final(screen)@, final(rng)@) == old(self).rain(
                old(screen)@,
                old(rng)@,
            ).fallen(col as int),
    {
        let ghost before = self.rain(screen@, rng@);
        proof {
            screen.lemma_len();
        }
        let head: u8 = (self.columns[col] + self.column_speeds[col]) % MATRIX_ROWS;
        self.columns[col] = head;
        let ghost moved = before.moved(col as int);
        assert(self@.heads =~= moved.heads);
        proof {
            reveal(Rain::blanked);
            reveal(Rain::trailed);
        }
        let mut above: u8 = 0;
        while above < MATRIX_BLANKED
            invariant
                above <= MATRIX_BLANKED,
                head < MATRIX_ROWS,
                col < MATRIX_COLUMNS,
                moved.heads.len() == MATRIX_COLUMNS,
                moved.heads[col as int] == head,
                self.rain(screen@, rng@) == moved.blanked(col as int, above as nat),
            decreases MATRIX_BLANKED - above,
        {
            let row: u8 = if head >= above {
                head - above
            } else {
                MATRIX_ROWS + head - above
            };
            if row < MATRIX_ROWS {
                let ghost cells = screen@;
                proof {
                    reveal(Rain::blanked);
                    reveal_strlit(" ");
                    is_ascii_spec_bytes(" ");
                    screen.lemma_len();
                }
                write_at(screen, " ".as_bytes(), row as usize, col, 0x00);
                assert(screen@ =~= with_char(cells, 0x20, row as int, col as int, 0x00));
            }
            above = above + 1;
        }
        let ghost blanked = moved.blanked(col as int, MATRIX_BLANKED as nat);
        let mut behind: u8 = 0;
        while behind < MATRIX_TRAIL
            invariant
                behind <= MATRIX_TRAIL,
                head < MATRIX_ROWS,
                col < MATRIX_COLUMNS,
                blanked.heads.len() == MATRIX_COLUMNS,
                blanked.heads[col as int] == head,
                self.rain(screen@, rng@) == blanked.trailed(col as int, behind as nat),
            decreases MATRIX_TRAIL - behind,
        {
            let row: u8 = if head >= behind {
                head - behind
            } else {
                MATRIX_ROWS + head - behind
            };
            if row < MATRIX_ROWS {
                let ch = get_random_char(rng);
                let color: u8 = if behind == 0 {
                    0x0f
                } else if behind < 3 {
                    0x0a
                } else {
                    0x02
                };
                let final_color = if random(rng) % 20 == 0 {
                    get_random_color(rng)
                } else {
                    color
                };
                let text: [u8; 1] = [ch];
                let ghost cells = screen@;
                proof {
                    reveal(Rain::trailed);
                    screen.lemma_len();
                }
                write_at(screen, &text, row as usize, col, final_color);
                assert(screen@ =~= with_char(cells, ch, row as int, col as int, final_color));
            }
            behind = behind + 1;
        }
        let ghost trailed = blanked.trailed(col as int, MATRIX_TRAIL as nat);
        if random(rng) % 100 == 0 {
            self.columns[col] = 0;
            self.column_speeds[col] = (random(rng) % 3 + 1) as u8;
        }
        proof {
            let after = trailed.restarted(col as int);
            assert(self@.heads =~= after.heads);
            assert(self@.speeds =~= after.speeds);
        }
    }

    /// Draws one frame: every column falls once, from the left to the right.
    fn draw_frame(&mut self, screen: &mut Screen, rng: &mut Rng)
        requires
            old(self)@.wf(),
        ensures
            final(self)@.wf(),
            final(self)@.phase == old(self)@.phase,
            final(self).rain(final(screen)@, final(rng)@) == old(self).rain(
                old(screen)@,
                old(rng)@,
            ).frame(MATRIX_COLUMNS as nat),
    {
        let ghost before = self.rain(screen@, rng@);
        proof {
            reveal(Rain::frame);
        }
        let mut col: usize = 0;
        while col < MATRIX_COLUMNS
            invariant
                col <= MATRIX_COLUMNS,
                self@.wf(),
                self@.phase == old(self)@.phase,
                self.rain(screen@, rng@) == before.frame(col as nat),
            decreases MATRIX_COLUMNS - col,
        {
            self.fall(col, screen, rng);
            proof {
                reveal(Rain::frame);
            }
            col = col + 1;
        }
    }

    /// Runs the rain up to its next suspension point.
    ///
    /// `input` is the scan code that was read for this resume, if one was
    /// read; it is looked at only where [`Matrix::wants_input`] said so.
    pub fn resume(
        &mut self,
        cx: &mut Context<'_>,
        input: Option<u8>,
        screen: &mut Screen,
        rng: &mut Rng,
    ) -> (outcome: Poll)
        requires
            old(self)@.wf(),
        ensures
            final(self)@.wf(),
            (final(self)@, final(screen)@, final(rng)@, outcome) == old(self)@.resume(
                input,
                old(screen)@,
                old(rng)@,
            ),
    {
        if let MatrixPhase::Finished = self.phase {
            return Poll::Ready;
        }
        if let MatrixPhase::Pausing(pause) = &mut self.phase {
            if let Poll::Pending = pause.poll(cx) {
                return Poll::Pending;
            }
            self.phase = MatrixPhase::Working;
        }
        if let MatrixPhase::Starting = self.phase {
            self.start(screen, rng);
            self.phase = MatrixPhase::Working;
        }
        if let Some(scan_code) = input {
            if scan_code == KEY_ESC {
                self.phase = MatrixPhase::Finished;
                return Poll::Ready;
            }
        }
        self.draw_frame(screen, rng);
        self.phase = MatrixPhase::Pausing(Pause::new(MATRIX_PAUSE));
        match &mut self.phase {
            MatrixPhase::Pausing(pause) => pause.poll(cx),
            _ => Poll::Pending,
        }
    }
}

} // verus!
