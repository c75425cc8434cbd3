//! The hypnotizer: pulsing rings, words in orbit, a word in the middle, and a
//! border that crawls round the screen, all over a picture that fades away at
//! random.

use vstd::prelude::*;
use vstd::string::*;
use crate::computation::{Computation, Poll};
use crate::keyboard::KEY_ESC;
use crate::rng::{get_random_color, next_random, random, random_color, Rng};
use crate::screen::{
    blank_cells, clear_screen, with_char, with_line, write_at, write_char_at, Cell, Screen,
    SCREEN_CELLS, SCREEN_HEIGHT, SCREEN_WIDTH,
};
use crate::suspend::{pause_step, Pause, PauseView};
use crate::trig::{cos_approx, cos_approx_spec, sin_approx, sin_approx_spec};
use crate::waker::Context;

verus! {

/// The row of the centre of the picture.
pub const HYPNOTIZER_CENTER_ROW: usize = 12;

/// The column of the centre of the picture.
pub const HYPNOTIZER_CENTER_COL: usize = 40;

/// The number of words in orbit.
pub const HYPNOTIZER_ORBITS: usize = 5;

/// The number of rings.
pub const HYPNOTIZER_RINGS: i32 = 8;

/// The number of marks on a ring: one every 15 degrees.
pub const HYPNOTIZER_RING_MARKS: i32 = 24;

/// The number of marks that crawl along the border.
pub const HYPNOTIZER_BORDER_MARKS: i32 = 8;

/// The units of delay after each frame.
pub const HYPNOTIZER_PAUSE: u32 = 30_000;

/// The count at which the clock starts again from 0.
pub const HYPNOTIZER_CLOCK: i32 = 3600;

/// What the hypnotizer does when it is resumed next.
pub enum HypnotizerPhaseView {
    /// It clears the screen and goes on as in `Working`.
    Starting,
    /// It looks at the keyboard and draws a frame.
    Working,
    /// It pauses after a frame.
    Pausing(PauseView),
    /// The escape key has ended it.
    Finished,
}

/// The hypnotizer as contracts see it.
pub struct HypnotizerView {
    /// The clock: it goes up by 8 with every frame and starts again before
    /// it reaches [`HYPNOTIZER_CLOCK`].
    pub time: int,
    /// The angle that the pulse of the rings has reached, in degrees.
    pub pulse_phase: int,
    /// The angles at which the words in orbit stand, in degrees.
    pub orbit_angles: Seq<i32>,
    /// The place of the current word among the four that there are.
    pub text_index: nat,
    /// What happens on the next resume.
    pub phase: HypnotizerPhaseView,
}

/// The screen together with the state of the random number generator: what
/// a frame draws on and draws from.
pub struct Picture {
    /// The cells of the screen.
    pub cells: Seq<Cell>,
    /// The state of the random number generator.
    pub rng: u32,
}

/// The bright colour that stands for a wave of height `wave`: the eight of
/// them take turns, one for every hundred that the wave is away from 0.
pub open spec fn bright_color(wave: int) -> u8 {
    (0x08 + (if wave < 0 {
        -wave
    } else {
        wave
    } / 100) % 8) as u8
}

/// The colour of the ring with radius `radius` when the pulse stands at
/// `pulse_phase` degrees.
pub open spec fn ring_color(pulse_phase: int, radius: int) -> u8 {
    let intensity = sin_approx_spec((pulse_phase + radius * 45) % 360) / 100 + 10;
    let base = (0x08 + intensity % 8) % 0x0f;
    if base == 0 {
        0x08
    } else {
        base as u8
    }
}

/// The mark that the ring with radius `radius` is drawn with: `*`, `+`, `o`
/// and `.` take turns.
pub open spec fn ring_mark(radius: int) -> u8 {
    if radius % 4 == 0 {
        0x2a
    } else if radius % 4 == 1 {
        0x2b
    } else if radius % 4 == 2 {
        0x6f
    } else {
        0x2e
    }
}

/// The column of the point that lies `radius` away from the centre in the
/// direction of `angle` degrees.
pub open spec fn orbit_col(angle: int, radius: int) -> int {
    HYPNOTIZER_CENTER_COL + cos_approx_spec(angle) * radius / 1000
}

/// The row of the point that lies `radius` away from the centre in the
/// direction of `angle` degrees. Rows are twice as high as columns are wide,
/// so the distance counts half.
pub open spec fn orbit_row(angle: int, radius: int) -> int {
    HYPNOTIZER_CENTER_ROW + sin_approx_spec(angle) * radius / 2000
}

/// The word in orbit number `orbit`.
pub open spec fn orbit_word(orbit: int) -> &'static str {
    if orbit % 4 == 0 {
        "SWAG"
    } else if orbit % 4 == 1 {
        "EPIC"
    } else if orbit % 4 == 2 {
        "WOW!"
    } else {
        "MEGA"
    }
}

/// The mark in the corners when the clock stands at `time`: `\`, `|`, `/`
/// and `-` take turns with the height of a wave.
pub open spec fn corner_mark(time: int) -> u8 {
    let turn = (sin_approx_spec((time * 2) % 360) / 300) % 4;
    if turn == 0 {
        0x5c
    } else if turn == 1 {
        0x7c
    } else if turn == 2 {
        0x2f
    } else {
        0x2d
    }
}

/// How far along the border mark number `mark` has crawled when the clock
/// stands at `time`, counted in cells from the top left corner: along the top
/// row, down the right column, back along the bottom row and up the left
/// column, each counted as 80 cells long.
pub open spec fn border_place(time: int, mark: int) -> int {
    ((time / 5) % 320 + mark * 40) % 320
}

/// The row of the cell at `place` on the border. On the two sides it may lie
/// below the last row of the screen.
pub open spec fn border_row(place: int) -> int {
    if place < 80 {
        0
    } else if place < 160 {
        place - 80
    } else if place < 240 {
        24
    } else {
        319 - place
    }
}

/// The column of the cell at `place` on the border.
pub open spec fn border_col(place: int) -> int {
    if place < 80 {
        place
    } else if place < 160 {
        79
    } else if place < 240 {
        239 - place
    } else {
        0
    }
}

/// The colour of mark number `mark` on the border when the clock stands at
/// `time`.
pub open spec fn border_color(time: int, mark: int) -> u8 {
    (0x08 + (mark + (time % 256) / 10) % 7) as u8
}

impl Picture {
    /// The picture after the first `count` cells, counted row by row, have
    /// had their chance to fade: for each a number is drawn, and the cell is
    /// blanked if the number is a multiple of 8.
    #[verifier::opaque]
    pub open spec fn faded(self, count: nat) -> Picture
        decreases count,
    {
        if count == 0 {
            self
        } else {
            let earlier = self.faded((count - 1) as nat);
            let roll = next_random(earlier.rng);
            Picture {
                cells: if roll % 8 == 0 {
                    earlier.cells.update(count - 1, Cell { ch: 0x20, color: 0x00 })
                } else {
                    earlier.cells
                },
                rng: roll,
            }
        }
    }

    /// The picture with the mark `mark` in all four corners, in one colour
    /// drawn at random.
    pub open spec fn with_corners(self, mark: u8) -> Picture {
        let color = random_color(self.rng);
        let cells = with_char(self.cells, mark, 0, 0, color);
        let cells = with_char(cells, mark, 0, 79, color);
        let cells = with_char(cells, mark, 24, 0, color);
        let cells = with_char(cells, mark, 24, 79, color);
        Picture { cells, rng: next_random(self.rng) }
    }
}

/// The clock and the angles of the hypnotizer: what a frame is drawn from.
pub struct Motion {
    /// The clock.
    pub time: int,
    /// The angle that the pulse of the rings has reached, in degrees.
    pub pulse_phase: int,
    /// The angles at which the words in orbit stand, in degrees.
    pub orbit_angles: Seq<i32>,
}

impl Motion {
    /// `cells` with the first `count` marks of the ring with radius `radius`,
    /// one every 15 degrees from the direction that the clock gives. A mark
    /// that would lie off the screen is left out.
    #[verifier::opaque]
    pub open spec fn with_ring(self, cells: Seq<Cell>, radius: int, count: nat) -> Seq<Cell>
        decreases count,
    {
        if count == 0 {
            cells
        } else {
            let angle = 15 * (count - 1) + self.time;
            with_char(
                self.with_ring(cells, radius, (count - 1) as nat),
                ring_mark(radius),
                orbit_row(angle, radius),
                orbit_col(angle, radius),
                ring_color(self.pulse_phase, radius),
            )
        }
    }

    /// `cells` with the first `count` rings, from the innermost outwards.
    #[verifier::opaque]
    pub open spec fn with_rings(self, cells: Seq<Cell>, count: nat) -> Seq<Cell>
        decreases count,
    {
        if count == 0 {
            cells
        } else {
            self.with_ring(
                self.with_rings(cells, (count - 1) as nat),
                count as int,
                HYPNOTIZER_RING_MARKS as nat,
            )
        }
    }

    /// `cells` with the word in orbit number `orbit`, centred on the place
    /// where it stands, if the whole word has room there.
    pub open spec fn with_orbit(self, cells: Seq<Cell>, orbit: int) -> Seq<Cell> {
        let col = orbit_col(self.orbit_angles[orbit] as int, 6 + orbit);
        let row = orbit_row(self.orbit_angles[orbit] as int, 6 + orbit);
        if 2 <= col < 76 && 0 <= row < 25 {
            with_line(
                cells,
                orbit_word(orbit),
                row,
                col - 2,
                bright_color(sin_approx_spec((self.time / 10 + orbit * 50) % 360)),
            )
        } else {
            cells
        }
    }

    /// `cells` with the first `count` words in orbit.
    #[verifier::opaque]
    pub open spec fn with_orbits(self, cells: Seq<Cell>, count: nat) -> Seq<Cell>
        decreases count,
    {
        if count == 0 {
            cells
        } else {
            self.with_orbit(self.with_orbits(cells, (count - 1) as nat), count - 1)
        }
    }

    /// `cells` with the word in the middle, which grows when the pulse is
    /// high.
    pub open spec fn with_center(self, cells: Seq<Cell>) -> Seq<Cell> {
        let pulse = sin_approx_spec(self.pulse_phase * 3);
        if pulse > 500 {
            with_line(
                cells,
                "<<SWAG>>",
                HYPNOTIZER_CENTER_ROW as int,
                HYPNOTIZER_CENTER_COL - 4,
                bright_color(pulse),
            )
        } else {
            with_line(
                cells,
                "SWAG",
                HYPNOTIZER_CENTER_ROW as int,
                HYPNOTIZER_CENTER_COL - 2,
                bright_color(pulse),
            )
        }
    }

    /// `cells` with the first `count` marks on the border. A mark that has
    /// crawled to a place below the screen is left out.
    #[verifier::opaque]
    pub open spec fn with_border(self, cells: Seq<Cell>, count: nat) -> Seq<Cell>
        decreases count,
    {
        if count == 0 {
            cells
        } else {
            let place = border_place(self.time, count - 1);
            with_char(
                self.with_border(cells, (count - 1) as nat),
                0x23,
                border_row(place),
                border_col(place),
                border_color(self.time, count - 1),
            )
        }
    }

    /// The picture after a frame has been drawn over it: the old picture
    /// fades, and over it come the rings, the words in orbit, the word in
    /// the middle, the corners and the border, in this order.
    #[verifier::opaque]
    pub open spec fn frame(self, picture: Picture) -> Picture {
        let faded = picture.faded(SCREEN_CELLS as nat);
        let cells = self.with_rings(faded.cells, HYPNOTIZER_RINGS as nat);
        let cells = self.with_orbits(cells, HYPNOTIZER_ORBITS as nat);
        let cells = self.with_center(cells);
        let cornered = (Picture { cells, rng: faded.rng }).with_corners(corner_mark(self.time));
        Picture {
            cells: self.with_border(cornered.cells, HYPNOTIZER_BORDER_MARKS as nat),
            rng: cornered.rng,
        }
    }
}

impl HypnotizerView {
    /// A hypnotizer that has not started: the clock and the pulse are at 0
    /// and the words in orbit stand 72 degrees apart.
    pub open spec fn fresh() -> Self {
        HypnotizerView {
            time: 0,
            pulse_phase: 0,
            orbit_angles: seq![0i32, 72, 144, 216, 288],
            text_index: 0,
            phase: HypnotizerPhaseView::Starting,
        }
    }

    /// The clock is below [`HYPNOTIZER_CLOCK`], every angle is below 360
    /// degrees, and the current word is one of the four.
    pub open spec fn wf(self) -> bool {
        &&& 0 <= self.time < HYPNOTIZER_CLOCK
        &&& 0 <= self.pulse_phase < 360
        &&& self.orbit_angles.len() == HYPNOTIZER_ORBITS
        &&& forall|i: int| 0 <= i < HYPNOTIZER_ORBITS ==> 0 <= #[trigger] self.orbit_angles[i] < 360
        &&& self.text_index < 4
    }

    /// The clock and the angles.
    pub open spec fn motion(self) -> Motion {
        Motion {
            time: self.time,
            pulse_phase: self.pulse_phase,
            orbit_angles: self.orbit_angles,
        }
    }

    /// Whether the next resume goes on with a pause that is not over yet. If
    /// so, that is all it does.
    pub open spec fn keeps_pausing(self) -> bool {
        self.phase matches HypnotizerPhaseView::Pausing(pause) && pause_step(pause).1
            == Poll::Pending
    }

    /// Whether the next resume looks at the keyboard: it does unless the
    /// hypnotizer has finished or is in the middle of a pause.
    pub open spec fn wants_input(self) -> bool {
        !(self.phase is Finished) && !self.keeps_pausing()
    }

    /// The hypnotizer one frame later, in the phase `phase`: the clock has
    /// gone up by 8, the pulse by 12 degrees and every word in orbit by 3
    /// degrees, and the next word is current if the clock has reached a
    /// multiple of 180.
    pub open spec fn after_frame(self, phase: HypnotizerPhaseView) -> Self {
        let time = (self.time + 8) % (HYPNOTIZER_CLOCK as int);
        HypnotizerView {
            time,
            pulse_phase: (self.pulse_phase + 12) % 360,
            orbit_angles: Seq::new(
                self.orbit_angles.len(),
                |i: int| ((self.orbit_angles[i] + 3) % 360) as i32,
            ),
            text_index: if time % 180 == 0 {
                (self.text_index + 1) % 4
            } else {
                self.text_index
            },
            phase,
        }
    }

    /// The hypnotizer in another phase.
    pub open spec fn in_phase(self, phase: HypnotizerPhaseView) -> Self {
        HypnotizerView { phase, ..self }
    }

    /// What one resume with the scan code `input` makes of the hypnotizer,
    /// of the screen and of the state of the random number generator, and
    /// what it reports.
    ///
    /// A pause that is not over goes on. Otherwise the screen is cleared, if
    /// this is the first resume; then the escape key ends the hypnotizer,
    /// and without it a frame is drawn, the clock moves on and the pause that
    /// follows is begun.
    pub open spec fn resume(self, input: Option<u8>, cells: Seq<Cell>, rng: u32) -> (
        Self,
        Seq<Cell>,
        u32,
        Poll,
    ) {
        if self.phase is Finished {
            (self, cells, rng, Poll::Ready)
        } else if self.keeps_pausing() {
            (
                self.in_phase(HypnotizerPhaseView::Pausing(pause_step(self.phase->Pausing_0).0)),
                cells,
                rng,
                Poll::Pending,
            )
        } else {
            let ready = if self.phase is Starting {
                blank_cells()
            } else {
                cells
            };
            if input == Some(KEY_ESC) {
                (self.in_phase(HypnotizerPhaseView::Finished), ready, rng, Poll::Ready)
            } else {
                let drawn = self.motion().frame(Picture { cells: ready, rng });
                (
                    self.after_frame(
                        HypnotizerPhaseView::Pausing(
                            pause_step(PauseView::Delaying(HYPNOTIZER_PAUSE as nat)).0,
                        ),
                    ),
                    drawn.cells,
                    drawn.rng,
                    Poll::Pending,
                )
            }
        }
    }
}

enum HypnotizerPhase {
    Starting,
    Working,
    Pausing(Pause),
    Finished,
}

/// The hypnotizer.
pub struct Hypnotizer {
    time: i32,
    pulse_phase: i32,
    orbit_angles: [i32; HYPNOTIZER_ORBITS],
    text_index: usize,
    phase: HypnotizerPhase,
}

impl View for Hypnotizer {
    type V = HypnotizerView;

    closed spec fn view(&self) -> HypnotizerView {
        HypnotizerView {
            time: self.time as int,
            pulse_phase: self.pulse_phase as int,
            orbit_angles: self.orbit_angles@,
            text_index: self.text_index as nat,
            phase: match self.phase {
                HypnotizerPhase::Starting => HypnotizerPhaseView::Starting,
                HypnotizerPhase::Working => HypnotizerPhaseView::Working,
                HypnotizerPhase::Pausing(pause) => HypnotizerPhaseView::Pausing(pause@),
                HypnotizerPhase::Finished => HypnotizerPhaseView::Finished,
            },
        }
    }
}

/// The distance of `x` from 0.
fn magnitude(x: i32) -> (distance: i32)
    requires
        x > i32::MIN,
    ensures
        distance == if x < 0 { -x } else { x as int },
{
    if x < 0 {
        -x
    } else {
        x
    }
}

/// The bright colour that stands for a wave of height `wave`.
fn wave_color(wave: i32) -> (color: u8)
    requires
        wave > i32::MIN,
    ensures
        color == bright_color(wave as int),
{
    let color: u8 = 0x08 + (magnitude(wave / 100) % 8) as u8;
    if color == 0 {
        0x0f
    } else {
        color
    }
}

impl Hypnotizer {
    /// A hypnotizer that has not started.
    pub fn new() -> (hypnotizer: Self)
        ensures
            hypnotizer@ == HypnotizerView::fresh(),
            hypnotizer@.wf(),
    {
        let hypnotizer = Hypnotizer {
            time: 0,
            pulse_phase: 0,
            orbit_angles: [0, 72, 144, 216, 288],
            text_index: 0,
            phase: HypnotizerPhase::Starting,
        };
        assert(hypnotizer@.orbit_angles =~= seq![0i32, 72, 144, 216, 288]);
        hypnotizer
    }

    /// The clock.
    pub fn time(&self) -> (time: i32)
        ensures
            time == self@.time,
    {
        self.time
    }

    /// The angle that the pulse of the rings has reached, in degrees.
    pub fn pulse_phase(&self) -> (angle: i32)
        ensures
            angle == self@.pulse_phase,
    {
        self.pulse_phase
    }

    /// The angle at which the word in orbit number `orbit` stands, in
    /// degrees.
    pub fn orbit_angle(&self, orbit: usize) -> (angle: i32)
        requires
            orbit < HYPNOTIZER_ORBITS,
        ensures
            angle == self@.orbit_angles[orbit as int],
    {
        self.orbit_angles[orbit]
    }

    /// The place of the current word among the four that there are.
    pub fn text_index(&self) -> (index: usize)
        ensures
            index == self@.text_index,
    {
        self.text_index
    }

    /// Whether the next resume looks at the keyboard.
    pub fn wants_input(&self) -> (wanted: bool)
        ensures
            wanted == self@.wants_input(),
    {
        match &self.phase {
            HypnotizerPhase::Starting => true,
            HypnotizerPhase::Working => true,
            HypnotizerPhase::Pausing(pause) => pause.has_yielded(),
            HypnotizerPhase::Finished => false,
        }
    }

    /// Blanks one cell in eight, picked at random.
    fn fade(screen: &mut Screen, rng: &mut Rng)
        ensures
            (Picture { cells: final(screen)@, rng: final(rng)@ }) == (Picture {
                cells: old(screen)@,
                rng: old(rng)@,
            }).faded(SCREEN_CELLS as nat),
    {
        let ghost before = Picture { cells: screen@, rng: rng@ };
        proof {
            reveal(Picture::faded);
            screen.lemma_len();
        }
        let mut row: usize = 0;
        while row < SCREEN_HEIGHT
            invariant
                row <= SCREEN_HEIGHT,
                screen@.len() == SCREEN_CELLS,
                (Picture { cells: screen@, rng: rng@ }) == before.faded((row * SCREEN_WIDTH) as nat),
            decreases SCREEN_HEIGHT - row,
        {
            let mut col: usize = 0;
            while col < SCREEN_WIDTH
                invariant
                    row < SCREEN_HEIGHT,
                    col <= SCREEN_WIDTH,
                    screen@.len() == SCREEN_CELLS,
                    (Picture { cells: screen@, rng: rng@ }) == before.faded(
                        (row * SCREEN_WIDTH + col) as nat,
                    ),
                decreases SCREEN_WIDTH - col,
            {
                proof {
                    reveal(Picture::faded);
                }
                if random(rng) % 8 == 0 {
                    write_char_at(screen, 0x20, row, col, 0x00);
                }
                proof {
                    screen.lemma_len();
                }
                col = col + 1;
            }
            row = row + 1;
        }
    }

    /// Draws the rings round the centre.
    fn draw_rings(&self, screen: &mut Screen)
        requires
            self@.wf(),
        ensures
            final(screen)@ == self@.motion().with_rings(old(screen)@, HYPNOTIZER_RINGS as nat),
    {
        proof {
            reveal(Motion::with_rings);
        }
        let mut radius: i32 = 1;
        while radius <= HYPNOTIZER_RINGS
            invariant
                1 <= radius <= HYPNOTIZER_RINGS + 1,
                self@.wf(),
                screen@ == self@.motion().with_rings(old(screen)@, (radius - 1) as nat),
            decreases HYPNOTIZER_RINGS + 1 - radius,
        {
            let ghost inner = screen@;
            let pulse_offset: i32 = (self.pulse_phase + radius * 45) % 360;
            let intensity: i32 = sin_approx(pulse_offset) / 100 + 10;
            let color_base: u8 = (0x08 + (magnitude(intensity) % 8) as u8) % 0x0f;
            let color: u8 = if color_base == 0 {
                0x08
            } else {
                color_base
            };
            let mark: u8 = match radius % 4 {
                0 => 0x2a,
                1 => 0x2b,
                2 => 0x6f,
                _ => 0x2e,
            };
            proof {
                reveal(Motion::with_ring);
            }
            let mut angle: i32 = 0;
            while angle < 360
                invariant
                    0 <= angle <= 360,
                    angle % 15 == 0,
                    1 <= radius <= HYPNOTIZER_RINGS,
                    self@.wf(),
                    color == ring_color(self@.pulse_phase, radius as int),
                    mark == ring_mark(radius as int),
                    screen@ == self@.motion().with_ring(inner, radius as int, (angle / 15) as nat),
                decreases 360 - angle,
            {
                let across: i32 = cos_approx(angle + self.time);
                let down: i32 = sin_approx(angle + self.time);
                assert(0 <= across * radius <= 48 && 0 <= down * radius <= 48)
                    by (nonlinear_arith)
                    requires
                        0 <= across <= 6,
                        0 <= down <= 6,
                        1 <= radius <= 8,
                ;
                let x: i32 = HYPNOTIZER_CENTER_COL as i32 + (across * radius / 1000);
                let y: i32 = HYPNOTIZER_CENTER_ROW as i32 + (down * radius / 2000);
                if x >= 0 && x < 80 && y >= 0 && y < 25 {
                    write_char_at(screen, mark, y as usize, x as usize, color);
                }
                proof {
                    reveal(Motion::with_ring);
                    assert((angle + 15) / 15 == angle / 15 + 1);
                    assert(15 * (angle / 15) == angle);
                }
                angle = angle + 15;
            }
            proof {
                reveal(Motion::with_rings);
            }
            radius = radius + 1;
        }
    }

    /// Draws the words in orbit.
    fn draw_orbits(&self, screen: &mut Screen)
        requires
            self@.wf(),
        ensures
            final(screen)@ == self@.motion().with_orbits(old(screen)@, HYPNOTIZER_ORBITS as nat),
    {
        proof {
            reveal(Motion::with_orbits);
        }
        let mut i: usize = 0;
        while i < HYPNOTIZER_ORBITS
            invariant
                i <= HYPNOTIZER_ORBITS,
                self@.wf(),
                screen@ == self@.motion().with_orbits(old(screen)@, i as nat),
            decreases HYPNOTIZER_ORBITS - i,
        {
            let angle: i32 = self.orbit_angles[i];
            assert(0 <= self@.orbit_angles[i as int] < 360);
            let orbit_radius: i32 = (6 + i) as i32;
            let across: i32 = cos_approx(angle);
            let down: i32 = sin_approx(angle);
            assert(0 <= across * orbit_radius <= 60 && 0 <= down * orbit_radius <= 60)
                by (nonlinear_arith)
                requires
                    0 <= across <= 6,
                    0 <= down <= 6,
                    6 <= orbit_radius <= 10,
            ;
            let x: i32 = HYPNOTIZER_CENTER_COL as i32 + (across * orbit_radius / 1000);
            let y: i32 = HYPNOTIZER_CENTER_ROW as i32 + (down * orbit_radius / 2000);
            if x >= 2 && x < 76 && y >= 0 && y < 25 {
                let text: &str = match i % 4 {
                    0 => "SWAG",
                    1 => "EPIC",
                    2 => "WOW!",
                    _ => "MEGA",
                };
                let color_cycle: i32 = (self.time / 10 + i as i32 * 50) % 360;
                let color: u8 = wave_color(sin_approx(color_cycle));
                write_at(screen, text.as_bytes(), y as usize, (x - 2) as usize, color);
            }
            proof {
                reveal(Motion::with_orbits);
            }
            i = i + 1;
        }
    }

    /// Draws the word in the middle.
    fn draw_center(&self, screen: &mut Screen)
        requires
            self@.wf(),
        ensures
            final(screen)@ == self@.motion().with_center(old(screen)@),
    {
        let central_pulse: i32 = sin_approx(self.pulse_phase * 3);
        let color: u8 = wave_color(central_pulse);
        if central_pulse > 500 {
            write_at(
                screen,
                "<<SWAG>>".as_bytes(),
                HYPNOTIZER_CENTER_ROW,
                HYPNOTIZER_CENTER_COL - 4,
                color,
            );
        } else {
            write_at(
                screen,
                "SWAG".as_bytes(),
                HYPNOTIZER_CENTER_ROW,
                HYPNOTIZER_CENTER_COL - 2,
                color,
            );
        }
    }

    /// Draws the same mark, in one random colour, into the four corners.
    fn draw_corners(&self, screen: &mut Screen, rng: &mut Rng)
        requires
            self@.wf(),
        ensures
            (Picture { cells: final(screen)@, rng: final(rng)@ }) == (Picture {
                cells: old(screen)@,
                rng: old(rng)@,
            }).with_corners(corner_mark(self@.time)),
    {
        let corner_phase: i32 = (self.time * 2) % 360;
        let corner_char: u8 = match magnitude(sin_approx(corner_phase) / 300) % 4 {
            0 => 0x5c,
            1 => 0x7c,
            2 => 0x2f,
            _ => 0x2d,
        };
        let corner_color = get_random_color(rng);
        write_char_at(screen, corner_char, 0, 0, corner_color);
        write_char_at(screen, corner_char, 0, 79, corner_color);
        write_char_at(screen, corner_char, 24, 0, corner_color);
        write_char_at(screen, corner_char, 24, 79, corner_color);
    }

    /// Draws the marks that crawl along the border.
    fn draw_border(&self, screen: &mut Screen)
        requires
            self@.wf(),
        ensures
            final(screen)@ == self@.motion().with_border(old(screen)@, HYPNOTIZER_BORDER_MARKS as nat),
    {
        let border_offset: i32 = (self.time / 5) % 320;
        let ticks: u8 = #[verifier::truncate]
        (self.time as u8) / 10;
        assert(ticks == (self.time % 256) / 10) by {
            let time = self.time;
            assert((#[verifier::truncate]
            (time as u8)) == time % 256) by (bit_vector)
                requires
                    0 <= time < 3600,
            ;
        }
        proof {
            reveal(Motion::with_border);
        }
        let mut i: i32 = 0;
        while i < HYPNOTIZER_BORDER_MARKS
            invariant
                0 <= i <= HYPNOTIZER_BORDER_MARKS,
                border_offset == (self@.time / 5) % 320,
                ticks == (self@.time % 256) / 10,
                self@.wf(),
                screen@ == self@.motion().with_border(old(screen)@, i as nat),
            decreases HYPNOTIZER_BORDER_MARKS - i,
        {
            let pos: i32 = (border_offset + i * 40) % 320;
            let (row, col): (i32, i32) = if pos < 80 {
                (0, pos)
            } else if pos < 160 {
                (pos - 80, 79)
            } else if pos < 240 {
                (24, 239 - pos)
            } else {
                (319 - pos, 0)
            };
            if row < 25 && col < 80 {
                let spiral_color: u8 = 0x08 + ((i as u8 + ticks) % 7);
                write_char_at(screen, 0x23, row as usize, col as usize, spiral_color);
            }
            proof {
                reveal(Motion::with_border);
            }
            i = i + 1;
        }
    }

    /// Moves the clock, the pulse and the words in orbit on by one frame.
    fn tick(&mut self)
        requires
            old(self)@.wf(),
        ensures
            final(self)@ == old(self)@.after_frame(old(self)@.phase),
            final(self)@.wf(),
    {
        self.time = (self.time + 8) % HYPNOTIZER_CLOCK;
        self.pulse_phase = (self.pulse_phase + 12) % 360;
        let mut i: usize = 0;
        while i < HYPNOTIZER_ORBITS
            invariant
                i <= HYPNOTIZER_ORBITS,
                self.time == (old(self).time + 8) % (HYPNOTIZER_CLOCK as int),
                self.pulse_phase == (old(self).pulse_phase + 12) % 360,
                self.text_index == old(self).text_index,
                self.phase == old(self).phase,
                forall|j: int|
                    0 <= j < i ==> self.orbit_angles[j] == (old(self).orbit_angles[j] + 3) % 360,
                forall|j: int|
                    i <= j < HYPNOTIZER_ORBITS ==> self.orbit_angles[j] == old(self).orbit_angles[j],
                forall|j: int|
                    0 <= j < HYPNOTIZER_ORBITS ==> 0 <= #[trigger] old(self).orbit_angles[j] < 360,
            decreases HYPNOTIZER_ORBITS - i,
        {
            self.orbit_angles[i] = (self.orbit_angles[i] + 3) % 360;
            i = i + 1;
        }
        if self.time % 180 == 0 {
            self.text_index = (self.text_index + 1) % 4;
        }
        assert(self@.orbit_angles =~= old(self)@.after_frame(old(self)@.phase).orbit_angles);
    }

    /// Draws one frame over the picture on the screen.
    fn draw_frame(&self, screen: &mut Screen, rng: &mut Rng)
        requires
            self@.wf(),
        ensures
            (Picture { cells: final(screen)@, rng: final(rng)@ }) == self@.motion().frame(
                Picture { cells: old(screen)@, rng: old(rng)@ },
            ),
    {
        proof {
            reveal(Motion::frame);
        }
        Self::fade(screen, rng);
        self.draw_rings(screen);
        self.draw_orbits(screen);
        self.draw_center(screen);
        self.draw_corners(screen, rng);
        self.draw_border(screen);
    }

    /// Runs the hypnotizer up to its next suspension point.
    ///
    /// `input` is the scan code that was read for this resume, if one was
    /// read; it is looked at only where [`Hypnotizer::wants_input`] said so.
    pub fn resume(
        &mut self,
        cx: &mut Context<'_>,
        input: Option<u8>,
        screen: &mut Screen,
        rng: &mut Rng,
    ) -> (outcome: Poll)
        requires
            old(self)@.wf(),
        ensures
            final(self)@.wf(),
            (final(self)@, final(screen)@, final(rng)@, outcome) == old(self)@.resume(
                input,
                old(screen)@,
                old(rng)@,
            ),
    {
        if let HypnotizerPhase::Finished = self.phase {
            return Poll::Ready;
        }
        if let HypnotizerPhase::Pausing(pause) = &mut self.phase {
            if let Poll::Pending = pause.poll(cx) {
                return Poll::Pending;
            }
            self.phase = HypnotizerPhase::Working;
        }
        if let HypnotizerPhase::Starting = self.phase {
            clear_screen(screen);
            self.phase = HypnotizerPhase::Working;
        }
        if let Some(scan_code) = input {
            if scan_code == KEY_ESC {
                self.phase = HypnotizerPhase::Finished;
                return Poll::Ready;
            }
        }
        self.draw_frame(screen, rng);
        self.tick();
        self.phase = HypnotizerPhase::Pausing(Pause::new(HYPNOTIZER_PAUSE));
        let outcome = match &mut self.phase {
            HypnotizerPhase::Pausing(pause) => pause.poll(cx),
            _ => Poll::Pending,
        };
        proof {
            let expected = old(self)@.resume(input, old(screen)@, old(rng)@);
            assert(self@.orbit_angles =~= expected.0.orbit_angles);
        }
        outcome
    }
}

} // verus!
