//! A text screen of 80 columns and 25 rows, held in memory.
//!
//! Every cell has a character and a colour attribute. The cells are numbered
//! row by row, so that text which runs past the end of a row goes on at the
//! start of the next. Writes that would fall behind the last cell are dropped.

use vstd::prelude::*;
use vstd::string::*;

verus! {

/// The number of columns.
pub const SCREEN_WIDTH: usize = 80;

/// The number of rows.
pub const SCREEN_HEIGHT: usize = 25;

/// The number of cells: [`SCREEN_WIDTH`] times [`SCREEN_HEIGHT`].
pub const SCREEN_CELLS: usize = 2000;

/// The character of a cleared cell: a space.
pub const BLANK_CHAR: u8 = 0x20;

/// The colour attribute of a cleared cell: light grey on black.
pub const BLANK_COLOR: u8 = 0x07;

/// One character cell.
#[derive(Clone, Copy, Debug, PartialEq, Eq, Structural)]
pub struct Cell {
    /// The character code.
    pub ch: u8,
    /// The colour attribute.
    pub color: u8,
}

/// The number of the cell in row `row` and column `col`.
pub open spec fn cell_index(row: int, col: int) -> int {
    row * SCREEN_WIDTH + col
}

/// A cleared cell.
pub open spec fn blank_cell() -> Cell {
    Cell { ch: BLANK_CHAR, color: BLANK_COLOR }
}

/// A screen of cleared cells.
pub open spec fn blank_cells() -> Seq<Cell> {
    Seq::new(SCREEN_CELLS as nat, |i: int| blank_cell())
}

/// `cells` with `text` written in colour `color` from cell number `start` on.
/// The part of the text that would fall outside `cells` is left out.
pub open spec fn with_text(cells: Seq<Cell>, text: Seq<u8>, start: int, color: u8) -> Seq<Cell> {
    Seq::new(
        cells.len(),
        |i: int|
            if start <= i < start + text.len() {
                Cell { ch: text[i - start], color }
            } else {
                cells[i]
            },
    )
}

/// `cells` with one line of text written at `row` and `col`.
pub open spec fn with_line(cells: Seq<Cell>, text: &str, row: int, col: int, color: u8) -> Seq<
    Cell,
> {
    with_text(cells, text.spec_bytes(), cell_index(row, col), color)
}

/// `cells` with one character written at `row` and `col`, or `cells` itself
/// if that position is not on the screen.
pub open spec fn with_char(cells: Seq<Cell>, ch: u8, row: int, col: int, color: u8) -> Seq<Cell> {
    if 0 <= row < SCREEN_HEIGHT && 0 <= col < SCREEN_WIDTH {
        cells.update(cell_index(row, col), Cell { ch, color })
    } else {
        cells
    }
}

/// The text screen.
pub struct Screen {
    cells: [Cell; SCREEN_CELLS],
}

impl View for Screen {
    type V = Seq<Cell>;

    /// The cells in row-major order; there are [`SCREEN_CELLS`] of them.
    closed spec fn view(&self) -> Seq<Cell> {
        self.cells@
    }
}

impl Screen {
    /// A cleared screen.
    pub fn new() -> (screen: Self)
        ensures
            screen@ == blank_cells(),
    {
        let screen = Screen { cells: [Cell { ch: BLANK_CHAR, color: BLANK_COLOR }; SCREEN_CELLS] };
        assert(screen@ =~= blank_cells());
        screen
    }

    /// The cell in row `row` and column `col`.
    pub fn cell(&self, row: usize, col: usize) -> (cell: Cell)
        requires
            row < SCREEN_HEIGHT,
            col < SCREEN_WIDTH,
        ensures
            cell == self@[cell_index(row as int, col as int)],
    {
        self.cells[row * SCREEN_WIDTH + col]
    }

    /// Every screen has [`SCREEN_CELLS`] cells.
    pub proof fn lemma_len(&self)
        ensures
            self@.len() == SCREEN_CELLS,
    {
    }
}

/// Clears every cell of the screen.
pub fn clear_screen(screen: &mut Screen)
    ensures
        final(screen)@ == blank_cells(),
{
    let mut index: usize = 0;
    while index < SCREEN_CELLS
        invariant
            index <= SCREEN_CELLS,
            screen@.len() == SCREEN_CELLS,
            forall|i: int| 0 <= i < index ==> screen@[i] == blank_cell(),
        decreases SCREEN_CELLS - index,
    {
        screen.cells[index] = Cell { ch: BLANK_CHAR, color: BLANK_COLOR };
        index = index + 1;
    }
    assert(screen@ =~= blank_cells());
}

/// Writes `text` in colour `color`, starting at `row` and `col` and running
/// on across the ends of rows.
///
/// The position need not be on the screen: a column of 80 or more counts on
/// into the following rows. Whatever would fall behind the last cell is
/// dropped.
pub fn write_at(screen: &mut Screen, text: &[u8], row: usize, col: usize, color: u8)
    ensures
        final(screen)@ == with_text(old(screen)@, text@, cell_index(row as int, col as int), color),
{
    if row < SCREEN_HEIGHT && col < SCREEN_CELLS && row * SCREEN_WIDTH + col < SCREEN_CELLS {
        let start: usize = row * SCREEN_WIDTH + col;
        let room: usize = SCREEN_CELLS - start;
        let mut written: usize = 0;
        while written < text.len() && written < room
            invariant
                start + room == SCREEN_CELLS,
                written <= text.len(),
                written <= room,
                screen@.len() == SCREEN_CELLS,
                forall|i: int|
                    0 <= i < SCREEN_CELLS ==> screen@[i] == if start <= i < start + written {
                        Cell { ch: text@[i - start], color }
                    } else {
                        old(screen)@[i]
                    },
            decreases text.len() - written,
        {
            screen.cells[start + written] = Cell { ch: text[written], color };
            written = written + 1;
        }
    }
    assert(screen@ =~= with_text(
        old(screen)@,
        text@,
        cell_index(row as int, col as int),
        color,
    ));
}

/// Writes one character at `row` and `col`, if that position is on the
/// screen, and does nothing if it is not.
pub fn write_char_at(screen: &mut Screen, ch: u8, row: usize, col: usize, color: u8)
    ensures
        final(screen)@ == with_char(old(screen)@, ch, row as int, col as int, color),
{
    if row < SCREEN_HEIGHT && col < SCREEN_WIDTH {
        screen.cells[row * SCREEN_WIDTH + col] = Cell { ch, color };
    }
}

} // verus!
