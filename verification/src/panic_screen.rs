//! What the system shows when it gives up: a run of frames that flash a
//! message and a banner in changing colours, and a last screen that stays.

use vstd::prelude::*;
use vstd::string::*;
use crate::screen::{blank_cells, clear_screen, with_line, write_at, Cell, Screen};

verus! {

/// The number of frames that are shown before the last screen.
pub const PANIC_FRAMES: usize = 20;

/// The units of delay after each frame.
pub const PANIC_FRAME_PAUSE: u32 = 50_000_000;

/// The colours that the message and the banner cycle through.
pub const PANIC_COLORS: [u8; 6] = [0x0c, 0x0e, 0x0a, 0x0b, 0x0d, 0x09];

/// The message of frame `frame`: there are six, which take turns.
pub open spec fn panic_message(frame: nat) -> &'static str {
    if frame % 6 == 0 {
        "OH NO! MAXIMUM SWAG OVERLOAD!!!"
    } else if frame % 6 == 1 {
        "SYSTEM TOO SWAG TO HANDLE!!!!!!"
    } else if frame % 6 == 2 {
        "SWAG LEVELS: OVER 9000!!!!!!!!!"
    } else if frame % 6 == 3 {
        "ERROR: NOT ENOUGH SWAG DETECTED"
    } else if frame % 6 == 4 {
        "PANIC: SWAG BUFFER OVERFLOW!!!!"
    } else {
        "CRITICAL: SWAG CORE MELTDOWN!!!"
    }
}

/// The colour that stands `offset` places after that of frame `frame` in the
/// cycle.
pub open spec fn panic_color(frame: nat, offset: nat) -> u8 {
    PANIC_COLORS[((frame + offset) % 6) as int]
}

/// The screen of frame `frame`.
pub open spec fn panic_frame_cells(frame: nat) -> Seq<Cell> {
    let cells = blank_cells();
    let cells = with_line(cells, panic_message(frame), 2, 24, panic_color(frame, 0));
    let cells = with_line(cells, "KERNEL PANIC at swag_generator():line_MAX", 10, 18, 0x0f);
    let cells = with_line(cells, "Stack trace: SWAG -> MORE_SWAG -> MAXIMUM_SWAG", 12, 16, 0x07);
    let cells = with_line(
        cells,
        "Error code: 0xSWAG (cooperative multitasking overload)",
        14,
        12,
        0x0c,
    );
    let cells = with_line(
        cells,
        " $$$$$$\\  $$\\      $$\\  $$$$$$\\   $$$$$$\\",
        16,
        20,
        panic_color(frame, 0),
    );
    let cells = with_line(
        cells,
        "$$  __$$\\ $$ | $\\  $$ |$$  __$$\\ $$  __$$\\",
        17,
        19,
        panic_color(frame, 1),
    );
    let cells = with_line(
        cells,
        "\\$$$$$$\\  $$ $$ $$\\$$ |$$$$$$$$ |$$ |$$$$\\",
        18,
        19,
        panic_color(frame, 2),
    );
    let cells = with_line(
        cells,
        " \\______/ \\__/     \\__|\\__|  \\__| \\______/",
        19,
        19,
        panic_color(frame, 3),
    );
    with_line(cells, "System halted with MAXIMUM SWAG!", 22, 24, 0x08)
}

/// The last screen, which stays.
pub open spec fn halt_cells() -> Seq<Cell> {
    let cells = blank_cells();
    let cells = with_line(cells, "SYSTEM SWAG OVERLOAD COMPLETE", 12, 25, 0x0c);
    with_line(cells, "RIP SwagOS - Too Swag 4 This World", 14, 22, 0x08)
}

/// Clears the screen and draws frame number `frame`, counted from 0.
pub fn draw_panic_frame(screen: &mut Screen, frame: usize)
    ensures
        final(screen)@ == panic_frame_cells(frame as nat),
{
    let message: &str = match frame % 6 {
        0 => "OH NO! MAXIMUM SWAG OVERLOAD!!!",
        1 => "SYSTEM TOO SWAG TO HANDLE!!!!!!",
        2 => "SWAG LEVELS: OVER 9000!!!!!!!!!",
        3 => "ERROR: NOT ENOUGH SWAG DETECTED",
        4 => "PANIC: SWAG BUFFER OVERFLOW!!!!",
        _ => "CRITICAL: SWAG CORE MELTDOWN!!!",
    };
    let turn: usize = frame % 6;
    clear_screen(screen);
    write_at(screen, message.as_bytes(), 2, 24, PANIC_COLORS[turn]);
    write_at(screen, "KERNEL PANIC at swag_generator():line_MAX".as_bytes(), 10, 18, 0x0f);
    write_at(screen, "Stack trace: SWAG -> MORE_SWAG -> MAXIMUM_SWAG".as_bytes(), 12, 16, 0x07);
    write_at(
        screen,
        "Error code: 0xSWAG (cooperative multitasking overload)".as_bytes(),
        14,
        12,
        0x0c,
    );
    write_at(
        screen,
        " $$$$$$\\  $$\\      $$\\  $$$$$$\\   $$$$$$\\".as_bytes(),
        16,
        20,
        PANIC_COLORS[turn],
    );
    write_at(
        screen,
        "$$  __$$\\ $$ | $\\  $$ |$$  __$$\\ $$  __$$\\".as_bytes(),
        17,
        19,
        PANIC_COLORS[(turn + 1) % 6],
    );
    write_at(
        screen,
        "\\$$$$$$\\  $$ $$ $$\\$$ |$$$$$$$$ |$$ |$$$$\\".as_bytes(),
        18,
        19,
        PANIC_COLORS[(turn + 2) % 6],
    );
    write_at(
        screen,
        " \\______/ \\__/     \\__|\\__|  \\__| \\______/".as_bytes(),
        19,
        19,
        PANIC_COLORS[(turn + 3) % 6],
    );
    write_at(screen, "System halted with MAXIMUM SWAG!".as_bytes(), 22, 24, 0x08);
}

/// Clears the screen and draws the last screen.
pub fn draw_halt_screen(screen: &mut Screen)
    ensures
        final(screen)@ == halt_cells(),
{
    clear_screen(screen);
    write_at(screen, "SYSTEM SWAG OVERLOAD COMPLETE".as_bytes(), 12, 25, 0x0c);
    write_at(screen, "RIP SwagOS - Too Swag 4 This World".as_bytes(), 14, 22, 0x08);
}

} // verus!
