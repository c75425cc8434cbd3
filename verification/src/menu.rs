//! The start menu and what its keys choose.

use vstd::prelude::*;
use vstd::string::*;
use crate::keyboard::{KEY_1, KEY_2, KEY_3, KEY_4};
use crate::screen::{blank_cells, clear_screen, with_line, write_at, Cell, Screen};

verus! {

/// What the menu offers.
#[derive(Clone, Copy, Debug, PartialEq, Eq, Structural)]
pub enum MenuChoice {
    /// The word generator, on key `1`.
    Generator,
    /// The panic screen, on key `2`.
    Panic,
    /// The character rain, on key `3`.
    Matrix,
    /// The hypnotizer, on key `4`.
    Hypnotizer,
}

/// The menu entry that a scan code selects, if it selects one.
pub open spec fn menu_choice_spec(scan_code: u8) -> Option<MenuChoice> {
    if scan_code == KEY_1 {
        Some(MenuChoice::Generator)
    } else if scan_code == KEY_2 {
        Some(MenuChoice::Panic)
    } else if scan_code == KEY_3 {
        Some(MenuChoice::Matrix)
    } else if scan_code == KEY_4 {
        Some(MenuChoice::Hypnotizer)
    } else {
        None
    }
}

/// The menu entry that a scan code selects, if it selects one.
pub fn menu_choice(scan_code: u8) -> (choice: Option<MenuChoice>)
    ensures
        choice == menu_choice_spec(scan_code),
{
    if scan_code == KEY_1 {
        Some(MenuChoice::Generator)
    } else if scan_code == KEY_2 {
        Some(MenuChoice::Panic)
    } else if scan_code == KEY_3 {
        Some(MenuChoice::Matrix)
    } else if scan_code == KEY_4 {
        Some(MenuChoice::Hypnotizer)
    } else {
        None
    }
}

/// The screen that shows the menu.
pub open spec fn menu_cells() -> Seq<Cell> {
    let cells = blank_cells();
    let cells = with_line(cells, "========== SwagOS v0.0.1 ==========", 5, 22, 0x0e);
    let cells = with_line(cells, "The Most Swag Operating System Ever", 7, 22, 0x0a);
    let cells = with_line(cells, "Choose your destiny:", 12, 30, 0x0f);
    let cells = with_line(cells, "1) SWAG Generator", 14, 32, 0x0a);
    let cells = with_line(cells, "2) Panic!!! (now with $wag)", 15, 32, 0x0c);
    let cells = with_line(cells, "3) SWAG Matrix", 16, 32, 0x0b);
    let cells = with_line(cells, "4) SWAG Hypnotizer (truly mesmerizing)", 17, 32, 0x0d);
    let cells = with_line(cells, "Press the number key... (ESC in apps to return)", 20, 20, 0x08);
    with_line(cells, "Powered by: Cooperative Multitasking", 22, 22, 0x0d)
}

/// Clears the screen and draws the menu.
pub fn show_menu(screen: &mut Screen)
    ensures
        final(screen)@ == menu_cells(),
{
    clear_screen(screen);
    write_at(screen, "========== SwagOS v0.0.1 ==========".as_bytes(), 5, 22, 0x0e);
    write_at(screen, "The Most Swag Operating System Ever".as_bytes(), 7, 22, 0x0a);
    write_at(screen, "Choose your destiny:".as_bytes(), 12, 30, 0x0f);
    write_at(screen, "1) SWAG Generator".as_bytes(), 14, 32, 0x0a);
    write_at(screen, "2) Panic!!! (now with $wag)".as_bytes(), 15, 32, 0x0c);
    write_at(screen, "3) SWAG Matrix".as_bytes(), 16, 32, 0x0b);
    write_at(screen, "4) SWAG Hypnotizer (truly mesmerizing)".as_bytes(), 17, 32, 0x0d);
    write_at(screen, "Press the number key... (ESC in apps to return)".as_bytes(), 20, 20, 0x08);
    write_at(screen, "Powered by: Cooperative Multitasking".as_bytes(), 22, 22, 0x0d);
}

} // verus!
