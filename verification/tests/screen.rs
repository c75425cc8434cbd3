use swagos::screen::{
    clear_screen, write_at, write_char_at, BLANK_CHAR, BLANK_COLOR, SCREEN_CELLS, SCREEN_HEIGHT,
    SCREEN_WIDTH,
};
use swagos::{Cell, Screen};

fn blank() -> Cell {
    Cell { ch: 0x20, color: 0x07 }
}

fn count_changed(screen: &Screen) -> usize {
    let mut changed = 0;
    for row in 0..SCREEN_HEIGHT {
        for col in 0..SCREEN_WIDTH {
            if screen.cell(row, col) != blank() {
                changed += 1;
            }
        }
    }
    changed
}

#[test]
fn screen_is_80_by_25() {
    assert_eq!(SCREEN_WIDTH, 80);
    assert_eq!(SCREEN_HEIGHT, 25);
    assert_eq!(SCREEN_CELLS, 2000);
    assert_eq!(BLANK_CHAR, b' ');
    assert_eq!(BLANK_COLOR, 0x07);
}

#[test]
fn new_screen_is_blank() {
    let screen = Screen::new();
    assert_eq!(count_changed(&screen), 0);
    assert_eq!(screen.cell(0, 0), blank());
    assert_eq!(screen.cell(24, 79), blank());
}

#[test]
fn write_at_puts_text_in_one_row() {
    let mut screen = Screen::new();
    write_at(&mut screen, b"SWAG", 3, 38, 0x0c);
    assert_eq!(screen.cell(3, 37), blank());
    assert_eq!(screen.cell(3, 38), Cell { ch: b'S', color: 0x0c });
    assert_eq!(screen.cell(3, 39), Cell { ch: b'W', color: 0x0c });
    assert_eq!(screen.cell(3, 40), Cell { ch: b'A', color: 0x0c });
    assert_eq!(screen.cell(3, 41), Cell { ch: b'G', color: 0x0c });
    assert_eq!(screen.cell(3, 42), blank());
    assert_eq!(count_changed(&screen), 4);
}

#[test]
fn write_at_runs_on_into_the_next_row() {
    let mut screen = Screen::new();
    write_at(&mut screen, b"abcd", 1, 78, 0x0a);
    assert_eq!(screen.cell(1, 78), Cell { ch: b'a', color: 0x0a });
    assert_eq!(screen.cell(1, 79), Cell { ch: b'b', color: 0x0a });
    assert_eq!(screen.cell(2, 0), Cell { ch: b'c', color: 0x0a });
    assert_eq!(screen.cell(2, 1), Cell { ch: b'd', color: 0x0a });
    assert_eq!(count_changed(&screen), 4);
}

#[test]
fn write_at_counts_a_wide_column_on_into_later_rows() {
    let mut screen = Screen::new();
    write_at(&mut screen, b"x", 0, 165, 0x0b);
    assert_eq!(screen.cell(2, 5), Cell { ch: b'x', color: 0x0b });
    assert_eq!(count_changed(&screen), 1);
}

#[test]
fn write_at_drops_what_falls_behind_the_last_cell() {
    let mut screen = Screen::new();
    write_at(&mut screen, b"abcd", 24, 78, 0x0a);
    assert_eq!(screen.cell(24, 78), Cell { ch: b'a', color: 0x0a });
    assert_eq!(screen.cell(24, 79), Cell { ch: b'b', color: 0x0a });
    assert_eq!(count_changed(&screen), 2);
}

#[test]
fn write_at_off_the_screen_changes_nothing() {
    let mut screen = Screen::new();
    write_at(&mut screen, b"abcd", 25, 0, 0x0a);
    write_at(&mut screen, b"abcd", 24, 80, 0x0a);
    write_at(&mut screen, b"abcd", 0, 2000, 0x0a);
    write_at(&mut screen, b"abcd", usize::MAX, usize::MAX, 0x0a);
    write_at(&mut screen, b"abcd", usize::MAX / 80 + 1, 0, 0x0a);
    assert_eq!(count_changed(&screen), 0);
}

#[test]
fn write_at_with_empty_text_changes_nothing() {
    let mut screen = Screen::new();
    write_at(&mut screen, b"", 0, 0, 0x0a);
    assert_eq!(count_changed(&screen), 0);
}

#[test]
fn write_at_overwrites_what_was_there() {
    let mut screen = Screen::new();
    write_at(&mut screen, b"hello", 0, 0, 0x01);
    write_at(&mut screen, b"HE", 0, 0, 0x02);
    assert_eq!(screen.cell(0, 0), Cell { ch: b'H', color: 0x02 });
    assert_eq!(screen.cell(0, 1), Cell { ch: b'E', color: 0x02 });
    assert_eq!(screen.cell(0, 2), Cell { ch: b'l', color: 0x01 });
}

#[test]
fn write_char_at_sets_one_cell() {
    let mut screen = Screen::new();
    write_char_at(&mut screen, b'#', 24, 79, 0x0f);
    assert_eq!(screen.cell(24, 79), Cell { ch: b'#', color: 0x0f });
    assert_eq!(count_changed(&screen), 1);
    write_char_at(&mut screen, b'*', 0, 0, 0x0e);
    assert_eq!(screen.cell(0, 0), Cell { ch: b'*', color: 0x0e });
    assert_eq!(count_changed(&screen), 2);
}

#[test]
fn write_char_at_off_the_screen_changes_nothing() {
    let mut screen = Screen::new();
    write_char_at(&mut screen, b'#', 25, 0, 0x0f);
    write_char_at(&mut screen, b'#', 0, 80, 0x0f);
    write_char_at(&mut screen, b'#', usize::MAX, usize::MAX, 0x0f);
    assert_eq!(count_changed(&screen), 0);
}

#[test]
fn clear_screen_blanks_every_cell() {
    let mut screen = Screen::new();
    write_at(&mut screen, b"some text", 10, 10, 0x0c);
    write_char_at(&mut screen, b'#', 24, 79, 0x0f);
    assert_eq!(count_changed(&screen), 10);
    clear_screen(&mut screen);
    assert_eq!(count_changed(&screen), 0);
}
