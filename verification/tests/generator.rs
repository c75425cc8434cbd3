use swagos::generator::{
    Generator, GENERATOR_COLORS, GENERATOR_COLUMN, GENERATOR_LINE_PAUSE, GENERATOR_PAGE_PAUSE,
};
use swagos::keyboard::{KEY_1, KEY_ESC};
use swagos::{dummy_waker, Cell, Context, Poll, Screen};

const BLANK: Cell = Cell { ch: b' ', color: 0x07 };

fn word_at(screen: &Screen, row: usize) -> Vec<Cell> {
    (38..42).map(|col| screen.cell(row, col)).collect()
}

fn swag(color: u8) -> Vec<Cell> {
    b"SWAG".iter().map(|&ch| Cell { ch, color }).collect()
}

/// Resumes the generator without a key until it asks for the keyboard
/// again, and returns the number of resumes that took.
fn sit_out_pause(generator: &mut Generator, screen: &mut Screen) -> usize {
    let waker = dummy_waker();
    let mut cx = Context::from_waker(&waker);
    let mut resumes = 0;
    while !generator.wants_input() {
        assert_eq!(generator.resume(&mut cx, None, screen), Poll::Pending);
        resumes += 1;
        assert!(resumes < 10_000);
    }
    resumes
}

#[test]
fn generator_constants() {
    assert_eq!(GENERATOR_COLORS, [0x0c, 0x0a, 0x0e, 0x0b, 0x0d, 0x09]);
    assert_eq!(GENERATOR_COLUMN, 38);
    assert_eq!(GENERATOR_LINE_PAUSE, 500_000);
    assert_eq!(GENERATOR_PAGE_PAUSE, 5_000_000);
}

#[test]
fn generator_writes_its_first_line_on_the_first_resume() {
    let waker = dummy_waker();
    let mut cx = Context::from_waker(&waker);
    let mut screen = Screen::new();
    let mut generator = Generator::new();
    assert!(generator.wants_input());
    assert_eq!(generator.resume(&mut cx, None, &mut screen), Poll::Pending);
    assert_eq!(word_at(&screen, 0), swag(0x0c));
    assert_eq!(screen.cell(0, 37), BLANK);
    assert_eq!(screen.cell(0, 42), BLANK);
    assert_eq!(word_at(&screen, 1), vec![BLANK; 4]);
    assert!(!generator.wants_input());
}

#[test]
fn generator_pauses_for_500_polls_between_lines() {
    let waker = dummy_waker();
    let mut cx = Context::from_waker(&waker);
    let mut screen = Screen::new();
    let mut generator = Generator::new();
    assert_eq!(generator.resume(&mut cx, None, &mut screen), Poll::Pending);
    assert_eq!(sit_out_pause(&mut generator, &mut screen), 499);
    assert_eq!(word_at(&screen, 1), vec![BLANK; 4]);
    assert_eq!(generator.resume(&mut cx, None, &mut screen), Poll::Pending);
    assert_eq!(word_at(&screen, 0), swag(0x0c));
    assert_eq!(word_at(&screen, 1), swag(0x0a));
}

#[test]
fn generator_cycles_through_its_colours() {
    let waker = dummy_waker();
    let mut cx = Context::from_waker(&waker);
    let mut screen = Screen::new();
    let mut generator = Generator::new();
    for line in 0..8 {
        assert!(generator.wants_input());
        assert_eq!(generator.resume(&mut cx, Some(KEY_1), &mut screen), Poll::Pending);
        assert_eq!(word_at(&screen, line), swag(GENERATOR_COLORS[line % 6]));
        sit_out_pause(&mut generator, &mut screen);
    }
}

#[test]
fn generator_clears_a_full_page_after_a_long_pause() {
    let waker = dummy_waker();
    let mut cx = Context::from_waker(&waker);
    let mut screen = Screen::new();
    let mut generator = Generator::new();
    for _line in 0..24 {
        assert_eq!(generator.resume(&mut cx, None, &mut screen), Poll::Pending);
        assert_eq!(sit_out_pause(&mut generator, &mut screen), 499);
    }
    assert_eq!(generator.resume(&mut cx, None, &mut screen), Poll::Pending);
    assert_eq!(word_at(&screen, 24), swag(GENERATOR_COLORS[24 % 6]));
    for _ in 0..4998 {
        assert_eq!(generator.resume(&mut cx, None, &mut screen), Poll::Pending);
        assert!(!generator.wants_input());
    }
    assert_eq!(word_at(&screen, 0), swag(0x0c));
    assert_eq!(word_at(&screen, 24), swag(0x0c));
    assert_eq!(generator.resume(&mut cx, None, &mut screen), Poll::Pending);
    for row in 0..25 {
        assert_eq!(word_at(&screen, row), vec![BLANK; 4]);
    }
    assert_eq!(sit_out_pause(&mut generator, &mut screen), 499);
    assert_eq!(generator.resume(&mut cx, None, &mut screen), Poll::Pending);
    assert_eq!(word_at(&screen, 0), swag(GENERATOR_COLORS[25 % 6]));
    assert_eq!(word_at(&screen, 1), vec![BLANK; 4]);
}

#[test]
fn generator_ends_on_escape() {
    let waker = dummy_waker();
    let mut cx = Context::from_waker(&waker);
    let mut screen = Screen::new();
    let mut generator = Generator::new();
    assert_eq!(generator.resume(&mut cx, Some(KEY_ESC), &mut screen), Poll::Ready);
    assert_eq!(word_at(&screen, 0), vec![BLANK; 4]);
    assert!(!generator.wants_input());
    assert_eq!(generator.resume(&mut cx, None, &mut screen), Poll::Ready);
    assert_eq!(word_at(&screen, 0), vec![BLANK; 4]);
}

#[test]
fn generator_ends_on_escape_after_a_pause() {
    let waker = dummy_waker();
    let mut cx = Context::from_waker(&waker);
    let mut screen = Screen::new();
    let mut generator = Generator::new();
    assert_eq!(generator.resume(&mut cx, None, &mut screen), Poll::Pending);
    sit_out_pause(&mut generator, &mut screen);
    assert_eq!(generator.resume(&mut cx, Some(KEY_ESC), &mut screen), Poll::Ready);
    assert_eq!(word_at(&screen, 0), swag(0x0c));
    assert_eq!(word_at(&screen, 1), vec![BLANK; 4]);
}

#[test]
fn generator_does_not_look_at_keys_during_a_pause() {
    let waker = dummy_waker();
    let mut cx = Context::from_waker(&waker);
    let mut screen = Screen::new();
    let mut generator = Generator::new();
    assert_eq!(generator.resume(&mut cx, None, &mut screen), Poll::Pending);
    assert!(!generator.wants_input());
    assert_eq!(generator.resume(&mut cx, Some(KEY_ESC), &mut screen), Poll::Pending);
    assert_eq!(sit_out_pause(&mut generator, &mut screen), 498);
}
