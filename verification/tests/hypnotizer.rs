use swagos::hypnotizer::{
    Hypnotizer, HYPNOTIZER_CENTER_COL, HYPNOTIZER_CENTER_ROW, HYPNOTIZER_ORBITS, HYPNOTIZER_PAUSE,
};
use swagos::keyboard::KEY_ESC;
use swagos::screen::write_at;
use swagos::{dummy_waker, Cell, Context, Poll, Rng, Screen};

const BLANK: Cell = Cell { ch: b' ', color: 0x07 };

fn picture_sum(screen: &Screen) -> u32 {
    let mut sum: u32 = 0;
    for row in 0..25 {
        for col in 0..80 {
            let cell = screen.cell(row, col);
            sum = sum
                .wrapping_mul(31)
                .wrapping_add(cell.ch as u32 * 256 + cell.color as u32);
        }
    }
    sum
}

fn orbits(hypnotizer: &Hypnotizer) -> Vec<i32> {
    (0..HYPNOTIZER_ORBITS).map(|orbit| hypnotizer.orbit_angle(orbit)).collect()
}

/// Resumes without a key up to and including the resume that draws the next
/// frame.
fn next_frame(hypnotizer: &mut Hypnotizer, screen: &mut Screen, rng: &mut Rng) {
    let waker = dummy_waker();
    let mut cx = Context::from_waker(&waker);
    while !hypnotizer.wants_input() {
        assert_eq!(hypnotizer.resume(&mut cx, None, screen, rng), Poll::Pending);
    }
    assert_eq!(hypnotizer.resume(&mut cx, None, screen, rng), Poll::Pending);
}

#[test]
fn hypnotizer_constants() {
    assert_eq!(HYPNOTIZER_CENTER_ROW, 12);
    assert_eq!(HYPNOTIZER_CENTER_COL, 40);
    assert_eq!(HYPNOTIZER_ORBITS, 5);
    assert_eq!(HYPNOTIZER_PAUSE, 30_000);
}

#[test]
fn new_hypnotizer_has_not_started() {
    let hypnotizer = Hypnotizer::new();
    assert!(hypnotizer.wants_input());
    assert_eq!(hypnotizer.time(), 0);
    assert_eq!(hypnotizer.pulse_phase(), 0);
    assert_eq!(orbits(&hypnotizer), vec![0, 72, 144, 216, 288]);
    assert_eq!(hypnotizer.text_index(), 0);
}

#[test]
fn hypnotizer_clears_the_screen_and_draws_its_first_frame() {
    let waker = dummy_waker();
    let mut cx = Context::from_waker(&waker);
    let mut screen = Screen::new();
    write_at(&mut screen, b"left over from the menu", 3, 3, 0x0e);
    let mut rng = Rng::new();
    let mut hypnotizer = Hypnotizer::new();
    assert_eq!(hypnotizer.resume(&mut cx, None, &mut screen, &mut rng), Poll::Pending);
    assert_eq!(hypnotizer.time(), 8);
    assert_eq!(hypnotizer.pulse_phase(), 12);
    assert_eq!(orbits(&hypnotizer), vec![3, 75, 147, 219, 291]);
    assert_eq!(hypnotizer.text_index(), 0);
    assert_eq!(rng, Rng::from_seed(2408818798));
    assert_eq!(picture_sum(&screen), 3274778396);
    assert_eq!(screen.cell(12, 37), BLANK);
    assert_eq!(screen.cell(12, 38), Cell { ch: b'S', color: 8 });
    assert_eq!(screen.cell(12, 39), Cell { ch: b'W', color: 8 });
    assert_eq!(screen.cell(12, 40), Cell { ch: b'A', color: 8 });
    assert_eq!(screen.cell(12, 41), Cell { ch: b'G', color: 8 });
    assert_eq!(screen.cell(12, 42), BLANK);
    assert_eq!(screen.cell(0, 0), Cell { ch: b'#', color: 8 });
    assert_eq!(screen.cell(0, 40), Cell { ch: b'#', color: 9 });
    assert_eq!(screen.cell(0, 79), Cell { ch: b'#', color: 10 });
    assert_eq!(screen.cell(24, 79), Cell { ch: b'#', color: 12 });
    assert_eq!(screen.cell(24, 39), Cell { ch: b'#', color: 13 });
    assert_eq!(screen.cell(24, 0), Cell { ch: b'\\', color: 5 });
    let mut faded = 0;
    for row in 0..25 {
        for col in 0..80 {
            if screen.cell(row, col) == (Cell { ch: b' ', color: 0 }) {
                faded += 1;
            }
        }
    }
    assert_eq!(faded, 249);
}

#[test]
fn hypnotizer_pauses_for_30_polls_between_frames() {
    let waker = dummy_waker();
    let mut cx = Context::from_waker(&waker);
    let mut screen = Screen::new();
    let mut rng = Rng::new();
    let mut hypnotizer = Hypnotizer::new();
    assert_eq!(hypnotizer.resume(&mut cx, None, &mut screen, &mut rng), Poll::Pending);
    for _ in 0..29 {
        assert!(!hypnotizer.wants_input());
        assert_eq!(
            hypnotizer.resume(&mut cx, Some(KEY_ESC), &mut screen, &mut rng),
            Poll::Pending
        );
        assert_eq!(hypnotizer.time(), 8);
        assert_eq!(rng, Rng::from_seed(2408818798));
        assert_eq!(picture_sum(&screen), 3274778396);
    }
    assert!(hypnotizer.wants_input());
    assert_eq!(hypnotizer.resume(&mut cx, None, &mut screen, &mut rng), Poll::Pending);
    assert_eq!(hypnotizer.time(), 16);
    assert_eq!(hypnotizer.pulse_phase(), 24);
}

#[test]
fn hypnotizer_after_31_frames() {
    let mut screen = Screen::new();
    let mut rng = Rng::new();
    let mut hypnotizer = Hypnotizer::new();
    for _ in 0..31 {
        next_frame(&mut hypnotizer, &mut screen, &mut rng);
    }
    assert_eq!(hypnotizer.time(), 248);
    assert_eq!(hypnotizer.pulse_phase(), 12);
    assert_eq!(orbits(&hypnotizer), vec![93, 165, 237, 309, 21]);
    assert_eq!(hypnotizer.text_index(), 0);
    assert_eq!(rng, Rng::from_seed(927431664));
    assert_eq!(picture_sum(&screen), 1111937780);
    assert_eq!(screen.cell(0, 3), Cell { ch: b'#', color: 8 });
    assert_eq!(screen.cell(8, 79), Cell { ch: b'#', color: 12 });
    assert_eq!(screen.cell(24, 71), Cell { ch: b'#', color: 14 });
}

#[test]
fn hypnotizer_takes_the_next_word_when_the_clock_reaches_a_multiple_of_180() {
    let mut screen = Screen::new();
    let mut rng = Rng::new();
    let mut hypnotizer = Hypnotizer::new();
    for _ in 0..44 {
        next_frame(&mut hypnotizer, &mut screen, &mut rng);
        assert_eq!(hypnotizer.text_index(), 0);
    }
    next_frame(&mut hypnotizer, &mut screen, &mut rng);
    assert_eq!(hypnotizer.time(), 360);
    assert_eq!(hypnotizer.pulse_phase(), 180);
    assert_eq!(orbits(&hypnotizer), vec![135, 207, 279, 351, 63]);
    assert_eq!(hypnotizer.text_index(), 1);
    assert_eq!(rng, Rng::from_seed(1055148658));
    assert_eq!(picture_sum(&screen), 2012232989);
}

#[test]
fn hypnotizer_clock_starts_again_before_3600() {
    let mut screen = Screen::new();
    let mut rng = Rng::new();
    let mut hypnotizer = Hypnotizer::new();
    for _ in 0..449 {
        next_frame(&mut hypnotizer, &mut screen, &mut rng);
    }
    assert_eq!(hypnotizer.time(), 3592);
    next_frame(&mut hypnotizer, &mut screen, &mut rng);
    assert_eq!(hypnotizer.time(), 0);
    assert_eq!(hypnotizer.pulse_phase(), 0);
    assert_eq!(orbits(&hypnotizer), vec![270, 342, 54, 126, 198]);
}

#[test]
fn hypnotizer_ends_on_escape_with_a_cleared_screen() {
    let waker = dummy_waker();
    let mut cx = Context::from_waker(&waker);
    let mut screen = Screen::new();
    write_at(&mut screen, b"left over from the menu", 3, 3, 0x0e);
    let mut rng = Rng::new();
    let mut hypnotizer = Hypnotizer::new();
    assert_eq!(hypnotizer.resume(&mut cx, Some(KEY_ESC), &mut screen, &mut rng), Poll::Ready);
    assert_eq!(picture_sum(&screen), 347851520);
    assert_eq!(rng, Rng::new());
    assert_eq!(hypnotizer.time(), 0);
    assert!(!hypnotizer.wants_input());
    assert_eq!(hypnotizer.resume(&mut cx, None, &mut screen, &mut rng), Poll::Ready);
}

#[test]
fn hypnotizer_ends_on_escape_after_a_frame() {
    let waker = dummy_waker();
    let mut cx = Context::from_waker(&waker);
    let mut screen = Screen::new();
    let mut rng = Rng::new();
    let mut hypnotizer = Hypnotizer::new();
    for _ in 0..30 {
        assert_eq!(hypnotizer.resume(&mut cx, None, &mut screen, &mut rng), Poll::Pending);
    }
    assert_eq!(hypnotizer.resume(&mut cx, Some(KEY_ESC), &mut screen, &mut rng), Poll::Ready);
    assert_eq!(hypnotizer.time(), 8);
    assert_eq!(rng, Rng::from_seed(2408818798));
    assert_eq!(picture_sum(&screen), 3274778396);
}
