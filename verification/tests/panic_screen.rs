use swagos::panic_screen::{
    draw_halt_screen, draw_panic_frame, PANIC_COLORS, PANIC_FRAMES, PANIC_FRAME_PAUSE,
};
use swagos::screen::write_at;
use swagos::{Cell, Screen};

fn frame_sum(screen: &Screen) -> u32 {
    let mut sum: u32 = 0;
    for row in 0..25 {
        for col in 0..80 {
            let cell = screen.cell(row, col);
            sum = sum
                .wrapping_mul(31)
                .wrapping_add(cell.ch as u32 * 256 + cell.color as u32);
        }
    }
    sum
}

fn line(screen: &Screen, row: usize, col: usize, len: usize) -> Vec<u8> {
    (col..col + len).map(|c| screen.cell(row, c).ch).collect()
}

#[test]
fn panic_constants() {
    assert_eq!(PANIC_FRAMES, 20);
    assert_eq!(PANIC_FRAME_PAUSE, 50_000_000);
    assert_eq!(PANIC_COLORS, [0x0c, 0x0e, 0x0a, 0x0b, 0x0d, 0x09]);
}

#[test]
fn first_panic_frame() {
    let mut screen = Screen::new();
    write_at(&mut screen, b"whatever was there", 0, 0, 0x0e);
    draw_panic_frame(&mut screen, 0);
    assert_eq!(line(&screen, 2, 24, 31), b"OH NO! MAXIMUM SWAG OVERLOAD!!!");
    assert_eq!(screen.cell(2, 24).color, 0x0c);
    assert_eq!(line(&screen, 10, 18, 41), b"KERNEL PANIC at swag_generator():line_MAX");
    assert_eq!(screen.cell(10, 18).color, 0x0f);
    assert_eq!(line(&screen, 12, 16, 46), b"Stack trace: SWAG -> MORE_SWAG -> MAXIMUM_SWAG");
    assert_eq!(
        line(&screen, 14, 12, 54),
        b"Error code: 0xSWAG (cooperative multitasking overload)"
    );
    assert_eq!(screen.cell(14, 12).color, 0x0c);
    assert_eq!(line(&screen, 16, 20, 41), b" $$$$$$\\  $$\\      $$\\  $$$$$$\\   $$$$$$\\");
    assert_eq!(line(&screen, 17, 19, 42), b"$$  __$$\\ $$ | $\\  $$ |$$  __$$\\ $$  __$$\\");
    assert_eq!(line(&screen, 18, 19, 42), b"\\$$$$$$\\  $$ $$ $$\\$$ |$$$$$$$$ |$$ |$$$$\\");
    assert_eq!(line(&screen, 19, 19, 42), b" \\______/ \\__/     \\__|\\__|  \\__| \\______/");
    assert_eq!(screen.cell(16, 20).color, 0x0c);
    assert_eq!(screen.cell(17, 19).color, 0x0e);
    assert_eq!(screen.cell(18, 19).color, 0x0a);
    assert_eq!(screen.cell(19, 19).color, 0x0b);
    assert_eq!(line(&screen, 22, 24, 32), b"System halted with MAXIMUM SWAG!");
    assert_eq!(screen.cell(22, 24).color, 0x08);
    assert_eq!(screen.cell(0, 0), Cell { ch: b' ', color: 0x07 });
    assert_eq!(frame_sum(&screen), 2919107182);
}

#[test]
fn panic_frames_take_turns_with_messages_and_colours() {
    let mut screen = Screen::new();
    draw_panic_frame(&mut screen, 1);
    assert_eq!(line(&screen, 2, 24, 31), b"SYSTEM TOO SWAG TO HANDLE!!!!!!");
    assert_eq!(screen.cell(2, 24).color, 0x0e);
    assert_eq!(screen.cell(16, 20).color, 0x0e);
    assert_eq!(screen.cell(19, 19).color, 0x0d);
    assert_eq!(frame_sum(&screen), 833272010);
    draw_panic_frame(&mut screen, 2);
    assert_eq!(line(&screen, 2, 24, 31), b"SWAG LEVELS: OVER 9000!!!!!!!!!");
    draw_panic_frame(&mut screen, 3);
    assert_eq!(line(&screen, 2, 24, 31), b"ERROR: NOT ENOUGH SWAG DETECTED");
    draw_panic_frame(&mut screen, 4);
    assert_eq!(line(&screen, 2, 24, 31), b"PANIC: SWAG BUFFER OVERFLOW!!!!");
    draw_panic_frame(&mut screen, 5);
    assert_eq!(line(&screen, 2, 24, 31), b"CRITICAL: SWAG CORE MELTDOWN!!!");
    assert_eq!(screen.cell(2, 24).color, 0x09);
    assert_eq!(screen.cell(17, 19).color, 0x0c);
    assert_eq!(frame_sum(&screen), 3438083892);
}

#[test]
fn panic_frames_repeat_after_six() {
    let mut screen = Screen::new();
    draw_panic_frame(&mut screen, 6);
    assert_eq!(frame_sum(&screen), 2919107182);
    draw_panic_frame(&mut screen, 19);
    assert_eq!(frame_sum(&screen), 833272010);
    draw_panic_frame(&mut screen, usize::MAX);
    assert_eq!(line(&screen, 2, 24, 31), match usize::MAX % 6 {
        0 => b"OH NO! MAXIMUM SWAG OVERLOAD!!!",
        1 => b"SYSTEM TOO SWAG TO HANDLE!!!!!!",
        2 => b"SWAG LEVELS: OVER 9000!!!!!!!!!",
        3 => b"ERROR: NOT ENOUGH SWAG DETECTED",
        4 => b"PANIC: SWAG BUFFER OVERFLOW!!!!",
        _ => b"CRITICAL: SWAG CORE MELTDOWN!!!",
    });
}

#[test]
fn halt_screen() {
    let mut screen = Screen::new();
    draw_panic_frame(&mut screen, 3);
    draw_halt_screen(&mut screen);
    assert_eq!(line(&screen, 12, 25, 29), b"SYSTEM SWAG OVERLOAD COMPLETE");
    assert_eq!(screen.cell(12, 25).color, 0x0c);
    assert_eq!(line(&screen, 14, 22, 34), b"RIP SwagOS - Too Swag 4 This World");
    assert_eq!(screen.cell(14, 22).color, 0x08);
    assert_eq!(screen.cell(2, 24), Cell { ch: b' ', color: 0x07 });
    assert_eq!(frame_sum(&screen), 1452122661);
}
