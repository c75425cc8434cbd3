use swagos::enhancer::Enhancer;
use swagos::keyboard::{KEY_1, KEY_2, KEY_3, KEY_4, KEY_ESC};
use swagos::menu::{menu_choice, MenuChoice};
use swagos::program::Program;
use swagos::suspend::Pause;
use swagos::{
    dummy_waker, Cell, Computation, Context, Executor, Poll, Rng, Screen, MAX_TASKS,
    TASK_STORAGE_SIZE,
};
use std::cell::RefCell;
use std::rc::Rc;

/// The screen and the random number generator that all programs share.
struct Console {
    screen: Screen,
    rng: Rng,
}

/// A program together with the console it draws on and a script of keys:
/// what a driver on real hardware does with the keyboard and the display.
struct Scripted {
    program: Program,
    console: Rc<RefCell<Console>>,
    keys: Vec<u8>,
    reads: usize,
}

impl Scripted {
    fn new(program: Program, console: &Rc<RefCell<Console>>, keys: Vec<u8>) -> Scripted {
        Scripted { program, console: Rc::clone(console), keys, reads: 0 }
    }
}

impl Computation for Scripted {
    fn poll(&mut self, cx: &mut Context<'_>) -> Poll {
        let input = if self.program.wants_input() {
            self.reads += 1;
            if self.keys.is_empty() { None } else { Some(self.keys.remove(0)) }
        } else {
            None
        };
        let mut console = self.console.borrow_mut();
        let console = &mut *console;
        self.program.resume(cx, input, &mut console.screen, &mut console.rng)
    }
}

/// A program that carries its own screen is too large for a slot.
struct Selfish {
    program: Program,
    screen: Screen,
    rng: Rng,
}

impl Computation for Selfish {
    fn poll(&mut self, cx: &mut Context<'_>) -> Poll {
        self.program.resume(cx, None, &mut self.screen, &mut self.rng)
    }
}

#[test]
fn programs_fit_into_a_slot() {
    assert!(core::mem::size_of::<Program>() <= TASK_STORAGE_SIZE);
}

#[test]
fn menu_entries_launch_their_programs() {
    assert!(matches!(Program::launch(MenuChoice::Generator), Some(Program::Generator(_))));
    assert!(matches!(Program::launch(MenuChoice::Matrix), Some(Program::Matrix(_))));
    assert!(matches!(Program::launch(MenuChoice::Hypnotizer), Some(Program::Hypnotizer(_))));
    assert!(Program::launch(MenuChoice::Panic).is_none());
    assert!(matches!(
        menu_choice(KEY_1).and_then(Program::launch),
        Some(Program::Generator(_))
    ));
    assert!(menu_choice(KEY_2).and_then(Program::launch).is_none());
    assert!(matches!(menu_choice(KEY_3).and_then(Program::launch), Some(Program::Matrix(_))));
    assert!(matches!(
        menu_choice(KEY_4).and_then(Program::launch),
        Some(Program::Hypnotizer(_))
    ));
}

#[test]
fn launched_programs_ask_for_the_keyboard_and_the_enhancer_never_does() {
    for choice in [MenuChoice::Generator, MenuChoice::Matrix, MenuChoice::Hypnotizer] {
        let program = Program::launch(choice).unwrap();
        assert!(program.wants_input());
    }
    let waker = dummy_waker();
    let mut cx = Context::from_waker(&waker);
    let mut screen = Screen::new();
    let mut rng = Rng::new();
    let mut enhancer = Program::Enhancer(Enhancer::new());
    for _ in 0..4100 {
        assert!(!enhancer.wants_input());
        assert_eq!(
            enhancer.resume(&mut cx, Some(KEY_ESC), &mut screen, &mut rng),
            Poll::Pending
        );
    }
    assert_eq!(screen.cell(0, 0), Cell { ch: b'*', color: 0x0e });
}

#[test]
fn program_resume_is_the_resume_of_the_program_inside() {
    let waker = dummy_waker();
    let mut cx = Context::from_waker(&waker);
    let mut screen = Screen::new();
    let mut rng = Rng::new();
    let mut program = Program::launch(MenuChoice::Generator).unwrap();
    assert_eq!(program.resume(&mut cx, None, &mut screen, &mut rng), Poll::Pending);
    assert_eq!(screen.cell(0, 38), Cell { ch: b'S', color: 0x0c });
    assert_eq!(rng, Rng::new());
    let mut program = Program::launch(MenuChoice::Matrix).unwrap();
    let mut screen = Screen::new();
    assert_eq!(program.resume(&mut cx, None, &mut screen, &mut rng), Poll::Pending);
    assert_eq!(rng, Rng::from_seed(691904719));
    let mut program = Program::launch(MenuChoice::Hypnotizer).unwrap();
    let mut screen = Screen::new();
    let mut rng = Rng::new();
    assert_eq!(program.resume(&mut cx, None, &mut screen, &mut rng), Poll::Pending);
    assert_eq!(rng, Rng::from_seed(2408818798));
    let mut program = Program::launch(MenuChoice::Hypnotizer).unwrap();
    assert_eq!(program.resume(&mut cx, Some(KEY_ESC), &mut screen, &mut rng), Poll::Ready);
}

#[test]
fn foreground_program_runs_beside_the_enhancer_until_escape() {
    let console = Rc::new(RefCell::new(Console { screen: Screen::new(), rng: Rng::new() }));
    let mut executor: Executor<Scripted> = Executor::new();
    assert!(executor.spawn(Scripted::new(Program::Enhancer(Enhancer::new()), &console, vec![])));
    let generator = Program::launch(MenuChoice::Generator).unwrap();
    assert!(executor.spawn(Scripted::new(generator, &console, vec![KEY_1, KEY_3, KEY_ESC])));
    let mut steps = 0;
    while executor.has_active(1..MAX_TASKS) {
        executor.run_step();
        steps += 1;
        assert!(steps < 100_000);
    }
    assert_eq!(steps, 8 * 1000 + 2);
    assert!(executor.task(0).is_active());
    assert!(!executor.task(1).is_active());
    let background = executor.task(0).get().unwrap();
    assert_eq!(background.reads, 0);
    assert_eq!(console.borrow().screen.cell(0, 38), Cell { ch: b'S', color: 0x0c });
    assert_eq!(console.borrow().screen.cell(1, 38), Cell { ch: b'S', color: 0x0a });
    assert_eq!(console.borrow().screen.cell(2, 38), Cell { ch: b' ', color: 0x07 });
    assert_eq!(console.borrow().screen.cell(0, 0), Cell { ch: b' ', color: 0x07 });
    assert!(executor.spawn(Scripted::new(
        Program::launch(MenuChoice::Matrix).unwrap(),
        &console,
        vec![KEY_ESC]
    )));
    assert!(executor.task(1).is_active());
    for _ in 0..(8 * 1000 - 2) {
        executor.run_step();
    }
    assert!(!executor.task(1).is_active());
    assert_eq!(console.borrow().screen.cell(0, 0), Cell { ch: b'*', color: 0x05 });
}

#[test]
fn program_with_a_screen_of_its_own_is_turned_away() {
    assert!(core::mem::size_of::<Selfish>() > TASK_STORAGE_SIZE);
    let mut executor: Executor<Selfish> = Executor::new();
    let program = Program::launch(MenuChoice::Generator).unwrap();
    assert!(!executor.spawn(Selfish { program, screen: Screen::new(), rng: Rng::new() }));
    assert!(!executor.has_active(0..MAX_TASKS));
}

#[test]
fn pause_is_pending_while_it_delays_and_once_more_for_the_yield() {
    let waker = dummy_waker();
    let mut cx = Context::from_waker(&waker);
    for (cycles, pending) in [(0u32, 1usize), (1, 1), (1000, 1), (1001, 2), (2500, 3), (50_000, 50)] {
        let mut pause = Pause::new(cycles);
        assert!(!pause.has_yielded());
        for _ in 0..pending {
            assert_eq!(pause.poll(&mut cx), Poll::Pending);
        }
        assert!(pause.has_yielded());
        assert_eq!(pause.poll(&mut cx), Poll::Ready);
    }
}
