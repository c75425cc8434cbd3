//! A small cooperative multitasking system for a machine without a heap,
//! threads or preemption, and the programs that run on it.
//!
//! The core is the executor. A fixed table of [`Task`] slots holds suspended
//! computations, and each call of [`Executor::run_step`] resumes the one slot
//! under a rotating cursor, so that several long-lived computations interleave
//! while the caller stays free to poll for input between steps. [`Yield`] and
//! [`Delay`] are the suspension points that computations are built from.
//!
//! Around the core stand the pieces that the programs draw with, a text
//! [`Screen`], a seedable random number generator and integer stand-ins for
//! sine and cosine, and the programs themselves. A [`Program`] is resumed
//! with what it needs from outside, the key that was read for it and the
//! screen; the caller that owns the keyboard and the display wraps it into a
//! [`Computation`] and hands it to the executor.

pub mod computation;
pub mod enhancer;
pub mod executor;
pub mod generator;
pub mod hypnotizer;
pub mod keyboard;
pub mod matrix;
pub mod menu;
pub mod panic_screen;
pub mod program;
pub mod rng;
pub mod screen;
pub mod suspend;
pub mod task;
pub mod trig;
pub mod waker;

pub use computation::{Computation, Poll};
pub use executor::{Executor, ExecutorView, MAX_TASKS};
pub use program::Program;
pub use rng::Rng;
pub use screen::{Cell, Screen};
pub use suspend::{Delay, Pause, Yield, DELAY_CHUNK};
pub use task::{Task, TASK_STORAGE_SIZE};
pub use waker::{dummy_waker, Context, Waker};
