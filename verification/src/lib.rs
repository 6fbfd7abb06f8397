//! Cooperative single-task executor with logical millisecond time, plus a
//! button-state debouncer built on top of it.
//!
//! The crate is organised in layers:
//!
//! * [`milliseconds`]: a wraparound-safe 32-bit instant/duration pair.
//! * [`executor`]: a mini executor that drives one cooperative task tree,
//!   one poll per external step, and merges the sleep requests raised
//!   during that step into a single recommended maximum delay.
//! * [`basic_futures`] and [`timer`]: the yield, sleep and join primitives
//!   the task trees are built from, and a bounded cooperative wait.
//! * [`button_processor`] and [`check_hold_button`]: a state machine that
//!   turns raw button bitflags into debounced press/repeat/release events.
//! * [`system`]: the device's concrete flag, clock and timer-setting types
//!   with the decisions taken over them.

pub mod basic_futures;
pub mod button_processor;
pub mod check_hold_button;
pub mod executor;
pub mod milliseconds;
pub mod system;
pub mod timer;

pub use basic_futures::{join2, sleep_at_most, yield_now};
pub use executor::{
    AccessExecutorSignals, AccessTiming, MiniExecutor, MiniExecutorBuilder, MiniScheduler,
    ReceiveBool, Scheduler, Stopped, Task, TaskPoll,
};
pub use milliseconds::{DurationMillis, InstantMillis};
pub use timer::Timer;
