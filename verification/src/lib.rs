//! Scalable, coroutine-based, asynchronous IO handling library.
//!
//! Coroutines are executed by a number of threads, each with an event loop. A coroutine runs until
//! it has to wait for something: then it switches back to the handler of its thread, which executes
//! another one. To the programmer the code in a coroutine looks like blocking code.
//!
//! This crate holds what is decided in such a library: which coroutine runs when and where, what
//! wakes it up, what its channels, mailboxes, timers and locks do. It does so as plain values and
//! functions on them, so that all of it can be proved. Switching stacks, waiting for events and
//! running native threads happens outside: functions return what is to be done there, and are told
//! what came of it.
//!
//! * [`instance`] configures and starts an instance.
//! * [`handler`] is the handler of one thread.
//! * [`api`] is what a coroutine can do.
//! * [`sched`] holds the schedulers.
//! * [`sync`], [`mail`] and [`timer`] hold things that a coroutine can wait for.
//! * [`laws`] says what holds over any number of calls; laws of single parts stand with them.

pub mod api;
pub mod control;
pub mod coroutine;
pub mod event;
pub mod evented;
pub mod handler;
pub mod instance;
pub mod laws;
pub mod mail;
pub mod message;
pub mod request;
pub mod retry;
pub mod sched;
pub mod slots;
pub mod sync;
pub mod table;
pub mod tcp;
pub mod thread;
pub mod timer;

pub use api::{
    get_userdata, select_wait, set_children_userdata, set_userdata, shutdown, spawn, spawn_ext,
    thread_num, yield_now, CoroutineHandle,
};
pub use control::CoroutineControl;
pub use coroutine::ExitStatus;
pub use event::{Event, EventSourceId, RW};
pub use evented::{Evented, MioAdapter};
pub use handler::Handler;
pub use instance::{start, start_threads, Config, Mioco};
pub use message::in_coroutine;
pub use sched::{Scheduler, SchedulerThread};
pub use timer::sleep;
