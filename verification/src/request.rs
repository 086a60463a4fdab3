//! What the handler of a thread asks of the world around it.

use crate::control::CoroutineControl;
use crate::coroutine::ExitStatus;
use crate::event::{EventSet, Token};
use crate::message::MioSender;
use crate::sync::mpsc::Sender;
use vstd::prelude::*;

verus! {

/// EventLoop message type
#[derive(Debug)]
pub enum Message {
    /// Channel notification
    ChannelMsg(Token),
    /// Coroutine migration
    Migration(CoroutineControl),
    /// Coroutine Panicked
    ///
    /// The number stands for the cause.
    PropagatePanic(u64),
    /// Stop all coroutines
    Shutdown,
    /// Terminate event loop
    Terminate,
}

/// Something to be done outside, before anything else happens on the thread.
#[derive(Debug)]
pub enum Request {
    /// Register the raw event source `io` with the event loop, for edges.
    Register {
        /// The raw source.
        io: u64,
        /// Its token.
        token: Token,
        /// The conditions to watch for.
        interest: EventSet,
    },
    /// Reregister the raw event source `io` with the event loop, for edges.
    Reregister {
        /// The raw source.
        io: u64,
        /// Its token.
        token: Token,
        /// The conditions to watch for.
        interest: EventSet,
    },
    /// Deregister the raw event source `io`.
    Deregister {
        /// The raw source.
        io: u64,
        /// Its token.
        token: Token,
    },
    /// Let the event loop time out after this many milliseconds.
    Timeout {
        /// The token to time out with.
        token: Token,
        /// The delay in milliseconds.
        delay_ms: u64,
    },
    /// Send a message to a thread of the instance.
    Send {
        /// The thread.
        to: MioSender,
        /// The message.
        message: Message,
    },
    /// Send the exit status of a coroutine over a channel.
    Exited {
        /// Sending end of the channel.
        over: Sender,
        /// The status.
        status: ExitStatus,
    },
    /// Shut the event loop down.
    Stop,
    /// Go on with a panic that was caught in a coroutine.
    Unwind(u64),
}

} // verus!
