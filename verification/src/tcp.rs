//! Connecting TCP streams.
//!
//! Opening a socket and asking it for errors happen outside; what is decided in between stands
//! here.

use crate::event::RW;
use crate::evented::{fresh_common, MioAdapter};
use vstd::prelude::*;

verus! {

/// What the attempt to open a stream leads to.
#[derive(Debug)]
pub enum ConnectStep<T, E> {
    /// The stream is connecting: block the coroutine until it is ready in these directions, ask
    /// the raw stream for its error, and go on with `connected()`.
    Block(MioAdapter<T>, RW),
    /// Return the error.
    Fail(E),
}

/// Create a new TCP stream an issue a non-blocking connect to the specified address.
///
/// Takes the raw stream, which is connecting, or the error that came instead.
pub fn connect<T, E>(stream: Result<T, E>) -> (step: ConnectStep<T, E>)
    ensures
        match stream {
            Ok(t) => step matches ConnectStep::Block(adapter, rw) && adapter.0.0.io == t
                && adapter.0.common() == fresh_common() && rw == (RW { read: false, write: true }),
            Err(e) => step == ConnectStep::<T, E>::Fail(e),
        },
{
    match stream {
        Ok(t) => ConnectStep::Block(MioAdapter::new(t), RW::write()),
        Err(e) => ConnectStep::Fail(e),
    }
}

/// Finish connecting a stream.
///
/// Takes what the raw stream answered when it was asked for its error.
pub fn connected<T, E>(stream: MioAdapter<T>, socket_error: Result<(), E>) -> (connected: Result<
    MioAdapter<T>,
    E,
>)
    ensures
        connected == match socket_error {
            Ok(_) => Ok::<MioAdapter<T>, E>(stream),
            Err(e) => Err(e),
        },
{
    match socket_error {
        Ok(_) => Ok(stream),
        Err(e) => Err(e),
    }
}

/// Connecting waits until the stream can be written to, and then goes by the error of the stream: the
/// stream that was opened is handed out exactly if there is none.
pub proof fn law_connecting_goes_by_the_error<T, E>(
    stream: Result<T, E>,
    step: ConnectStep<T, E>,
    socket_error: Result<(), E>,
    outcome: Result<MioAdapter<T>, E>,
)
    requires
        call_ensures(connect::<T, E>, (stream,), step),
        step matches ConnectStep::Block(adapter, _) ==> call_ensures(
            connected::<T, E>,
            (adapter, socket_error),
            outcome,
        ),
    ensures
        step is Block <==> stream is Ok,
        stream matches Err(e) ==> step == ConnectStep::<T, E>::Fail(e),
        stream matches Ok(t) ==> {
            &&& step matches ConnectStep::Block(_, rw)
            &&& !rw.read && rw.write
            &&& outcome is Ok <==> socket_error is Ok
            &&& outcome matches Ok(adapter) ==> adapter.0.0.io == t && adapter.0.0.common.id is None
            &&& socket_error matches Err(e) ==> outcome == Err::<MioAdapter<T>, E>(e)
        },
{
}

} // verus!
