//! What a coroutine can do while it is being executed.
//!
//! Every function takes the coroutine that is being executed on the native thread; those that
//! only make sense inside of a coroutine ask for one. Switching back to the handler happens
//! outside, after a function that says so.

use crate::coroutine::{Coroutine, CoroutineView, ExitStatus, State, UserData};
use crate::event::{Event, EVENT_SOURCE_TOKEN_MASK, RW};
use crate::evented::{Evented, EventedImpl};
use crate::handler::Handler;
use crate::message::{tl_current_coroutine_ptr, CurrentCoroutine};
use crate::request::{Message, Request};
use crate::sched::SchedulerThread;
use crate::sync::mpsc::{channel, Channel, Receiver, Sender};
use crate::table::CoroutineTable;
use crate::thread::{HandlerShared, HandlerThreadShared};
use vstd::prelude::*;

verus! {

/// The coroutine that is being executed is in the table, and is being executed.
pub open spec fn executing(current: CurrentCoroutine, cos: Map<u64, CoroutineView>) -> bool {
    &&& current.co is Some
    &&& cos.contains_key(current.co->Some_0)
    &&& cos[current.co->Some_0].state is Running
}

/// The coroutine that is being executed.
pub fn tl_current_coroutine(current: &CurrentCoroutine) -> (co: u64)
    requires
        current.co is Some,
    ensures
        co == current.co->Some_0,
{
    tl_current_coroutine_ptr(current).unwrap()
}

/// Where a new coroutine is going to run.
#[derive(Copy, Clone, Debug, Eq, PartialEq, Structural)]
pub enum SpawnIn {
    /// In a new instance, started on a native thread of its own.
    NewInstance,
    /// In the instance of the coroutine that is being executed; see `spawn_ext()`.
    SameInstance,
}

/// Spawn a coroutine.
///
/// If called inside an existing instance - spawn and run a new coroutine in it.
///
/// If called outside of existing instance - spawn a new instance in a separate thread.
/// The intention is to guarantee:
/// * this call will not block
/// * coroutine will be executing in some instance
pub fn spawn(current: &CurrentCoroutine) -> (spawn_in: SpawnIn)
    ensures
        spawn_in == if current.co is None {
            SpawnIn::NewInstance
        } else {
            SpawnIn::SameInstance
        },
{
    match tl_current_coroutine_ptr(current) {
        None => SpawnIn::NewInstance,
        Some(_) => SpawnIn::SameInstance,
    }
}

/// Handle to spawned coroutine
#[derive(Debug)]
pub struct CoroutineHandle {
    coroutine: u64,
}

/// Spawn a coroutine
///
/// Can't be used outside of existing coroutine.
///
/// Returns a `CoroutineHandle` that can be used to perform additional operations.
pub fn spawn_ext<S: SchedulerThread>(
    current: &CurrentCoroutine,
    handler: &mut Handler<S>,
    table: &mut CoroutineTable,
    thread_shared: &mut HandlerThreadShared,
) -> (handle: CoroutineHandle)
    requires
        current.co is Some,
        old(handler)@.running == current.co,
        old(handler).wf(old(table)),
        old(handler)@.shared.can_attach(),
        old(table).next_key() < u64::MAX,
        old(thread_shared).coroutines_num < usize::MAX,
    ensures
        handle.key() == old(table).next_key(),
        crate::handler::spawn_child_step(
            old(handler)@,
            old(table)@,
            handle.key(),
            final(handler)@,
            final(table)@,
        ),
        final(table).next_key() == old(table).next_key() + 1,
        *final(thread_shared) == (HandlerThreadShared {
            coroutines_num: (old(thread_shared).coroutines_num + 1) as usize,
            ..*old(thread_shared)
        }),
        final(handler).wf(final(table)),
{
    CoroutineHandle { coroutine: handler.spawn_child(table, thread_shared) }
}

/// The channel that a new exit notificator receives from: it holds the status if the coroutine
/// has ended already.
pub open spec fn exit_channel(co: CoroutineView, key: u64) -> crate::sync::mpsc::ChannelView<
    ExitStatus,
> {
    let fresh = crate::sync::mpsc::new_channel::<ExitStatus>(key, None);
    match co.state {
        State::Finished(exit) => fresh.sent(exit).left(),
        _ => fresh,
    }
}

impl CoroutineHandle {
    /// Key of the coroutine.
    pub closed spec fn key(self) -> u64 {
        self.coroutine
    }

    /// The key of the coroutine.
    pub fn coroutine(&self) -> (key: u64)
        ensures
            key == self.key(),
    {
        self.coroutine
    }

    /// Create an exit notificator
    ///
    /// `channel_key` is the name of the channel to be made for it. If the coroutine has ended, its
    /// exit status is in the channel; otherwise it is sent over the channel when it ends.
    pub fn exit_notificator(&self, table: &mut CoroutineTable, channel_key: u64) -> (notificator: (
        Receiver,
        Channel<ExitStatus>,
    ))
        requires
            old(table).wf(),
            old(table)@.contains_key(self.key()),
        ensures
            ({
                let co = old(table)@[self.key()];
                &&& notificator.0.channel() == channel_key
                &&& notificator.0.source().common() == crate::evented::fresh_common()
                &&& notificator.1@ == exit_channel(co, channel_key)
                &&& notificator.1@.wf()
                &&& if co.state is Finished {
                    final(table)@ == old(table)@
                } else {
                    let over = final(table)@[self.key()].exit_notificators.last();
                    &&& over.channel() == channel_key
                    &&& final(table)@ == old(table)@.insert(
                        self.key(),
                        CoroutineView { exit_notificators: co.exit_notificators.push(over), ..co },
                    )
                }
            }),
            final(table).next_key() == old(table).next_key(),
            final(table).wf(),
    {
        let (outer, inner, mut state): (Sender, Receiver, Channel<ExitStatus>) = channel(
            channel_key,
        );
        let mut co: Coroutine = table.take(self.coroutine);
        let ghost before = co@;
        match co.state() {
            State::Finished(exit) => {
                let _ = outer.send(&mut state, exit);
                let _ = outer.drop(&mut state);
                table.put(self.coroutine, co);
                assert(table@ =~= old(table)@);
            },
            _ => {
                co.add_exit_notificator(outer);
                assert(co@.exit_notificators.last() == outer);
                table.put(self.coroutine, co);
                assert(table@ =~= old(table)@.insert(self.key(), co@));
            },
        }
        (inner, state)
    }
}

/// Shutdown current instance
///
/// Call from inside of an instance to shut it down. All existing coroutines will be forced in to
/// panic, and their stack unwind.
///
/// Returns what is to be done outside; after that the coroutine yields until it is killed.
pub fn shutdown(current: &CurrentCoroutine, shared: &HandlerShared) -> (requests: Vec<Request>)
    requires
        current.co is Some,
    ensures
        requests@ == shared@.broadcast(Message::Shutdown),
{
    shared.broadcast_shutdown()
}

/// Execute a block of synchronous operations
///
/// This is done by offloading the synchronous operations to a separate thread, a notifying the
/// coroutine when the result is available.
///
/// Returns the name of the channel that the thread sends over when it is done, and that the
/// coroutine receives from. A coroutine has one such channel, made when it is first needed:
/// `channel_key` is the name that it gets then, and its ends come with it.
pub fn sync(current: &CurrentCoroutine, table: &mut CoroutineTable, channel_key: u64) -> (over: (
    u64,
    Option<(Sender, Receiver, Channel<()>)>,
))
    requires
        old(table).wf(),
        executing(*current, old(table)@),
    ensures
        ({
            let key = current.co->Some_0;
            let co = old(table)@[key];
            match co.sync_channel {
                Some(made) => {
                    &&& over.0 == made
                    &&& over.1 is None
                    &&& final(table)@ == old(table)@
                },
                None => {
                    &&& over.0 == channel_key
                    &&& over.1 matches Some((sender, receiver, state))
                    &&& sender.channel() == channel_key
                    &&& receiver.channel() == channel_key
                    &&& receiver.source().common() == crate::evented::fresh_common()
                    &&& state@ == crate::sync::mpsc::new_channel::<()>(channel_key, None)
                    &&& state@.wf()
                    &&& final(table)@ == old(table)@.insert(
                        key,
                        CoroutineView { sync_channel: Some(channel_key), ..co },
                    )
                },
            }
        }),
        final(table).next_key() == old(table).next_key(),
        final(table).wf(),
{
    let key: u64 = tl_current_coroutine(current);
    let mut co: Coroutine = table.take(key);
    match co.sync_channel() {
        Some(made) => {
            table.put(key, co);
            assert(table@ =~= old(table)@);
            (made, None)
        },
        None => {
            co.set_sync_channel(channel_key);
            table.put(key, co);
            assert(table@ =~= old(table)@.insert(key, co@));
            (channel_key, Some(channel(channel_key)))
        },
    }
}

/// Gets the user data set through `set_userdata`. Returns `None` if the type does not match or if
/// no data was set
pub fn get_userdata(current: &CurrentCoroutine, table: &CoroutineTable, type_id: u64) -> (value:
    Option<u64>)
    requires
        current.co is Some,
        table@.contains_key(current.co->Some_0),
    ensures
        value == UserData::value_of(table@[current.co->Some_0].user_data, type_id),
{
    let key: u64 = tl_current_coroutine(current);
    let user_data: Option<UserData> = table.get(key).unwrap().user_data();
    UserData::get(&user_data, type_id)
}

/// Sets new user data for the current coroutine
pub fn set_userdata(current: &CurrentCoroutine, table: &mut CoroutineTable, data: UserData)
    requires
        old(table).wf(),
        current.co is Some,
        old(table)@.contains_key(current.co->Some_0),
    ensures
        ({
            let key = current.co->Some_0;
            final(table)@ == old(table)@.insert(
                key,
                CoroutineView { user_data: Some(data), ..old(table)@[key] },
            )
        }),
        final(table).next_key() == old(table).next_key(),
        final(table).wf(),
{
    let key: u64 = tl_current_coroutine(current);
    let mut co: Coroutine = table.take(key);
    co.set_user_data(Some(data));
    table.put(key, co);
    assert(table@ =~= old(table)@.insert(key, co@));
}

/// Sets new user data that will inherit to newly spawned coroutines. Use `None` to clear.
pub fn set_children_userdata(
    current: &CurrentCoroutine,
    table: &mut CoroutineTable,
    data: Option<UserData>,
)
    requires
        old(table).wf(),
        current.co is Some,
        old(table)@.contains_key(current.co->Some_0),
    ensures
        ({
            let key = current.co->Some_0;
            final(table)@ == old(table)@.insert(
                key,
                CoroutineView { inherited_user_data: data, ..old(table)@[key] },
            )
        }),
        final(table).next_key() == old(table).next_key(),
        final(table).wf(),
{
    let key: u64 = tl_current_coroutine(current);
    let mut co: Coroutine = table.take(key);
    co.set_inherited_user_data(data);
    table.put(key, co);
    assert(table@ =~= old(table)@.insert(key, co@));
}

/// Get number of threads of the instance that coroutine is running in.
///
/// This is useful for load balancing: spawning as many coroutines as there is handling threads
/// that can run them.
pub fn thread_num(
    current: &CurrentCoroutine,
    shared: &HandlerShared,
    thread_shared: &HandlerThreadShared,
) -> (n: usize)
    requires
        current.co is Some,
    ensures
        n == thread_shared.thread_num,
{
    shared.thread_num(thread_shared)
}

/// Yield coroutine execution
///
/// Coroutine can yield execution without blocking on anything particular to allow scheduler to run
/// other coroutines before resuming execution of the current one.
///
/// For this to be effective, custom scheduler must be implemented. See `trait Scheduler`.
///
/// Afterwards, the coroutine switches back to the handler.
pub fn yield_now(current: &CurrentCoroutine, table: &mut CoroutineTable)
    requires
        old(table).wf(),
        executing(*current, old(table)@),
        old(table)@[current.co->Some_0].blocked_on.len() == 0,
    ensures
        ({
            let key = current.co->Some_0;
            final(table)@ == old(table)@.insert(
                key,
                CoroutineView { state: State::Yielding, ..old(table)@[key] },
            )
        }),
        final(table).next_key() == old(table).next_key(),
        final(table).wf(),
{
    let key: u64 = tl_current_coroutine(current);
    let mut co: Coroutine = table.take(key);
    co.yield_now();
    table.put(key, co);
    assert(table@ =~= old(table)@.insert(key, co@));
}

/// Add an event source to the next select operation of the coroutine that is being executed.
///
/// `io` is the number that stands for the raw source.
pub fn select_add<E: EventedImpl>(
    current: &CurrentCoroutine,
    table: &mut CoroutineTable,
    evented: &mut E,
    io: u64,
    rw: RW,
)
    requires
        old(table).wf(),
        executing(*current, old(table)@),
        old(table)@[current.co->Some_0].blocked_on.len() <= EVENT_SOURCE_TOKEN_MASK,
    ensures
        ({
            let key = current.co->Some_0;
            let co = old(table)@[key];
            let common = old(evented).source().common();
            &&& final(table)@ == old(table)@.insert(key, co.with_source(io, common, rw))
            &&& final(evented).source() == old(evented).source().with_common(
                co.placed(common, rw),
            )
        }),
        final(table).next_key() == old(table).next_key(),
        final(table).wf(),
{
    let key: u64 = tl_current_coroutine(current);
    let mut co: Coroutine = table.take(key);
    evented.select_add(&mut co, io, rw);
    table.put(key, co);
    assert(table@ =~= old(table)@.insert(key, co@));
}

/// Wait till an event is ready
///
/// Afterwards, the coroutine switches back to the handler; once it is resumed, `selected()` tells
/// the event.
///
/// **Warning**: It can't be guaranteed that the event source will not block when actually
/// attempting to `read` or `write`. You must use `try_read` and `try_write` instead.
pub fn select_wait(current: &CurrentCoroutine, table: &mut CoroutineTable)
    requires
        old(table).wf(),
        executing(*current, old(table)@),
    ensures
        ({
            let key = current.co->Some_0;
            final(table)@ == old(table)@.insert(
                key,
                CoroutineView { state: State::Blocked, ..old(table)@[key] },
            )
        }),
        final(table).next_key() == old(table).next_key(),
        final(table).wf(),
{
    let key: u64 = tl_current_coroutine(current);
    let mut co: Coroutine = table.take(key);
    co.select_wait();
    table.put(key, co);
    assert(table@ =~= old(table)@.insert(key, co@));
}

/// The event that ended the last wait.
///
/// The value contains event type and the id of the event source. See `Evented::id()`.
pub fn selected(current: &CurrentCoroutine, table: &CoroutineTable) -> (event: Event)
    requires
        current.co is Some,
        table@.contains_key(current.co->Some_0),
    ensures
        event == table@[current.co->Some_0].last_event,
{
    let key: u64 = tl_current_coroutine(current);
    table.get(key).unwrap().last_event()
}

/// Block the coroutine that is being executed on one event source.
///
/// Afterwards, the coroutine switches back to the handler; once it is resumed, `resumed()` ends
/// the operation.
pub fn block_on<E: EventedImpl>(
    current: &CurrentCoroutine,
    table: &mut CoroutineTable,
    evented: &mut E,
    io: u64,
    rw: RW,
)
    requires
        old(table).wf(),
        executing(*current, old(table)@),
        old(table)@[current.co->Some_0].blocked_on.len() == 0,
    ensures
        ({
            let key = current.co->Some_0;
            let co = old(table)@[key];
            let common = old(evented).source().common();
            &&& final(table)@ == old(table)@.insert(
                key,
                CoroutineView { state: State::Blocked, ..co.with_source(io, common, rw) },
            )
            &&& final(evented).source() == old(evented).source().with_common(
                co.placed(common, rw),
            )
        }),
        final(table).next_key() == old(table).next_key(),
        final(table).wf(),
{
    let key: u64 = tl_current_coroutine(current);
    let mut co: Coroutine = table.take(key);
    evented.block_on(&mut co, io, rw);
    table.put(key, co);
    assert(table@ =~= old(table)@.insert(key, co@));
}

/// The coroutine has been resumed: takes back what happened to an event source meanwhile.
pub fn resumed<E: EventedImpl>(
    current: &CurrentCoroutine,
    table: &CoroutineTable,
    evented: &mut E,
)
    requires
        current.co is Some,
        table@.contains_key(current.co->Some_0),
        old(evented).source().common().id is Some,
        old(evented).source().common().id->Some_0.0
            < table@[current.co->Some_0].released.len(),
    ensures
        final(evented).source() == old(evented).source().with_common(
            table@[current.co->Some_0].released[old(
                evented,
            ).source().common().id->Some_0.0 as int].common(),
        ),
{
    let key: u64 = tl_current_coroutine(current);
    evented.resumed(table.get(key).unwrap());
}

/// The function of the coroutine that is being executed has returned, or has panicked.
///
/// Returns what is to be done outside; afterwards, the coroutine switches back to the handler for
/// good.
pub fn exit(current: &CurrentCoroutine, table: &mut CoroutineTable, status: ExitStatus) -> (requests:
    Vec<Request>)
    requires
        old(table).wf(),
        executing(*current, old(table)@),
    ensures
        ({
            let key = current.co->Some_0;
            let co = old(table)@[key];
            &&& requests@ == co.exit_requests(status)
            &&& final(table)@ == old(table)@.insert(key, co.finished(status))
        }),
        final(table).next_key() == old(table).next_key(),
        final(table).wf(),
{
    let key: u64 = tl_current_coroutine(current);
    let mut co: Coroutine = table.take(key);
    let requests: Vec<Request> = co.finish(status);
    table.put(key, co);
    assert(table@ =~= old(table)@.insert(key, co@));
    requests
}

/// An exit notificator tells the exit status, whether it is made before or after the coroutine
/// ends: made after, it holds the status; made before, the status goes over its channel when the
/// coroutine ends. Either way it is told once, and then the channel is disconnected.
pub proof fn law_exit_notificator(co: CoroutineView, status: ExitStatus, over: Sender, key: u64)
    requires
        over.channel() == key,
    ensures
        co.state == State::Finished(status) ==> {
            &&& exit_channel(co, key).head() == Ok::<ExitStatus, crate::sync::mpsc::TryRecvError>(
                status,
            )
            &&& exit_channel(co, key).received().head() == Err::<
                ExitStatus,
                crate::sync::mpsc::TryRecvError,
            >(crate::sync::mpsc::TryRecvError::Disconnected)
        },
        !(co.state is Finished) ==> {
            let waiting = CoroutineView {
                exit_notificators: co.exit_notificators.push(over),
                ..co
            };
            &&& waiting.exit_requests(status).last() == (Request::Exited { over, status })
            &&& exit_channel(co, key).sent(status).left() == exit_channel(co.finished(status), key)
        },
{
}

/// What was set is what is got: user data is returned for the type that it was set with, and for
/// no other type.
pub proof fn law_user_data_is_kept(data: UserData, type_id: u64)
    ensures
        UserData::value_of(Some(data), type_id) == if type_id == data.type_id {
            Some(data.value)
        } else {
            None
        },
{
}

/// Only the coroutine that is being executed is changed.
pub open spec fn others_untouched(
    current: CurrentCoroutine,
    pre: Map<u64, CoroutineView>,
    post: Map<u64, CoroutineView>,
) -> bool {
    &&& post.dom() == pre.dom()
    &&& forall|key: u64|
        pre.contains_key(key) && current.co != Some(key) ==> #[trigger] post[key] == pre[key]
}

/// A coroutine that yields can go on at once, and one that waits goes on with the first event of what
/// it has selected. Neither changes what it has selected, nor anything else about it, nor any other
/// coroutine.
pub proof fn law_yielding_and_waiting(
    current: CurrentCoroutine,
    yielding: &mut CoroutineTable,
    waiting: &mut CoroutineTable,
)
    requires
        executing(current, old(yielding)@),
        executing(current, old(waiting)@),
        call_ensures(yield_now, (&current, yielding), ()),
        call_ensures(select_wait, (&current, waiting), ()),
    ensures
        ({
            let key = current.co->Some_0;
            &&& final(yielding)@[key].state is Yielding
            &&& final(yielding)@[key].blocked_on == old(yielding)@[key].blocked_on
            &&& crate::coroutine::same_but_waiting(old(yielding)@[key], final(yielding)@[key])
            &&& final(waiting)@[key].state is Blocked
            &&& final(waiting)@[key].blocked_on == old(waiting)@[key].blocked_on
            &&& crate::coroutine::same_but_waiting(old(waiting)@[key], final(waiting)@[key])
        }),
        others_untouched(current, old(yielding)@, final(yielding)@),
        others_untouched(current, old(waiting)@, final(waiting)@),
{
    assert(final(yielding)@.dom() =~= old(yielding)@.dom());
    assert(final(waiting)@.dom() =~= old(waiting)@.dom());
}

/// A source that is selected is waited for in the directions asked for, from the next wait on; it and
/// the coroutine agree on its id. Blocking on a source is to select it alone, and to wait. Neither
/// changes the raw source, nor anything else about the coroutine, nor any other coroutine.
pub proof fn law_selecting_and_blocking<E: EventedImpl>(
    current: CurrentCoroutine,
    selecting: &mut CoroutineTable,
    selected_on: &mut E,
    blocking: &mut CoroutineTable,
    blocked_on: &mut E,
    io: u64,
    rw: RW,
)
    requires
        executing(current, old(selecting)@),
        old(selecting).wf(),
        old(selecting)@[current.co->Some_0].blocked_on.len() <= EVENT_SOURCE_TOKEN_MASK,
        executing(current, old(blocking)@),
        old(blocking).wf(),
        old(blocking)@[current.co->Some_0].blocked_on.len() == 0,
        call_ensures(select_add::<E>, (&current, selecting, selected_on, io, rw), ()),
        call_ensures(block_on::<E>, (&current, blocking, blocked_on, io, rw), ()),
    ensures
        ({
            let key = current.co->Some_0;
            &&& crate::coroutine::added_last(
                old(selecting)@[key],
                io,
                old(selected_on).source().0.common,
                rw,
                final(selected_on).source().0.common,
                final(selecting)@[key],
            )
            &&& final(selecting)@[key].state is Running
            &&& crate::coroutine::same_but_waiting(old(selecting)@[key], final(selecting)@[key])
            &&& forall|i: int|
                0 <= i < old(selecting)@[key].blocked_on.len() && old(
                    selecting,
                )@[key].blocked_on[i].0.io != io ==> #[trigger] final(selecting)@[key].blocked_on[i]
                    == old(selecting)@[key].blocked_on[i]
            &&& crate::coroutine::added_last(
                old(blocking)@[key],
                io,
                old(blocked_on).source().0.common,
                rw,
                final(blocked_on).source().0.common,
                final(blocking)@[key],
            )
            &&& final(blocking)@[key].state is Blocked
            &&& crate::coroutine::same_but_waiting(old(blocking)@[key], final(blocking)@[key])
        }),
        final(selected_on).source().0.io == old(selected_on).source().0.io,
        final(blocked_on).source().0.io == old(blocked_on).source().0.io,
        others_untouched(current, old(selecting)@, final(selecting)@),
        others_untouched(current, old(blocking)@, final(blocking)@),
{
    assert(final(selecting)@.dom() =~= old(selecting)@.dom());
    assert(final(blocking)@.dom() =~= old(blocking)@.dom());
}

/// A coroutine that has been woken up by an event finds out what the event was, and its source takes
/// back whether the peer has hung up; the raw source stays the same.
pub proof fn law_woken_coroutine_finds_its_event<E: EventedImpl>(
    current: CurrentCoroutine,
    co: &mut Coroutine,
    token: crate::event::Token,
    events: crate::event::EventSet,
    outcome: (bool, Vec<Request>),
    table: CoroutineTable,
    event: Event,
    evented: &mut E,
    i: int,
)
    requires
        old(co)@.wf(),
        old(co)@.state is Blocked,
        0 <= i < old(co)@.blocked_on.len(),
        old(evented).source().0.common.id == Some(crate::event::EventSourceId(i as usize)),
        call_ensures(Coroutine::event, (co, token, events), outcome),
        outcome.0,
        current.co is Some,
        table@.contains_key(current.co->Some_0),
        table@[current.co->Some_0].last_event == final(co)@.last_event,
        table@[current.co->Some_0].released == final(co)@.released,
        call_ensures(selected, (&current, &table), event),
        call_ensures(resumed::<E>, (&current, &table, evented), ()),
    ensures
        event.id.0 == token.0 as int % 1024,
        ({
            let asked = old(co)@.blocked_on[token.0 as int % 1024].0.common.blocked_on;
            &&& event.rw.read <==> asked.read && (events.readable || events.hup)
            &&& event.rw.write <==> asked.write && events.writable
        }),
        final(evented).source().0.io == old(evented).source().0.io,
        final(evented).source().0.common.peer_hup <==> old(
            co,
        )@.blocked_on[i].0.common.peer_hup || (events.hup && old(co)@.blocked_on[i].0.io == old(
            co,
        )@.blocked_on[token.0 as int % 1024].0.io),
        final(evented).source().0.common.id == old(co)@.blocked_on[i].0.common.id,
{
}

/// A coroutine has one channel for synchronous operations: it is made when it is first needed, with
/// the name that was proposed then, and is the same from then on, whatever name is proposed.
pub proof fn law_one_channel_for_synchronous_operations(
    current: CurrentCoroutine,
    first: &mut CoroutineTable,
    proposed: u64,
    made: (u64, Option<(Sender, Receiver, Channel<()>)>),
    second: &mut CoroutineTable,
    proposed_again: u64,
    found: (u64, Option<(Sender, Receiver, Channel<()>)>),
)
    requires
        executing(current, old(first)@),
        call_ensures(sync, (&current, first, proposed), made),
        old(second)@ == final(first)@,
        call_ensures(sync, (&current, second, proposed_again), found),
    ensures
        ({
            let key = current.co->Some_0;
            let before = old(first)@[key].sync_channel;
            &&& before is None ==> {
                &&& made.0 == proposed
                &&& made.1 matches Some((sender, receiver, channel))
                &&& sender.channel() == proposed
                &&& receiver.channel() == proposed
                &&& crate::sync::mpsc::unused(channel@, proposed)
            }
            &&& before is Some ==> made.1 is None && before == Some(made.0)
            &&& final(first)@[key].sync_channel == Some(made.0)
            &&& final(first)@[key].user_data == old(first)@[key].user_data
            &&& final(first)@[key].inherited_user_data == old(first)@[key].inherited_user_data
            &&& final(first)@[key].exit_notificators == old(first)@[key].exit_notificators
            &&& final(first)@[key].blocked_on == old(first)@[key].blocked_on
            &&& final(first)@[key].released == old(first)@[key].released
            &&& final(first)@[key].last_event == old(first)@[key].last_event
            &&& final(first)@[key].state == old(first)@[key].state
            &&& final(first)@[key].id == old(first)@[key].id
            &&& final(first)@[key].handler == old(first)@[key].handler
        }),
        found.0 == made.0,
        found.1 is None,
        final(second)@ == final(first)@,
        others_untouched(current, old(first)@, final(first)@),
{
    assert(final(first)@.dom() =~= old(first)@.dom());
}

/// User data is set for the executed coroutine only; setting its own leaves alone what its children
/// get, and the other way round. Nothing else changes.
pub proof fn law_user_data_is_set(
    current: CurrentCoroutine,
    own: &mut CoroutineTable,
    data: UserData,
    for_children: &mut CoroutineTable,
    children_data: Option<UserData>,
)
    requires
        executing(current, old(own)@),
        executing(current, old(for_children)@),
        call_ensures(set_userdata, (&current, own, data), ()),
        call_ensures(set_children_userdata, (&current, for_children, children_data), ()),
    ensures
        ({
            let key = current.co->Some_0;
            let co = old(own)@[key];
            let after = final(own)@[key];
            &&& after.user_data == Some(data)
            &&& after.inherited_user_data == co.inherited_user_data
            &&& same_but_user_data(co, after)
        }),
        ({
            let key = current.co->Some_0;
            let co = old(for_children)@[key];
            let after = final(for_children)@[key];
            &&& after.inherited_user_data == children_data
            &&& after.user_data == co.user_data
            &&& same_but_user_data(co, after)
        }),
        others_untouched(current, old(own)@, final(own)@),
        others_untouched(current, old(for_children)@, final(for_children)@),
{
    assert(final(own)@.dom() =~= old(own)@.dom());
    assert(final(for_children)@.dom() =~= old(for_children)@.dom());
}

/// Both agree in everything but user data.
pub open spec fn same_but_user_data(pre: CoroutineView, post: CoroutineView) -> bool {
    &&& post.state == pre.state
    &&& post.blocked_on == pre.blocked_on
    &&& post.released == pre.released
    &&& post.last_event == pre.last_event
    &&& post.exit_notificators == pre.exit_notificators
    &&& post.sync_channel == pre.sync_channel
    &&& post.id == pre.id
    &&& post.handler == pre.handler
}

/// User data is got for the type that it was set with: for any other type, or if none was set, there
/// is none. The control that a scheduler sees tells the same.
pub proof fn law_user_data_is_got(
    current: CurrentCoroutine,
    table: CoroutineTable,
    type_id: u64,
    value: Option<u64>,
    ctrl: crate::control::CoroutineControl,
    seen: Option<u64>,
)
    requires
        current.co is Some,
        table@.contains_key(current.co->Some_0),
        call_ensures(get_userdata, (&current, &table, type_id), value),
        ctrl.data() == table@[current.co->Some_0].user_data,
        call_ensures(crate::control::CoroutineControl::get_userdata, (&ctrl, type_id), seen),
    ensures
        match table@[current.co->Some_0].user_data {
            None => value is None,
            Some(data) => (value == Some(data.value) <==> data.type_id == type_id) && (value is None
                <==> data.type_id != type_id),
        },
        seen == value,
{
}

/// Asking to be told how a coroutine ends changes nothing about it but that one more waits, behind the
/// others, and nothing about any other coroutine.
pub proof fn law_exit_notificators_are_queued(
    handle: CoroutineHandle,
    table: &mut CoroutineTable,
    channel_key: u64,
    notificator: (Receiver, Channel<ExitStatus>),
    other: u64,
)
    requires
        old(table)@.contains_key(handle.key()),
        !(old(table)@[handle.key()].state is Finished),
        call_ensures(
            CoroutineHandle::exit_notificator,
            (&handle, table, channel_key),
            notificator,
        ),
    ensures
        ({
            let before = old(table)@[handle.key()];
            let after = final(table)@[handle.key()];
            &&& after.exit_notificators.len() == before.exit_notificators.len() + 1
            &&& forall|i: int|
                0 <= i < before.exit_notificators.len() ==> #[trigger] after.exit_notificators[i]
                    == before.exit_notificators[i]
            &&& after.exit_notificators.last().channel() == channel_key
            &&& after.user_data == before.user_data
            &&& after.inherited_user_data == before.inherited_user_data
            &&& after.sync_channel == before.sync_channel
            &&& after.state == before.state
            &&& after.blocked_on == before.blocked_on
            &&& after.released == before.released
            &&& after.last_event == before.last_event
            &&& after.id == before.id
            &&& after.handler == before.handler
        }),
        crate::sync::mpsc::unused(notificator.1@, channel_key),
        notificator.1@.bound is None,
        final(table)@.contains_key(other) <==> old(table)@.contains_key(other),
        old(table)@.contains_key(other) && other != handle.key() ==> final(table)@[other] == old(
            table,
        )@[other],
{
}

/// A coroutine that ends tells everyone who waits for it, and is the only one that changes.
pub proof fn law_exit_is_told(
    current: CurrentCoroutine,
    table: &mut CoroutineTable,
    status: ExitStatus,
    requests: Vec<Request>,
    co: &mut Coroutine,
    told: Vec<Request>,
)
    requires
        executing(current, old(table)@),
        old(co)@ == old(table)@[current.co->Some_0],
        call_ensures(exit, (&current, table, status), requests),
        call_ensures(Coroutine::finish, (co, status), told),
    ensures
        requests@ == told@,
        final(table)@[current.co->Some_0] == final(co)@,
        others_untouched(current, old(table)@, final(table)@),
{
    assert(final(table)@.dom() =~= old(table)@.dom());
}

/// A new coroutine runs in the instance of the one that is being executed, if there is one, and in a
/// new instance otherwise; its handle leads to it. Every thread is told to shut down, once, and the
/// number of threads is that of the instance.
pub proof fn law_instances_are_shared_and_shut_down(
    current: CurrentCoroutine,
    spawn_in: SpawnIn,
    shared: HandlerShared,
    requests: Vec<Request>,
    threads: HandlerThreadShared,
    n: usize,
    i: int,
)
    requires
        call_ensures(spawn, (&current,), spawn_in),
        call_ensures(shutdown, (&current, &shared), requests),
        call_ensures(thread_num, (&current, &shared, &threads), n),
        0 <= i < shared@.senders.len(),
    ensures
        spawn_in is SameInstance <==> current.co is Some,
        requests@.len() == shared@.senders.len(),
        requests@[i] == (Request::Send { to: shared@.senders[i], message: Message::Shutdown }),
        n == threads.thread_num,
{
}

/// Spawning gives a handle to a coroutine that was not there before: it is ready on the thread of its
/// parent, has the user data that its parent has set for its children, and starts after its parent
/// has switched back. Every other coroutine stays as it was.
pub proof fn law_handles_lead_to_new_coroutines<S: SchedulerThread>(
    current: CurrentCoroutine,
    handler: &mut Handler<S>,
    table: &mut CoroutineTable,
    threads: &mut HandlerThreadShared,
    handle: CoroutineHandle,
    other: u64,
)
    requires
        old(handler).wf(old(table)),
        current.co is Some,
        old(handler)@.running == current.co,
        call_ensures(spawn_ext::<S>, (&current, handler, table, threads), handle),
    ensures
        ({
            let child = final(table)@[handle.key()];
            let parent = old(table)@[current.co->Some_0];
            let queue = final(handler)@.shared.children_to_start;
            &&& !old(table)@.contains_key(handle.key())
            &&& final(table)@.contains_key(handle.key())
            &&& child.state is Ready
            &&& child.handler == Some(old(handler)@.shared.thread_id)
            &&& child.user_data == parent.inherited_user_data
            &&& child.inherited_user_data == parent.inherited_user_data
            &&& child.exit_notificators.len() == 0
            &&& child.sync_channel is None
            &&& queue.len() == old(handler)@.shared.children_to_start.len() + 1
            &&& queue.last().key() == handle.key()
            &&& queue.last().data() == parent.inherited_user_data
            &&& !queue.last().yielding()
        }),
        other != handle.key() && old(table)@.contains_key(other) ==> {
            &&& final(table)@.contains_key(other)
            &&& final(table)@[other] == old(table)@[other]
        },
{
    old(handler).lemma_inv(old(table));
}

/// A source that is taken back after its coroutine was resumed knows all that happened to it: its
/// control data is that of its place among the sources that were released.
pub proof fn law_sources_are_taken_back<E: EventedImpl>(
    current: CurrentCoroutine,
    table: CoroutineTable,
    evented: &mut E,
    co: u64,
)
    requires
        current.co is Some,
        old(evented).source().0.common.id is Some,
        call_ensures(resumed::<E>, (&current, &table, evented), ()),
        call_ensures(tl_current_coroutine, (&current,), co),
    ensures
        ({
            let released = table@[co].released;
            let id = old(evented).source().0.common.id->Some_0;
            &&& final(evented).source().0.common == released[id.0 as int].0.common
            &&& final(evented).source().0.io == old(evented).source().0.io
        }),
        current.co == Some(co),
{
}

} // verus!
