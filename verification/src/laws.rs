//! What holds of the coroutines of an instance over any number of calls, on any of its threads.

use crate::api;
use crate::coroutine::{CoroutineView, ExitStatus, UserData};
use crate::event::{EventSet, Token, RW};
use crate::evented::EventedImpl;
use crate::handler::{Action, Handler, Phase};
use crate::message::CurrentCoroutine;
use crate::request::{Message, Request};
use crate::sched::SchedulerThread;
use crate::sync::mpsc::{Channel, Receiver, Sender};
use crate::table::CoroutineTable;
use crate::thread::HandlerThreadShared;
use vstd::prelude::*;

verus! {

/// The coroutines of an instance.
pub type Coroutines = Map<u64, CoroutineView>;

/// The coroutine with this key has kept what it has: its user data, the user data for its children,
/// the channel for synchronous operations, if it had one, and everyone who waits for its exit.
pub open spec fn keeps(pre: Coroutines, post: Coroutines, key: u64) -> bool {
    let before = pre[key];
    let after = post[key];
    pre.contains_key(key) ==> {
        &&& post.contains_key(key)
        &&& after.user_data == before.user_data
        &&& after.inherited_user_data == before.inherited_user_data
        &&& before.sync_channel is Some ==> after.sync_channel == before.sync_channel
        &&& before.exit_notificators.len() <= after.exit_notificators.len()
        &&& forall|i: int|
            0 <= i < before.exit_notificators.len() ==> #[trigger] after.exit_notificators[i]
                == before.exit_notificators[i]
    }
}

/// Whatever a thread does next, each coroutine keeps what it has.
pub proof fn law_steps_keep<S: SchedulerThread>(
    handler: &mut Handler<S>,
    table: &mut CoroutineTable,
    action: Action,
    key: u64,
)
    requires
        old(handler).wf(old(table)),
        call_ensures(Handler::<S>::next, (handler, table), action),
    ensures
        keeps(old(table)@, final(table)@, key),
{
    old(handler).lemma_inv(old(table));
    let pre = old(handler)@;
    if let Phase::Shutdown { next, .. } = pre.phase {
        if pre.shared.items.contains_key(next) {
            assert(pre.shared.attached(old(table)@, pre.shared.items[next]));
        }
    }
}

/// When a coroutine switches back, each coroutine keeps what it has.
pub proof fn law_switching_back_keeps<S: SchedulerThread>(
    handler: &mut Handler<S>,
    table: &mut CoroutineTable,
    threads: &mut HandlerThreadShared,
    requests: Vec<Request>,
    key: u64,
)
    requires
        old(handler).wf(old(table)),
        old(handler)@.running is Some,
        crate::handler::switched_back(old(table)@[old(handler)@.running->Some_0]),
        call_ensures(Handler::<S>::after_resume, (handler, table, threads), requests),
    ensures
        keeps(old(table)@, final(table)@, key),
{
    old(handler).lemma_inv(old(table));
}

/// When an event comes, each coroutine keeps what it has.
pub proof fn law_events_keep<S: SchedulerThread>(
    handler: &mut Handler<S>,
    table: &mut CoroutineTable,
    token: Token,
    events: EventSet,
    requests: Vec<Request>,
    key: u64,
)
    requires
        old(handler).wf(old(table)),
        call_ensures(Handler::<S>::ready, (handler, table, token, events), requests),
    ensures
        keeps(old(table)@, final(table)@, key),
{
    old(handler).lemma_inv(old(table));
}

/// When a timeout comes, each coroutine keeps what it has.
pub proof fn law_timeouts_keep<S: SchedulerThread>(
    handler: &mut Handler<S>,
    table: &mut CoroutineTable,
    token: Token,
    requests: Vec<Request>,
    key: u64,
)
    requires
        old(handler).wf(old(table)),
        call_ensures(Handler::<S>::timeout, (handler, table, token), requests),
    ensures
        keeps(old(table)@, final(table)@, key),
{
    old(handler).lemma_inv(old(table));
}

/// When a message comes, each coroutine keeps what it has; a migration takes nothing away.
pub proof fn law_messages_keep<S: SchedulerThread>(
    handler: &mut Handler<S>,
    table: &mut CoroutineTable,
    threads: HandlerThreadShared,
    msg: Message,
    requests: Vec<Request>,
    key: u64,
)
    requires
        old(handler).wf(old(table)),
        msg matches Message::Migration(ctrl) ==> old(table)@.contains_key(ctrl.key()),
        call_ensures(Handler::<S>::notify, (handler, table, &threads, msg), requests),
    ensures
        keeps(old(table)@, final(table)@, key),
{
    old(handler).lemma_inv(old(table));
}

/// When a coroutine is spawned, each coroutine keeps what it has.
pub proof fn law_spawning_keeps<S: SchedulerThread>(
    current: CurrentCoroutine,
    handler: &mut Handler<S>,
    table: &mut CoroutineTable,
    threads: &mut HandlerThreadShared,
    handle: api::CoroutineHandle,
    key: u64,
)
    requires
        old(handler).wf(old(table)),
        call_ensures(api::spawn_ext::<S>, (&current, handler, table, threads), handle),
    ensures
        keeps(old(table)@, final(table)@, key),
{
    old(handler).lemma_inv(old(table));
}

/// When the executed coroutine yields, or waits, each coroutine keeps what it has.
pub proof fn law_yielding_and_waiting_keep(
    current: CurrentCoroutine,
    yielding: &mut CoroutineTable,
    waiting: &mut CoroutineTable,
    key: u64,
)
    requires
        api::executing(current, old(yielding)@),
        api::executing(current, old(waiting)@),
        call_ensures(api::yield_now, (&current, yielding), ()),
        call_ensures(api::select_wait, (&current, waiting), ()),
    ensures
        keeps(old(yielding)@, final(yielding)@, key),
        keeps(old(waiting)@, final(waiting)@, key),
{
}

/// When the executed coroutine selects or blocks on a source, each coroutine keeps what it has.
pub proof fn law_selecting_and_blocking_keep<E: EventedImpl>(
    current: CurrentCoroutine,
    selecting: &mut CoroutineTable,
    selected: &mut E,
    blocking: &mut CoroutineTable,
    blocked_on: &mut E,
    io: u64,
    rw: RW,
    key: u64,
)
    requires
        api::executing(current, old(selecting)@),
        api::executing(current, old(blocking)@),
        call_ensures(api::select_add::<E>, (&current, selecting, selected, io, rw), ()),
        call_ensures(api::block_on::<E>, (&current, blocking, blocked_on, io, rw), ()),
    ensures
        keeps(old(selecting)@, final(selecting)@, key),
        keeps(old(blocking)@, final(blocking)@, key),
{
}

/// When the executed coroutine runs synchronous operations, each coroutine keeps what it has.
pub proof fn law_synchronous_operations_keep(
    current: CurrentCoroutine,
    table: &mut CoroutineTable,
    channel_key: u64,
    over: (u64, Option<(Sender, Receiver, Channel<()>)>),
    key: u64,
)
    requires
        api::executing(current, old(table)@),
        call_ensures(api::sync, (&current, table, channel_key), over),
    ensures
        keeps(old(table)@, final(table)@, key),
{
}

/// When somebody asks to be told how a coroutine ends, each coroutine keeps what it has.
pub proof fn law_exit_notificators_keep(
    handle: api::CoroutineHandle,
    table: &mut CoroutineTable,
    channel_key: u64,
    notificator: (Receiver, Channel<ExitStatus>),
    key: u64,
)
    requires
        old(table)@.contains_key(handle.key()),
        call_ensures(
            api::CoroutineHandle::exit_notificator,
            (&handle, table, channel_key),
            notificator,
        ),
    ensures
        keeps(old(table)@, final(table)@, key),
{
}

/// When a coroutine sets user data, for itself or for its children, or ends, every other coroutine
/// keeps what it has.
pub proof fn law_others_keep(
    current: CurrentCoroutine,
    setting: &mut CoroutineTable,
    data: UserData,
    for_children: &mut CoroutineTable,
    children_data: Option<UserData>,
    ending: &mut CoroutineTable,
    status: ExitStatus,
    requests: Vec<Request>,
    key: u64,
)
    requires
        api::executing(current, old(setting)@),
        api::executing(current, old(for_children)@),
        api::executing(current, old(ending)@),
        current.co != Some(key),
        call_ensures(api::set_userdata, (&current, setting, data), ()),
        call_ensures(api::set_children_userdata, (&current, for_children, children_data), ()),
        call_ensures(api::exit, (&current, ending, status), requests),
    ensures
        keeps(old(setting)@, final(setting)@, key),
        keeps(old(for_children)@, final(for_children)@, key),
        keeps(old(ending)@, final(ending)@, key),
{
}

/// Over any number of calls that each keep what a coroutine has, it keeps what it has.
pub proof fn law_keeping_lasts(states: Seq<Coroutines>, key: u64)
    requires
        states.len() > 0,
        forall|i: int| 0 < i < states.len() ==> keeps(states[i - 1], #[trigger] states[i], key),
    ensures
        keeps(states[0], states.last(), key),
    decreases states.len(),
{
    if states.len() > 1 {
        let before = states.drop_last();
        assert forall|i: int| 0 < i < before.len() implies keeps(
            before[i - 1],
            #[trigger] before[i],
            key,
        ) by {
            assert(keeps(states[i - 1], states[i], key));
        }
        law_keeping_lasts(before, key);
        let n = states.len() - 1;
        assert(keeps(states[n - 1], states[n], key));
    }
}

/// Children get what was set for them last: whatever happens after a coroutine has set user data for
/// its children, and as long as it sets no other, a child that it spawns has that data, and hands
/// the same on to its own children.
pub proof fn law_children_get_what_was_set_last<S: SchedulerThread>(
    current: CurrentCoroutine,
    setting: &mut CoroutineTable,
    data: Option<UserData>,
    states: Seq<Coroutines>,
    handler: &mut Handler<S>,
    spawning: &mut CoroutineTable,
    threads: &mut HandlerThreadShared,
    handle: api::CoroutineHandle,
)
    requires
        api::executing(current, old(setting)@),
        call_ensures(api::set_children_userdata, (&current, setting, data), ()),
        states.len() > 0,
        states[0] == final(setting)@,
        forall|i: int|
            0 < i < states.len() ==> keeps(
                states[i - 1],
                #[trigger] states[i],
                current.co->Some_0,
            ),
        states.last() == old(spawning)@,
        old(handler).wf(old(spawning)),
        old(handler)@.running == current.co,
        call_ensures(api::spawn_ext::<S>, (&current, handler, spawning, threads), handle),
    ensures
        final(spawning)@[handle.key()].user_data == data,
        final(spawning)@[handle.key()].inherited_user_data == data,
{
    law_keeping_lasts(states, current.co->Some_0);
}

/// What a coroutine has set as its user data is what it gets, whatever happens in between, as long as
/// it sets no other: for the type that it was set with the value, and for any other type nothing.
pub proof fn law_user_data_is_got_as_set(
    current: CurrentCoroutine,
    setting: &mut CoroutineTable,
    data: UserData,
    states: Seq<Coroutines>,
    table: CoroutineTable,
    type_id: u64,
    value: Option<u64>,
)
    requires
        api::executing(current, old(setting)@),
        call_ensures(api::set_userdata, (&current, setting, data), ()),
        states.len() > 0,
        states[0] == final(setting)@,
        forall|i: int|
            0 < i < states.len() ==> keeps(
                states[i - 1],
                #[trigger] states[i],
                current.co->Some_0,
            ),
        states.last() == table@,
        call_ensures(api::get_userdata, (&current, &table, type_id), value),
    ensures
        type_id == data.type_id ==> value == Some(data.value),
        type_id != data.type_id ==> value is None,
{
    law_keeping_lasts(states, current.co->Some_0);
}

/// Whoever asks for the exit status of a coroutine that has not ended is told: whatever happens
/// before it ends, its status is sent over the channel that was made for that, which holds nothing
/// until then.
pub proof fn law_exit_status_reaches_who_asked(
    handle: api::CoroutineHandle,
    asking: &mut CoroutineTable,
    channel_key: u64,
    notificator: (Receiver, Channel<ExitStatus>),
    states: Seq<Coroutines>,
    current: CurrentCoroutine,
    ending: &mut CoroutineTable,
    status: ExitStatus,
    requests: Vec<Request>,
)
    requires
        old(asking)@.contains_key(handle.key()),
        !(old(asking)@[handle.key()].state is Finished),
        call_ensures(
            api::CoroutineHandle::exit_notificator,
            (&handle, asking, channel_key),
            notificator,
        ),
        states.len() > 0,
        states[0] == final(asking)@,
        forall|i: int|
            0 < i < states.len() ==> keeps(states[i - 1], #[trigger] states[i], handle.key()),
        states.last() == old(ending)@,
        current.co == Some(handle.key()),
        call_ensures(api::exit, (&current, ending, status), requests),
    ensures
        notificator.0.channel() == channel_key,
        notificator.1@.key == channel_key,
        notificator.1@.queue.len() == 0,
        notificator.1@.senders == 1,
        notificator.1@.receiving,
        ({
            let place = old(asking)@[handle.key()].exit_notificators.len() as int;
            &&& place < requests@.len()
            &&& requests@[place] matches Request::Exited { over, status: told }
            &&& over.channel() == channel_key
            &&& told == status
        }),
{
    law_keeping_lasts(states, handle.key());
    let place = old(asking)@[handle.key()].exit_notificators.len() as int;
    assert(states[0][handle.key()].exit_notificators[place].channel() == channel_key);
    assert(states.last()[handle.key()].exit_notificators[place].channel() == channel_key);
}

/// Whoever asks for the exit status of a coroutine that has ended finds it, once, and then nothing
/// more comes.
pub proof fn law_exit_status_is_found_by_who_is_late(
    handle: api::CoroutineHandle,
    asking: &mut CoroutineTable,
    channel_key: u64,
    notificator: (Receiver, Channel<ExitStatus>),
)
    requires
        old(asking)@.contains_key(handle.key()),
        old(asking)@[handle.key()].state is Finished,
        call_ensures(
            api::CoroutineHandle::exit_notificator,
            (&handle, asking, channel_key),
            notificator,
        ),
    ensures
        final(asking)@ == old(asking)@,
        notificator.0.channel() == channel_key,
        notificator.1@.key == channel_key,
        notificator.1@.queue == seq![old(asking)@[handle.key()].state->Finished_0],
        notificator.1@.senders == 0,
        notificator.1@.receiving,
        notificator.1@.bound is None,
{
    assert(notificator.1@.queue =~= seq![old(asking)@[handle.key()].state->Finished_0]);
}

} // verus!
