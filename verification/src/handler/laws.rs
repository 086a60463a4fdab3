//! What holds of the threads of an instance over several steps.

use crate::control::Command;
use crate::coroutine::{same_belongings, Coroutine, CoroutineView, ExitStatus, State};
use crate::event::Token;
use crate::handler::{Action, Handler, HandlerView, Phase};
use crate::request::{Message, Request};
use crate::sched::SchedulerThread;
use crate::table::CoroutineTable;
use crate::thread::{HandlerThreadShared, STARTING_ID};
use vstd::prelude::*;

verus! {

/// No coroutine is forgotten and none is queued twice: unless the thread is shutting down, every
/// coroutine of the thread that is ready is on its way to be resumed exactly once, and any other
/// coroutine is not.
pub proof fn law_no_coroutine_is_forgotten<S: SchedulerThread>(
    handler: HandlerView<S>,
    cos: Map<u64, CoroutineView>,
    key: u64,
)
    requires
        handler.inv(cos),
        !handler.is_shutting_down,
    ensures
        handler.pending(key) == if handler.shared.attached(cos, key) && cos[key].state is Ready {
            1nat
        } else {
            0nat
        },
{
}

/// Only a coroutine of the thread that is ready is resumed; then it is the one that is being
/// executed, and is not on its way to be resumed a second time.
pub proof fn law_only_ready_coroutines_are_resumed<S: SchedulerThread>(
    pre: HandlerView<S>,
    cos: Map<u64, CoroutineView>,
    key: u64,
    post: HandlerView<S>,
    post_cos: Map<u64, CoroutineView>,
)
    requires
        pre.inv(cos),
        post.inv(post_cos),
        super::next_step(pre, cos, Action::Resume(key), post, post_cos),
    ensures
        pre.shared.attached(cos, key),
        cos[key].state is Ready,
        post_cos[key].state is Running,
        post.running == Some(key),
        !post.is_shutting_down ==> post.pending(key) == 0,
{
}

/// When nothing is queued, delivering to the scheduler ends after both queues were looked at: the
/// thread goes on to the question for a timeout if it handles a tick, and waits for events
/// otherwise.
pub proof fn law_delivery_ends<S: SchedulerThread>(
    h0: HandlerView<S>,
    cos: Map<u64, CoroutineView>,
    a1: Action,
    h1: HandlerView<S>,
    cos1: Map<u64, CoroutineView>,
    a2: Action,
    h2: HandlerView<S>,
    cos2: Map<u64, CoroutineView>,
)
    requires
        h0.phase is Spawned,
        h0.todo.len() == 0,
        h0.shared.spawned.len() == 0,
        h0.shared.ready.len() == 0,
        super::next_step(h0, cos, a1, h1, cos1),
        super::next_step(h1, cos1, a2, h2, cos2),
    ensures
        a1 is Continue,
        a2 is Continue,
        cos2 == cos,
        h2 == (HandlerView {
            phase: if h0.ticking {
                Phase::Timeout
            } else {
                Phase::Idle
            },
            ..h0
        }),
{
}

/// A migration moves a coroutine to another thread and leaves everything else about it as it was:
/// it leaves its thread, the message that goes out reaches a thread, and then it belongs to that
/// one. No other coroutine is touched.
pub proof fn law_migration_keeps_the_coroutine<S: SchedulerThread>(
    from: HandlerView<S>,
    cos: Map<u64, CoroutineView>,
    message: Message,
    from_after: HandlerView<S>,
    cos_between: Map<u64, CoroutineView>,
    to: HandlerView<S>,
    requests: Seq<Request>,
    to_after: HandlerView<S>,
    cos_after: Map<u64, CoroutineView>,
)
    requires
        from.todo.len() > 0,
        from.todo[0] matches Command::Migrate(_, thread_id) && super::next_step(
            from,
            cos,
            Action::Request(
                Request::Send { to: from.shared.senders[thread_id as int], message },
            ),
            from_after,
            cos_between,
        ),
        super::notify_step(to, cos_between, message, requests, to_after, cos_after),
    ensures
        ({
            let key = from.todo[0].key();
            &&& !from_after.shared.items.contains_key(cos[key].id)
            &&& cos_between[key].handler is None
            &&& to_after.shared.attached(cos_after, key)
            &&& cos_after[key] == (CoroutineView {
                id: cos_after[key].id,
                handler: Some(to.shared.thread_id),
                ..cos[key]
            })
            &&& forall|other: u64| other != key ==> (#[trigger] cos_after.contains_key(other)
                <==> cos.contains_key(other))
            &&& forall|other: u64| other != key && #[trigger] cos.contains_key(other)
                ==> cos_after[other] == cos[other]
        }),
{
}

/// The threads are told to terminate when, and only when, the last coroutine of the instance has
/// ended.
pub proof fn law_last_exit_terminates<S: SchedulerThread>(
    pre: HandlerView<S>,
    cos: Map<u64, CoroutineView>,
    threads: HandlerThreadShared,
    requests: Seq<Request>,
    post: HandlerView<S>,
    post_cos: Map<u64, CoroutineView>,
    post_threads: HandlerThreadShared,
    i: int,
)
    requires
        super::after_resume_step(pre, cos, threads, requests, post, post_cos, post_threads),
        cos[pre.running->Some_0].state is Finished,
        threads.coroutines_num > 0,
        0 <= i < pre.shared.senders.len(),
    ensures
        threads.coroutines_num == 1 <==> requests.contains(
            Request::Send { to: pre.shared.senders[i], message: Message::Terminate },
        ),
{
    let told = Request::Send { to: pre.shared.senders[i], message: Message::Terminate };
    let key = pre.running->Some_0;
    let first = super::propagated(pre, key, cos[key]);
    if threads.coroutines_num == 1 {
        assert(pre.shared.broadcast(Message::Terminate)[i] == told);
        assert(requests[first.len() + i] == told);
    } else {
        assert(requests =~= first);
    }
}

/// A coroutine that blocks or yields ends nothing: no thread is told to terminate.
pub proof fn law_only_an_exit_terminates<S: SchedulerThread>(
    pre: HandlerView<S>,
    cos: Map<u64, CoroutineView>,
    threads: HandlerThreadShared,
    requests: Seq<Request>,
    post: HandlerView<S>,
    post_cos: Map<u64, CoroutineView>,
    post_threads: HandlerThreadShared,
    i: int,
)
    requires
        super::after_resume_step(pre, cos, threads, requests, post, post_cos, post_threads),
        !(cos[pre.running->Some_0].state is Finished),
        0 <= i < requests.len(),
    ensures
        post_threads == threads,
        requests[i] is Register,
{
}

/// A panic in a coroutine stays in the coroutine if panics are caught. Otherwise a message goes to
/// the thread itself, and when it comes the thread goes on with the panic.
pub proof fn law_panics_are_contained<S: SchedulerThread>(
    pre: HandlerView<S>,
    cos: Map<u64, CoroutineView>,
    threads: HandlerThreadShared,
    requests: Seq<Request>,
    post: HandlerView<S>,
    post_cos: Map<u64, CoroutineView>,
    post_threads: HandlerThreadShared,
    cause: u64,
)
    requires
        super::after_resume_step(pre, cos, threads, requests, post, post_cos, post_threads),
        super::switched_back(cos[pre.running->Some_0]),
    ensures
        ({
            let key = pre.running->Some_0;
            let own = pre.shared.senders[pre.shared.thread_id as int];
            requests.contains(Request::Send { to: own, message: Message::PropagatePanic(cause) })
                <==> cause == key && cos[key].state == State::Finished(ExitStatus::Panic)
                && !pre.shared.coroutine_config.catch_panics
        }),
{
    let key = pre.running->Some_0;
    let own = pre.shared.senders[pre.shared.thread_id as int];
    let sent = Request::Send { to: own, message: Message::PropagatePanic(cause) };
    let first = super::propagated(pre, key, cos[key]);
    if cos[key].state == State::Finished(ExitStatus::Panic)
        && !pre.shared.coroutine_config.catch_panics && cause == key {
        assert(requests[0] == sent);
    }
}

/// A thread that gets the message of a panic goes on with that panic.
pub proof fn law_propagated_panic_unwinds<S: SchedulerThread>(
    pre: HandlerView<S>,
    cos: Map<u64, CoroutineView>,
    cause: u64,
    requests: Seq<Request>,
    post: HandlerView<S>,
    post_cos: Map<u64, CoroutineView>,
)
    requires
        super::notify_step(pre, cos, Message::PropagatePanic(cause), requests, post, post_cos),
    ensures
        requests == seq![Request::Unwind(cause)],
{
}

/// A coroutine gets the user data that its parent has set for its children, and hands the same on
/// to its own children unless it sets another.
pub proof fn law_user_data_is_inherited<S: SchedulerThread>(
    pre: HandlerView<S>,
    cos: Map<u64, CoroutineView>,
    child: u64,
    post: HandlerView<S>,
    post_cos: Map<u64, CoroutineView>,
)
    requires
        super::spawn_child_step(pre, cos, child, post, post_cos),
        pre.running is Some,
        pre.running != Some(child),
    ensures
        post_cos[child].user_data == cos[pre.running->Some_0].inherited_user_data,
        post_cos[child].inherited_user_data == cos[pre.running->Some_0].inherited_user_data,
        post_cos[pre.running->Some_0] == cos[pre.running->Some_0],
{
}

/// The notification that a channel, a mailbox or a timer sends wakes the coroutine that is blocked
/// on it to read: it is handed to the scheduler as ready.
pub proof fn law_notification_wakes_the_coroutine<S: SchedulerThread>(
    pre: HandlerView<S>,
    cos: Map<u64, CoroutineView>,
    key: u64,
    i: int,
    requests: Seq<Request>,
    post: HandlerView<S>,
    post_cos: Map<u64, CoroutineView>,
)
    requires
        pre.inv(cos),
        crate::table::coroutines_wf(cos),
        pre.shared.attached(cos, key),
        cos[key].state is Blocked,
        0 <= i < cos[key].blocked_on.len(),
        cos[key].blocked_on[i].common().blocked_on.read,
        super::notify_step(
            pre,
            cos,
            Message::ChannelMsg(cos[key].blocked_on[i].common().token(cos[key].id)),
            requests,
            post,
            post_cos,
        ),
    ensures
        super::handed_over(pre, key, cos[key].user_data, post),
        post_cos[key].state is Ready,
        Some(post_cos[key].last_event.id) == cos[key].blocked_on[i].common().id,
        post_cos[key].last_event.rw.read,
        requests == cos[key].deregistrations(),
{
    let co = cos[key];
    let token = co.blocked_on[i].common().token(co.id);
    crate::coroutine::law_sources_have_their_own_tokens(co, i);
    crate::event::law_token_round_trip(co.id, co.blocked_on[i].common().id->Some_0);
    assert(pre.has_coroutine(token));
    assert(pre.coroutine(token) == key);
}

/// Nothing stays registered: what a coroutine that blocks has registered is deregistered, under the
/// same tokens, when it is woken up.
pub proof fn law_registrations_are_ended(co: CoroutineView, i: int)
    requires
        0 <= i < co.blocked_on.len(),
    ensures
        co.registrations().len() == co.deregistrations().len(),
        co.registrations()[i] matches Request::Register { io, token, .. }
            && co.deregistrations()[i] == (Request::Deregister { io, token }),
{
}

/// The coroutines that have not ended.
pub open spec fn live(cos: Map<u64, CoroutineView>) -> Set<u64> {
    cos.dom().filter(|key: u64| !(cos[key].state is Finished && cos[key].handler is None))
}

/// The instance counts its coroutines correctly.
pub open spec fn counted(threads: HandlerThreadShared, cos: Map<u64, CoroutineView>) -> bool {
    cos.dom().finite() && threads.coroutines_num == live(cos).len()
}

/// A coroutine that is spawned is counted.
pub proof fn law_spawned_coroutines_are_counted<S: SchedulerThread>(
    pre: HandlerView<S>,
    cos: Map<u64, CoroutineView>,
    threads: HandlerThreadShared,
    key: u64,
    post: HandlerView<S>,
    post_cos: Map<u64, CoroutineView>,
    post_threads: HandlerThreadShared,
)
    requires
        counted(threads, cos),
        !cos.contains_key(key),
        super::spawn_child_step(pre, cos, key, post, post_cos),
        post_threads.coroutines_num == threads.coroutines_num + 1,
    ensures
        counted(post_threads, post_cos),
{
    assert(live(post_cos) =~= live(cos).insert(key));
    assert(!live(cos).contains(key));
}

/// A coroutine that has ended is not counted any more; one that yields or blocks still is. So the
/// threads are told to terminate when there is no coroutine left, and not before.
pub proof fn law_ended_coroutines_are_not_counted<S: SchedulerThread>(
    pre: HandlerView<S>,
    cos: Map<u64, CoroutineView>,
    threads: HandlerThreadShared,
    requests: Seq<Request>,
    post: HandlerView<S>,
    post_cos: Map<u64, CoroutineView>,
    post_threads: HandlerThreadShared,
)
    requires
        pre.inv(cos),
        pre.running is Some,
        super::switched_back(cos[pre.running->Some_0]),
        counted(threads, cos),
        super::after_resume_step(pre, cos, threads, requests, post, post_cos, post_threads),
    ensures
        counted(post_threads, post_cos),
        cos[pre.running->Some_0].state is Finished ==> threads.coroutines_num > 0,
{
    let key = pre.running->Some_0;
    assert(live(cos).contains(key));
    if cos[key].state is Finished {
        assert(live(post_cos) =~= live(cos).remove(key));
    } else {
        assert(live(post_cos) =~= live(cos));
    }
}

/// Nothing else that happens on a thread changes how many coroutines there are.
pub proof fn law_steps_keep_the_count<S: SchedulerThread>(
    pre: HandlerView<S>,
    cos: Map<u64, CoroutineView>,
    threads: HandlerThreadShared,
    action: Action,
    post: HandlerView<S>,
    post_cos: Map<u64, CoroutineView>,
)
    requires
        pre.inv(cos),
        counted(threads, cos),
        super::next_step(pre, cos, action, post, post_cos),
    ensures
        counted(threads, post_cos),
{
    if let Phase::Shutdown { next, .. } = pre.phase {
        if pre.shared.items.contains_key(next) {
            assert(pre.shared.attached(cos, pre.shared.items[next]));
        }
    }
    assert(live(post_cos) =~= live(cos));
    assert(post_cos.dom() =~= cos.dom());
}

/// Events and messages do not change how many coroutines there are.
pub proof fn law_messages_keep_the_count<S: SchedulerThread>(
    pre: HandlerView<S>,
    cos: Map<u64, CoroutineView>,
    threads: HandlerThreadShared,
    msg: Message,
    requests: Seq<Request>,
    post: HandlerView<S>,
    post_cos: Map<u64, CoroutineView>,
)
    requires
        pre.inv(cos),
        counted(threads, cos),
        msg matches Message::Migration(ctrl) ==> cos.contains_key(ctrl.key())
            && cos[ctrl.key()].state is Ready,
        super::notify_step(pre, cos, msg, requests, post, post_cos),
    ensures
        counted(threads, post_cos),
{
    if let Message::ChannelMsg(token) = msg {
        law_events_keep_the_count(
            pre,
            cos,
            threads,
            token,
            crate::event::readable_set(),
            requests,
            post,
            post_cos,
        );
    }
    assert(live(post_cos) =~= live(cos));
    assert(post_cos.dom() =~= cos.dom());
}

/// Events do not change how many coroutines there are.
pub proof fn law_events_keep_the_count<S: SchedulerThread>(
    pre: HandlerView<S>,
    cos: Map<u64, CoroutineView>,
    threads: HandlerThreadShared,
    token: Token,
    events: crate::event::EventSet,
    requests: Seq<Request>,
    post: HandlerView<S>,
    post_cos: Map<u64, CoroutineView>,
)
    requires
        pre.inv(cos),
        counted(threads, cos),
        super::ready_event_step(pre, cos, token, events, requests, post, post_cos),
    ensures
        counted(threads, post_cos),
        live(post_cos) == live(cos),
        post_cos.dom() == cos.dom(),
{
    if pre.has_coroutine(token) {
        assert(pre.shared.attached(cos, pre.coroutine(token)));
    }
    assert(live(post_cos) =~= live(cos));
    assert(post_cos.dom() =~= cos.dom());
}

/// No coroutine of the thread has a number below `n`.
pub open spec fn none_below<S: SchedulerThread>(handler: HandlerView<S>, n: usize) -> bool {
    forall|id: usize| #[trigger] handler.shared.items.contains_key(id) ==> n <= id
}

/// A shutdown starts with the first slot.
pub proof fn law_shutdown_starts<S: SchedulerThread>(pre: HandlerView<S>)
    requires
        pre.shared.wf(),
    ensures
        none_below(super::shutting_down(pre), STARTING_ID),
        super::shutting_down(pre).phase == (Phase::Shutdown {
            next: STARTING_ID,
            end: (STARTING_ID + pre.shared.slots) as usize,
        }),
{
}

/// Each step of a shutdown kills the coroutine in the next slot, if there is one: once it has
/// ended, that slot and all before it are empty.
pub proof fn law_shutdown_kills_the_next<S: SchedulerThread>(
    pre: HandlerView<S>,
    cos: Map<u64, CoroutineView>,
    action: Action,
    mid: HandlerView<S>,
    mid_cos: Map<u64, CoroutineView>,
    status: ExitStatus,
    threads: HandlerThreadShared,
    requests: Seq<Request>,
    post: HandlerView<S>,
    post_cos: Map<u64, CoroutineView>,
    post_threads: HandlerThreadShared,
)
    requires
        pre.inv(cos),
        pre.todo.len() == 0,
        pre.phase matches Phase::Shutdown { next, end } && next < end && none_below(pre, next),
        super::next_step(pre, cos, action, mid, mid_cos),
        match action {
            Action::Kill(key) => super::after_resume_step(
                mid,
                mid_cos.insert(key, mid_cos[key].finished(status)),
                threads,
                requests,
                post,
                post_cos,
                post_threads,
            ),
            _ => post == mid,
        },
    ensures
        pre.phase matches Phase::Shutdown { next, end } && {
            &&& post.phase == (Phase::Shutdown { next: (next + 1) as usize, end })
            &&& none_below(post, (next + 1) as usize)
            &&& post.is_shutting_down
            &&& pre.shared.items.contains_key(next) ==> action == Action::Kill(
                pre.shared.items[next],
            )
        },
{
    let next = pre.phase->Shutdown_next;
    if pre.shared.items.contains_key(next) {
        let key = pre.shared.items[next];
        assert(pre.shared.attached(cos, key) && cos[key].id == next);
        assert(post.shared.items == pre.shared.items.remove(next));
    }
}

/// A shutdown that went through all slots has left no coroutine on the thread.
pub proof fn law_shutdown_leaves_no_coroutine<S: SchedulerThread>(handler: HandlerView<S>)
    requires
        handler.shared.wf(),
        handler.phase matches Phase::Shutdown { next, end } && next >= end && none_below(
            handler,
            next,
        ) && end == STARTING_ID + handler.shared.slots,
    ensures
        handler.shared.items == Map::<usize, u64>::empty(),
{
    assert forall|id: usize| !handler.shared.items.contains_key(id) by {}
    assert(handler.shared.items =~= Map::<usize, u64>::empty());
}

/// A coroutine that reaches a thread that is shutting down is killed right away.
pub proof fn law_shutdown_kills_who_comes_late<S: SchedulerThread>(
    pre: HandlerView<S>,
    cos: Map<u64, CoroutineView>,
    msg: Message,
    requests: Seq<Request>,
    mid: HandlerView<S>,
    mid_cos: Map<u64, CoroutineView>,
    action: Action,
    post: HandlerView<S>,
    post_cos: Map<u64, CoroutineView>,
)
    requires
        pre.is_shutting_down,
        pre.shared.agrees(cos),
        msg is Migration,
        super::notify_step(pre, cos, msg, requests, mid, mid_cos),
        super::next_step(mid, mid_cos, action, post, post_cos),
    ensures
        msg matches Message::Migration(ctrl) && action == Action::Kill(ctrl.key()),
{
}

/// The coroutine that is being executed may change anything about itself but the thread that it
/// belongs to, as long as it does not make itself ready: the handler of its thread is well-formed
/// all the same.
pub proof fn law_executed_coroutine_may_change<S: SchedulerThread>(
    handler: &Handler<S>,
    table: &CoroutineTable,
    changed: &CoroutineTable,
    co: CoroutineView,
)
    requires
        handler.wf(table),
        handler@.running is Some,
        changed.wf(),
        changed@ == table@.insert(handler@.running->Some_0, co),
        co.id == table@[handler@.running->Some_0].id,
        co.handler == table@[handler@.running->Some_0].handler,
        !(co.state is Ready),
    ensures
        handler.wf(changed),
{
    let key = handler@.running->Some_0;
    handler.lemma_inv(table);
    super::lemma_one_changed(handler@, table@, key, handler@, changed@);
    handler.lemma_wf_of_inv(table, changed);
}

/// Threads do not disturb each other: a handler is well-formed as long as nothing changes about
/// the coroutines of its own thread.
pub proof fn law_threads_do_not_disturb_each_other<S: SchedulerThread>(
    handler: &Handler<S>,
    table: &CoroutineTable,
    changed: &CoroutineTable,
)
    requires
        handler.wf(table),
        changed.wf(),
        forall|id: usize| #[trigger]
            handler@.shared.items.contains_key(id) ==> {
                &&& changed@.contains_key(handler@.shared.items[id])
                &&& changed@[handler@.shared.items[id]] == table@[handler@.shared.items[id]]
            },
    ensures
        handler.wf(changed),
{
    let h = handler@;
    handler.lemma_inv(table);
    assert forall|key: u64| #[trigger] h.shared.attached(changed@, key) == h.shared.attached(
        table@,
        key,
    ) && (h.shared.attached(table@, key) ==> changed@[key] == table@[key]) by {
        if h.shared.attached(table@, key) {
            assert(h.shared.items.contains_key(table@[key].id));
        }
        if h.shared.attached(changed@, key) {
            let id = changed@[key].id;
            assert(h.shared.items.contains_key(id));
            assert(h.shared.attached(table@, h.shared.items[id]));
        }
    }
    assert(h.shared.agrees(changed@)) by {
        assert forall|id: usize| #[trigger] h.shared.items.contains_key(id) implies {
            &&& h.shared.attached(changed@, h.shared.items[id])
            &&& changed@[h.shared.items[id]].id == id
        } by {
            assert(h.shared.attached(table@, h.shared.items[id]));
        }
    }
    if !h.is_shutting_down {
        assert forall|key: u64| #[trigger] h.pending(key) == if h.resumable(changed@, key) {
            1nat
        } else {
            0nat
        } by {
            assert(h.shared.attached(changed@, key) == h.shared.attached(table@, key));
        }
    }
    assert(h.inv(changed@));
    handler.lemma_wf_of_inv(table, changed);
}

/// A step of a thread takes nothing from any coroutine: it only executes the one that it resumes or
/// kills, and lets go of the one that it sends to another thread. There are the same coroutines as
/// before.
pub proof fn law_next_keeps_the_coroutines<S: SchedulerThread>(
    handler: &mut Handler<S>,
    table: &mut CoroutineTable,
    action: Action,
    key: u64,
)
    requires
        old(handler).wf(old(table)),
        call_ensures(Handler::<S>::next, (handler, table), action),
    ensures
        final(table)@.contains_key(key) <==> old(table)@.contains_key(key),
        old(table)@.contains_key(key) ==> {
            let before = old(table)@[key];
            let after = final(table)@[key];
            let executed = action == Action::Resume(key) || action == Action::Kill(key);
            let sent = action matches Action::Request(
                Request::Send { message: Message::Migration(ctrl), .. },
            ) && ctrl.key() == key;
            &&& same_belongings(before, after)
            &&& after.blocked_on == before.blocked_on
            &&& after.released == before.released
            &&& after.last_event == before.last_event
            &&& after.id == before.id
            &&& after.state == if executed {
                State::Running
            } else {
                before.state
            }
            &&& after.handler == if sent {
                None
            } else {
                before.handler
            }
        },
{
    old(handler).lemma_inv(old(table));
    let pre = old(handler)@;
    if let Phase::Shutdown { next, .. } = pre.phase {
        if pre.shared.items.contains_key(next) {
            assert(pre.shared.attached(old(table)@, pre.shared.items[next]));
        }
    }
}

/// What a scheduler has asked for is done in the order in which it was asked for, one command at a
/// time and before anything else: a coroutine of the thread that is ready is resumed or sent to the
/// thread that was named, and a killed one is made to unwind.
pub proof fn law_commands_are_carried_out_in_order<S: SchedulerThread>(
    handler: &mut Handler<S>,
    table: &mut CoroutineTable,
    action: Action,
)
    requires
        old(handler).wf(old(table)),
        old(handler)@.todo.len() > 0,
        call_ensures(Handler::<S>::next, (handler, table), action),
    ensures
        final(handler)@.todo == old(handler)@.todo.skip(1),
        final(handler)@.phase == old(handler)@.phase,
        final(handler)@.scheduler == old(handler)@.scheduler,
        same_course(old(handler)@, final(handler)@),
        crate::thread::same_thread(old(handler)@.shared, final(handler)@.shared),
        final(handler)@.shared.spawned == old(handler)@.shared.spawned,
        final(handler)@.shared.ready == old(handler)@.shared.ready,
        final(handler)@.shared.children_to_start == old(handler)@.shared.children_to_start,
        !(old(handler)@.todo[0] is Migrate) ==> final(handler)@.shared == old(handler)@.shared,
        ({
            let key = old(handler)@.todo[0].key();
            let here = old(handler)@.shared.attached(old(table)@, key);
            let ready = here && old(table)@[key].state is Ready;
            let threads = old(handler)@.shared.senders;
            match old(handler)@.todo[0] {
                Command::Resume(_) => {
                    &&& ready ==> action == Action::Resume(key) && final(handler)@.running
                        == Some(key)
                    &&& !ready ==> action is Panic
                },
                Command::Kill(_) => {
                    &&& here ==> action == Action::Kill(key) && final(handler)@.running
                        == Some(key)
                    &&& !here ==> action is Continue
                },
                Command::Migrate(_, to) => {
                    &&& ready && to < threads.len() ==> {
                        &&& action matches Action::Request(
                            Request::Send { to: sent_to, message: Message::Migration(ctrl) },
                        )
                        &&& sent_to == threads[to as int]
                        &&& ctrl.key() == key
                        &&& ctrl.data() == old(table)@[key].user_data
                        &&& !ctrl.yielding()
                        &&& final(handler)@.shared.items == old(handler)@.shared.items.remove(
                            old(table)@[key].id,
                        )
                    }
                    &&& !(ready && to < threads.len()) ==> action is Panic
                },
            }
        }),
{
    old(handler).lemma_inv(old(table));
}

/// Both are at the same tick, if any, and in or out of the same shutdown.
pub open spec fn same_course<S>(pre: HandlerView<S>, post: HandlerView<S>) -> bool {
    &&& post.ticking == pre.ticking
    &&& post.is_shutting_down == pre.is_shutting_down
}

/// Coroutines are delivered to the scheduler in the order in which they were queued, each once: the
/// oldest of those that were spawned, then the oldest of those that were made ready, in turns. While
/// there is one queued, the thread does not wait for events.
pub proof fn law_delivery_is_in_order<S: SchedulerThread>(
    handler: &mut Handler<S>,
    table: &mut CoroutineTable,
    action: Action,
)
    requires
        old(handler).wf(old(table)),
        old(handler)@.todo.len() == 0,
        call_ensures(Handler::<S>::next, (handler, table), action),
    ensures
        old(handler)@.phase is Spawned ==> {
            let queued = old(handler)@.shared.spawned;
            &&& action is Continue
            &&& final(handler)@.shared.ready == old(handler)@.shared.ready
            &&& queued.len() > 0 ==> {
                &&& S::spawned_step(
                    old(handler)@.scheduler,
                    queued[0],
                    final(handler)@.scheduler,
                    final(handler)@.todo,
                )
                &&& final(handler)@.shared.spawned == queued.skip(1)
                &&& final(handler)@.phase == (Phase::Ready { no_spawned: false })
            }
            &&& queued.len() == 0 ==> final(handler)@ == (HandlerView {
                phase: Phase::Ready { no_spawned: true },
                ..old(handler)@
            })
        },
        old(handler)@.phase is Ready ==> {
            let queued = old(handler)@.shared.ready;
            &&& action is Continue
            &&& final(handler)@.shared.spawned == old(handler)@.shared.spawned
            &&& queued.len() > 0 ==> {
                &&& S::ready_step(
                    old(handler)@.scheduler,
                    queued[0],
                    final(handler)@.scheduler,
                    final(handler)@.todo,
                )
                &&& final(handler)@.shared.ready == queued.skip(1)
                &&& final(handler)@.phase is Spawned
            }
            &&& queued.len() == 0 && !old(handler)@.phase->Ready_no_spawned
                ==> final(handler)@.phase is Spawned
            &&& queued.len() == 0 && old(handler)@.phase->Ready_no_spawned
                ==> final(handler)@.phase == if old(handler)@.ticking {
                Phase::Timeout
            } else {
                Phase::Idle
            }
        },
        old(handler)@.phase is Spawned || old(handler)@.phase is Ready ==> {
            &&& same_course(old(handler)@, final(handler)@)
            &&& crate::thread::same_thread(old(handler)@.shared, final(handler)@.shared)
            &&& final(handler)@.shared.items == old(handler)@.shared.items
            &&& final(handler)@.shared.children_to_start == old(
                handler,
            )@.shared.children_to_start
            &&& final(handler)@.running == old(handler)@.running
        },
        action is Poll <==> old(handler)@.phase is Idle,
        action is Poll ==> final(handler)@ == old(handler)@,
{
}

/// At the end of a tick the scheduler is asked how long to wait at most, and the event loop is told
/// to time out after that time, under the token of no coroutine.
pub proof fn law_scheduler_decides_how_long_to_wait<S: SchedulerThread>(
    handler: &mut Handler<S>,
    table: &mut CoroutineTable,
    action: Action,
)
    requires
        old(handler).wf(old(table)),
        old(handler)@.todo.len() == 0,
        old(handler)@.phase is Timeout,
        call_ensures(Handler::<S>::next, (handler, table), action),
    ensures
        exists|timeout: Option<u64>| #[trigger]
            S::timeout_step(old(handler)@.scheduler, final(handler)@.scheduler, timeout)
                && match timeout {
                Some(ms) => action == Action::Request(
                    Request::Timeout { token: Token(0), delay_ms: ms },
                ),
                None => action is Continue,
            },
        final(handler)@.phase is Idle,
        !final(handler)@.ticking,
        final(handler)@.todo.len() == 0,
        final(handler)@.running == old(handler)@.running,
        final(handler)@.is_shutting_down == old(handler)@.is_shutting_down,
        final(handler)@.shared == old(handler)@.shared,
{
    crate::event::law_token_round_trip(0, crate::event::EventSourceId(0));
    crate::event::law_ids_round_trip(Token(0));
}

/// At a tick the scheduler acts, and then everything that is queued is delivered to it, unless the
/// thread is shutting down: then a tick does nothing.
pub proof fn law_tick_lets_the_scheduler_act<S: SchedulerThread>(handler: &mut Handler<S>)
    requires
        call_ensures(Handler::<S>::tick, (handler,), ()),
    ensures
        old(handler)@.is_shutting_down ==> final(handler)@ == old(handler)@,
        !old(handler)@.is_shutting_down ==> {
            &&& S::tick_step(
                old(handler)@.scheduler,
                final(handler)@.scheduler,
                final(handler)@.todo,
            )
            &&& final(handler)@.phase is Spawned
            &&& final(handler)@.ticking
        },
        final(handler)@.shared == old(handler)@.shared,
        final(handler)@.running == old(handler)@.running,
        final(handler)@.is_shutting_down == old(handler)@.is_shutting_down,
{
}

/// A coroutine that switches back keeps everything that it has: one that has yielded is ready again,
/// one that has blocked stays blocked on the same sources, and one that has ended leaves its thread.
/// No other coroutine changes.
pub proof fn law_switching_back_keeps_the_coroutines<S: SchedulerThread>(
    handler: &mut Handler<S>,
    table: &mut CoroutineTable,
    threads: &mut HandlerThreadShared,
    requests: Vec<Request>,
    key: u64,
)
    requires
        old(handler).wf(old(table)),
        old(handler)@.running is Some,
        super::switched_back(old(table)@[old(handler)@.running->Some_0]),
        call_ensures(Handler::<S>::after_resume, (handler, table, threads), requests),
    ensures
        final(table)@.contains_key(key) <==> old(table)@.contains_key(key),
        old(table)@.contains_key(key) ==> {
            let before = old(table)@[key];
            let after = final(table)@[key];
            let back = old(handler)@.running == Some(key);
            &&& same_belongings(before, after)
            &&& after.blocked_on == before.blocked_on
            &&& after.released == before.released
            &&& after.last_event == before.last_event
            &&& after.id == before.id
            &&& after.state == if back && before.state is Yielding {
                State::Ready
            } else {
                before.state
            }
            &&& after.handler == if back && before.state is Finished {
                None
            } else {
                before.handler
            }
        },
{
    old(handler).lemma_inv(old(table));
}

/// After a coroutine has switched back, what it has spawned is queued behind what was queued before,
/// in the order in which it was spawned; if it has yielded, it is queued itself, behind those that
/// were ready before; and if it has blocked, what it is blocked on is registered, and nothing else is
/// done outside. Then nothing is being executed.
pub proof fn law_switching_back_queues<S: SchedulerThread>(
    handler: &mut Handler<S>,
    table: &mut CoroutineTable,
    threads: &mut HandlerThreadShared,
    requests: Vec<Request>,
    registrations: Vec<Request>,
    co: Coroutine,
)
    requires
        old(handler).wf(old(table)),
        old(handler)@.running is Some,
        co@ == old(table)@[old(handler)@.running->Some_0],
        super::switched_back(co@),
        call_ensures(Handler::<S>::after_resume, (handler, table, threads), requests),
        call_ensures(Coroutine::register_all, (&co,), registrations),
    ensures
        final(handler)@.running is None,
        final(handler)@.shared.children_to_start.len() == 0,
        final(handler)@.shared.spawned == old(handler)@.shared.spawned + old(
            handler,
        )@.shared.children_to_start,
        final(handler)@.todo == old(handler)@.todo,
        final(handler)@.phase == old(handler)@.phase,
        final(handler)@.scheduler == old(handler)@.scheduler,
        same_course(old(handler)@, final(handler)@),
        crate::thread::same_thread(old(handler)@.shared, final(handler)@.shared),
        co@.state is Yielding ==> {
            let ready = final(handler)@.shared.ready;
            &&& ready.len() == old(handler)@.shared.ready.len() + 1
            &&& forall|i: int|
                0 <= i < old(handler)@.shared.ready.len() ==> #[trigger] ready[i] == old(
                    handler,
                )@.shared.ready[i]
            &&& Some(ready.last().key()) == old(handler)@.running
            &&& ready.last().yielding()
            &&& ready.last().data() == co@.user_data
            &&& requests@.len() == 0
        },
        !(co@.state is Yielding) ==> final(handler)@.shared.ready == old(handler)@.shared.ready,
        co@.state is Blocked ==> requests@ == registrations@,
        !(co@.state is Finished) ==> {
            &&& *final(threads) == *old(threads)
            &&& final(handler)@.shared.items == old(handler)@.shared.items
        },
{
}

/// When a coroutine has ended there is one less, its slot is free, and nothing is sent but the
/// message of its panic, if panics are not caught, and the messages that terminate the threads, one
/// to each, if it was the last one.
pub proof fn law_exit_leaves_the_thread<S: SchedulerThread>(
    handler: &mut Handler<S>,
    table: &mut CoroutineTable,
    threads: &mut HandlerThreadShared,
    requests: Vec<Request>,
)
    requires
        old(handler).wf(old(table)),
        old(handler)@.running is Some,
        old(table)@[old(handler)@.running->Some_0].state is Finished,
        old(threads).coroutines_num > 0,
        call_ensures(Handler::<S>::after_resume, (handler, table, threads), requests),
    ensures
        final(threads).coroutines_num == old(threads).coroutines_num - 1,
        final(threads).thread_num == old(threads).thread_num,
        final(threads).mioco_started == old(threads).mioco_started,
        final(handler)@.shared.items == old(handler)@.shared.items.remove(
            old(table)@[old(handler)@.running->Some_0].id,
        ),
        ({
            let key = old(handler)@.running->Some_0;
            let shared = old(handler)@.shared;
            let panicked = old(table)@[key].state == State::Finished(ExitStatus::Panic)
                && !shared.coroutine_config.catch_panics;
            let first = if panicked {
                1int
            } else {
                0int
            };
            let last = old(threads).coroutines_num == 1;
            &&& requests@.len() == first + if last {
                shared.senders.len() as int
            } else {
                0int
            }
            &&& panicked ==> requests@[0] == (Request::Send {
                to: shared.senders[shared.thread_id as int],
                message: Message::PropagatePanic(key),
            })
            &&& last ==> forall|i: int|
                0 <= i < shared.senders.len() ==> #[trigger] requests@[first + i] == (Request::Send {
                    to: shared.senders[i],
                    message: Message::Terminate,
                })
        }),
{
    let pre = old(handler)@;
    let key = pre.running->Some_0;
    let first = super::propagated(pre, key, old(table)@[key]);
    if old(threads).coroutines_num == 1 {
        assert forall|i: int| 0 <= i < pre.shared.senders.len() implies #[trigger] requests@[first.len()
            + i] == (Request::Send { to: pre.shared.senders[i], message: Message::Terminate }) by {
            assert(requests@[first.len() + i] == pre.shared.broadcast(Message::Terminate)[i]);
        }
    } else {
        assert(requests@ =~= first);
    }
}

/// An event reaches the coroutine in the slot that its token names, and that one only: it is as if
/// the event had been given to the coroutine itself. If that makes it ready, it is handed to the
/// scheduler at once, with its user data, and then everything that is queued is delivered.
pub proof fn law_events_reach_their_coroutine<S: SchedulerThread>(
    handler: &mut Handler<S>,
    table: &mut CoroutineTable,
    token: Token,
    events: crate::event::EventSet,
    requests: Vec<Request>,
    id: usize,
    co: &mut Coroutine,
    outcome: (bool, Vec<Request>),
    other: u64,
)
    requires
        old(handler).wf(old(table)),
        id == token.0 as int / 1024,
        old(handler)@.shared.items.contains_key(id),
        old(co)@ == old(table)@[old(handler)@.shared.items[id]],
        call_ensures(Coroutine::event, (co, token, events), outcome),
        call_ensures(Handler::<S>::ready, (handler, table, token, events), requests),
    ensures
        ({
            let key = old(handler)@.shared.items[id];
            &&& final(table)@[key] == final(co)@
            &&& final(table)@.contains_key(other) <==> old(table)@.contains_key(other)
            &&& old(table)@.contains_key(other) && other != key ==> final(table)@[other] == old(
                table,
            )@[other]
            &&& requests@ == outcome.1@
            &&& final(handler)@.phase is Spawned
            &&& final(handler)@.shared == old(handler)@.shared
            &&& final(handler)@.running == old(handler)@.running
            &&& same_course(old(handler)@, final(handler)@)
            &&& if outcome.0 {
                exists|ctrl: crate::control::CoroutineControl| #[trigger]
                    S::ready_step(
                        old(handler)@.scheduler,
                        ctrl,
                        final(handler)@.scheduler,
                        final(handler)@.todo,
                    ) && ctrl.key() == key && ctrl.data() == old(co)@.user_data && !ctrl.yielding()
            } else {
                &&& final(handler)@.scheduler == old(handler)@.scheduler
                &&& final(handler)@.todo == old(handler)@.todo
            }
        }),
{
    old(handler).lemma_inv(old(table));
}

/// Events for coroutines that the thread does not have change nothing.
pub proof fn law_events_for_nobody_are_ignored<S: SchedulerThread>(
    handler: &mut Handler<S>,
    table: &mut CoroutineTable,
    token: Token,
    events: crate::event::EventSet,
    requests: Vec<Request>,
)
    requires
        old(handler).wf(old(table)),
        !old(handler)@.shared.items.contains_key((token.0 as int / 1024) as usize),
        call_ensures(Handler::<S>::ready, (handler, table, token, events), requests),
    ensures
        final(handler)@ == old(handler)@,
        final(table)@ == old(table)@,
        requests@.len() == 0,
{
}

/// A timeout, like the notification of a channel, tells the coroutine of its token that there is
/// something to read; the timeout of the scheduler tells nobody anything.
pub proof fn law_timeouts_and_notifications_are_readable_events<S: SchedulerThread>(
    by_event: &mut Handler<S>,
    by_event_table: &mut CoroutineTable,
    token: Token,
    requests: Vec<Request>,
    by_timeout: &mut Handler<S>,
    by_timeout_table: &mut CoroutineTable,
    timeout_requests: Vec<Request>,
    by_message: &mut Handler<S>,
    by_message_table: &mut CoroutineTable,
    threads: HandlerThreadShared,
    message_requests: Vec<Request>,
)
    requires
        old(by_timeout)@ == old(by_event)@,
        old(by_timeout_table)@ == old(by_event_table)@,
        old(by_message)@ == old(by_event)@,
        old(by_message_table)@ == old(by_event_table)@,
        old(by_event)@.shared.wf(),
        call_ensures(
            Handler::<S>::ready,
            (
                by_event,
                by_event_table,
                token,
                crate::event::EventSet { readable: true, writable: false, hup: false },
            ),
            requests,
        ),
        call_ensures(
            Handler::<S>::timeout,
            (by_timeout, by_timeout_table, token),
            timeout_requests,
        ),
        call_ensures(
            Handler::<S>::notify,
            (by_message, by_message_table, &threads, Message::ChannelMsg(token)),
            message_requests,
        ),
    ensures
        message_requests@ == requests@,
        final(by_message_table)@ == final(by_event_table)@,
        final(by_message)@.shared == final(by_event)@.shared,
        final(by_message)@.phase == final(by_event)@.phase,
        token != Token(0) ==> {
            &&& timeout_requests@ == requests@
            &&& final(by_timeout_table)@ == final(by_event_table)@
            &&& final(by_timeout)@.shared == final(by_event)@.shared
            &&& final(by_timeout)@.phase == final(by_event)@.phase
        },
        token == Token(0) ==> {
            &&& timeout_requests@.len() == 0
            &&& final(by_timeout)@ == old(by_timeout)@
            &&& final(by_timeout_table)@ == old(by_timeout_table)@
        },
{
    crate::event::law_token_round_trip(0, crate::event::EventSourceId(0));
    crate::event::law_ids_round_trip(Token(0));
}

/// What messages do: a coroutine that arrives belongs to the thread from then on and keeps all that
/// it has; it is handed to the scheduler, or killed if the thread is shutting down. A shutdown makes
/// the thread go through all its slots. A panic goes on, and a thread that is told to terminate
/// stops. Beyond that, a message changes nothing.
pub proof fn law_messages_do_what_they_say<S: SchedulerThread>(
    handler: &mut Handler<S>,
    table: &mut CoroutineTable,
    threads: HandlerThreadShared,
    msg: Message,
    requests: Vec<Request>,
    other: u64,
)
    requires
        old(handler).wf(old(table)),
        old(handler)@.idle(),
        msg matches Message::Migration(ctrl) ==> old(table)@.contains_key(ctrl.key()),
        call_ensures(Handler::<S>::notify, (handler, table, &threads, msg), requests),
    ensures
        match msg {
            Message::ChannelMsg(_) => true,
            Message::Migration(ctrl) => {
                let before = old(table)@[ctrl.key()];
                let after = final(table)@[ctrl.key()];
                &&& requests@.len() == 0
                &&& same_belongings(before, after)
                &&& after.state == before.state
                &&& after.blocked_on == before.blocked_on
                &&& after.released == before.released
                &&& after.last_event == before.last_event
                &&& after.handler == Some(old(handler)@.shared.thread_id)
                &&& !old(handler)@.shared.items.contains_key(after.id)
                &&& final(handler)@.shared.items == old(handler)@.shared.items.insert(
                    after.id,
                    ctrl.key(),
                )
                &&& final(table)@.contains_key(other) <==> old(table)@.contains_key(other)
                &&& old(table)@.contains_key(other) && other != ctrl.key()
                    ==> final(table)@[other] == old(table)@[other]
                &&& same_course(old(handler)@, final(handler)@)
                &&& crate::thread::same_thread(old(handler)@.shared, final(handler)@.shared)
                &&& final(handler)@.shared.spawned == old(handler)@.shared.spawned
                &&& final(handler)@.shared.ready == old(handler)@.shared.ready
                &&& final(handler)@.running is None
                &&& if old(handler)@.is_shutting_down {
                    &&& final(handler)@.todo == seq![Command::Kill(ctrl)]
                    &&& final(handler)@.scheduler == old(handler)@.scheduler
                    &&& final(handler)@.phase == old(handler)@.phase
                } else {
                    &&& S::ready_step(
                        old(handler)@.scheduler,
                        ctrl,
                        final(handler)@.scheduler,
                        final(handler)@.todo,
                    )
                    &&& final(handler)@.phase is Spawned
                }
            },
            Message::PropagatePanic(cause) => {
                &&& requests@ == seq![Request::Unwind(cause)]
                &&& final(handler)@ == old(handler)@
                &&& final(table)@ == old(table)@
            },
            Message::Shutdown => {
                &&& requests@.len() == 0
                &&& final(handler)@.is_shutting_down
                &&& final(handler)@.phase == (Phase::Shutdown {
                    next: 1,
                    end: (1 + old(handler)@.shared.slots) as usize,
                })
                &&& final(handler)@.shared == old(handler)@.shared
                &&& final(handler)@.scheduler == old(handler)@.scheduler
                &&& final(handler)@.todo == old(handler)@.todo
                &&& final(handler)@.running == old(handler)@.running
                &&& final(table)@ == old(table)@
            },
            Message::Terminate => {
                &&& requests@ == seq![Request::Stop]
                &&& final(handler)@ == old(handler)@
                &&& final(table)@ == old(table)@
            },
        },
{
}

/// A spawned coroutine has not started: it is ready, belongs to the thread that it was spawned on in
/// a slot of its own, has the user data that its parent has set for its children, and nobody waits
/// for it. It is queued to start when its parent switches back, behind what its parent has spawned
/// before. No other coroutine changes.
pub proof fn law_spawned_coroutines_are_fresh<S: SchedulerThread>(
    handler: &mut Handler<S>,
    table: &mut CoroutineTable,
    threads: &mut HandlerThreadShared,
    child: u64,
    other: u64,
)
    requires
        old(handler).wf(old(table)),
        old(handler)@.running is Some,
        call_ensures(Handler::<S>::spawn_child, (handler, table, threads), child),
    ensures
        !old(table)@.contains_key(child),
        ({
            let parent = old(table)@[old(handler)@.running->Some_0];
            let co = final(table)@[child];
            let queue = final(handler)@.shared.children_to_start;
            let before = old(handler)@.shared.children_to_start;
            &&& final(table)@.contains_key(child)
            &&& co.state is Ready
            &&& co.handler == Some(old(handler)@.shared.thread_id)
            &&& !old(handler)@.shared.items.contains_key(co.id)
            &&& final(handler)@.shared.items == old(handler)@.shared.items.insert(co.id, child)
            &&& co.user_data == parent.inherited_user_data
            &&& co.inherited_user_data == parent.inherited_user_data
            &&& co.exit_notificators.len() == 0
            &&& co.sync_channel is None
            &&& co.blocked_on.len() == 0
            &&& co.released.len() == 0
            &&& queue.len() == before.len() + 1
            &&& forall|i: int| 0 <= i < before.len() ==> #[trigger] queue[i] == before[i]
            &&& queue.last().key() == child
            &&& queue.last().data() == parent.inherited_user_data
            &&& !queue.last().yielding()
            &&& final(handler)@.shared.spawned == old(handler)@.shared.spawned
            &&& final(handler)@.shared.ready == old(handler)@.shared.ready
            &&& crate::thread::same_thread(old(handler)@.shared, final(handler)@.shared)
            &&& final(handler)@.running == old(handler)@.running
            &&& final(handler)@.scheduler == old(handler)@.scheduler
            &&& final(handler)@.todo == old(handler)@.todo
            &&& final(handler)@.phase == old(handler)@.phase
            &&& same_course(old(handler)@, final(handler)@)
        }),
        final(table).next_key() > child,
        final(threads).coroutines_num == old(threads).coroutines_num + 1 || old(
            threads,
        ).coroutines_num == usize::MAX,
        final(threads).thread_num == old(threads).thread_num,
        final(threads).mioco_started == old(threads).mioco_started,
        other != child ==> (final(table)@.contains_key(other) <==> old(table)@.contains_key(
            other,
        )) && (old(table)@.contains_key(other) ==> final(table)@[other] == old(table)@[other]),
{
    old(handler).lemma_inv(old(table));
}

/// A thread that is shutting down goes through its slots one by one, and kills the coroutine in each
/// that has one; after the last slot it waits for events again, and keeps shutting down.
pub proof fn law_shutdown_goes_through_all_slots<S: SchedulerThread>(
    handler: &mut Handler<S>,
    table: &mut CoroutineTable,
    action: Action,
    next: usize,
    end: usize,
)
    requires
        old(handler).wf(old(table)),
        old(handler)@.todo.len() == 0,
        old(handler)@.phase == (Phase::Shutdown { next, end }),
        call_ensures(Handler::<S>::next, (handler, table), action),
    ensures
        next < end ==> {
            &&& final(handler)@.phase == (Phase::Shutdown { next: (next + 1) as usize, end })
            &&& old(handler)@.shared.items.contains_key(next) ==> {
                &&& action == Action::Kill(old(handler)@.shared.items[next])
                &&& final(handler)@.running == Some(old(handler)@.shared.items[next])
            }
            &&& !old(handler)@.shared.items.contains_key(next) ==> {
                &&& action is Continue
                &&& final(handler)@.running == old(handler)@.running
            }
        },
        next >= end ==> {
            &&& action is Continue
            &&& final(handler)@.phase is Idle
            &&& final(handler)@.running == old(handler)@.running
        },
        final(handler)@.is_shutting_down,
        final(handler)@.shared == old(handler)@.shared,
        final(handler)@.scheduler == old(handler)@.scheduler,
        final(handler)@.todo.len() == 0,
{
    old(handler).lemma_inv(old(table));
}

/// A new handler waits for events, with nothing to do and nothing being executed, and tells so.
pub proof fn law_new_handlers_are_idle<S: SchedulerThread>(
    shared: crate::thread::HandlerShared,
    scheduler: S,
    made: Handler<S>,
    handler: Handler<S>,
    idle: bool,
    running: Option<u64>,
    data: &crate::thread::HandlerShared,
)
    requires
        call_ensures(Handler::<S>::new, (shared, scheduler), made),
        call_ensures(Handler::<S>::is_idle, (&handler,), idle),
        call_ensures(Handler::<S>::running, (&handler,), running),
        call_ensures(Handler::<S>::shared, (&handler,), data),
    ensures
        made@.shared == shared@,
        made@.scheduler == scheduler,
        made@.phase is Idle,
        made@.todo.len() == 0,
        made@.running is None,
        !made@.ticking,
        !made@.is_shutting_down,
        idle <==> handler@.phase is Idle && handler@.todo.len() == 0 && !handler@.ticking
            && handler@.running is None,
        running == handler@.running,
        data@ == handler@.shared,
{
}

} // verus!
