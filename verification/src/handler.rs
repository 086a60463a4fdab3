//! The handler of one thread: what it does on events, and in which order coroutines run.
//!
//! Running a coroutine and waiting for events happen outside. The handler is told of events with
//! `tick()`, `ready()`, `notify()` and `timeout()`. After each of them `next()` is called until it
//! returns `Action::Poll`; every other action is carried out before the next call. A coroutine that
//! has been switched to and has switched back is reported with `after_resume()`.

use crate::control::{Command, CoroutineControl, EventLoop};
use crate::coroutine::{Coroutine, CoroutineView, ExitStatus, State, UserData};
use crate::event::{
    readable_set, token_from_ids, token_of, token_to_ids, EventSet, EventSourceId, Token,
};
use crate::message::MioSender;
use crate::request::{Message, Request};
use crate::sched::{command_keys, control_keys, SchedulerThread};
use crate::table::CoroutineTable;
use crate::thread::{
    reattached, spawned_coroutine, HandlerShared, HandlerThreadShared, SharedView, SPECIAL_ID, SPECIAL_ID_SCHED_TIMEOUT,
    STARTING_ID,
};
use std::collections::VecDeque;
use vstd::multiset::Multiset;
use vstd::prelude::*;

pub mod laws;

verus! {

broadcast use crate::thread::HandlerShared::lemma_wf;

/// What the handler is going to do once everything its scheduler has asked for is done.
#[derive(Copy, Clone, Debug, Eq, PartialEq, Structural)]
pub enum Phase {
    /// Wait for events.
    Idle,
    /// Deliver a newly spawned coroutine to the scheduler.
    Spawned,
    /// Deliver a coroutine that was made ready to the scheduler.
    Ready {
        /// There was no newly spawned coroutine just before.
        no_spawned: bool,
    },
    /// Ask the scheduler how long to wait at most.
    Timeout,
    /// Kill the coroutines in the slots from `next` to `end`.
    Shutdown {
        /// The next slot.
        next: usize,
        /// The slot behind the last one.
        end: usize,
    },
}

/// Why a thread has to panic.
#[derive(Copy, Clone, Debug, Eq, PartialEq, Structural)]
pub enum PanicCause {
    /// A coroutine that is not ready was to be resumed.
    NotReady,
    /// A coroutine was to be migrated to a thread that does not exist.
    InvalidThread,
    /// A coroutine that does not belong to the thread was to be migrated.
    NotAttached,
}

/// What is to be done outside before the handler goes on.
#[derive(Debug)]
pub enum Action {
    /// Nothing.
    Continue,
    /// Wait for events.
    Poll,
    /// Switch to the coroutine with this key, and report when it has switched back.
    Resume(u64),
    /// Force the coroutine with this key to unwind, and report when it has.
    Kill(u64),
    /// Do what is requested.
    Request(Request),
    /// Panic.
    Panic(PanicCause),
}

/// Mioco event loop `Handler`
///
/// This `struct` is quite internal so you should not have to worry about it.
pub struct Handler<S> {
    shared: HandlerShared,
    scheduler: S,
    /// Is this handler in the process of shutting down
    is_shutting_down: bool,
    /// What the scheduler has asked for.
    todo: VecDeque<Command>,
    phase: Phase,
    /// A tick is being handled.
    ticking: bool,
    /// The coroutine that is being executed.
    running: Option<u64>,
}

/// What a `Handler` is, as its contracts describe it.
#[verifier::ext_equal]
pub struct HandlerView<S> {
    /// Data shared with coroutines.
    pub shared: SharedView,
    /// The scheduler of the thread.
    pub scheduler: S,
    /// Is this handler in the process of shutting down?
    pub is_shutting_down: bool,
    /// What the scheduler has asked for and was not done yet.
    pub todo: Seq<Command>,
    /// What comes after that.
    pub phase: Phase,
    /// A tick is being handled.
    pub ticking: bool,
    /// The coroutine that is being executed.
    pub running: Option<u64>,
}

impl<S: SchedulerThread> View for Handler<S> {
    type V = HandlerView<S>;

    closed spec fn view(&self) -> HandlerView<S> {
        HandlerView {
            shared: self.shared@,
            scheduler: self.scheduler,
            is_shutting_down: self.is_shutting_down,
            todo: self.todo@,
            phase: self.phase,
            ticking: self.ticking,
            running: self.running,
        }
    }
}

impl<S: SchedulerThread> HandlerView<S> {
    /// How many times the coroutine with this key is on its way to be resumed: queued for the
    /// scheduler, kept by it, or already asked for.
    pub open spec fn pending(self, key: u64) -> nat {
        control_keys(self.shared.spawned).count(key) + control_keys(self.shared.ready).count(key)
            + control_keys(self.shared.children_to_start).count(key) + command_keys(
            self.todo,
        ).count(key) + self.scheduler.held().count(key)
    }

    /// The coroutine belongs to the thread and can be resumed.
    pub open spec fn resumable(self, cos: Map<u64, CoroutineView>, key: u64) -> bool {
        self.shared.attached(cos, key) && cos[key].state is Ready
    }

    /// Every coroutine that can be resumed is on its way to be resumed, and it is so just once;
    /// no other one is.
    pub open spec fn queues_ok(self, cos: Map<u64, CoroutineView>) -> bool {
        forall|key: u64| #[trigger]
            self.pending(key) == if self.resumable(cos, key) {
                1nat
            } else {
                0nat
            }
    }

    /// At most one coroutine is being executed; all others are ready or blocked.
    pub open spec fn states_ok(self, cos: Map<u64, CoroutineView>) -> bool {
        &&& self.running is Some ==> self.shared.attached(cos, self.running->Some_0)
        &&& forall|id: usize| #[trigger]
            self.shared.items.contains_key(id) ==> {
                let key = self.shared.items[id];
                if self.running == Some(key) {
                    !(cos[key].state is Ready)
                } else {
                    cos[key].state is Ready || cos[key].state is Blocked
                }
            }
    }

    /// What always holds of a handler and the coroutines of its instance.
    pub open spec fn inv(self, cos: Map<u64, CoroutineView>) -> bool {
        &&& self.shared.wf()
        &&& self.shared.agrees(cos)
        &&& self.states_ok(cos)
        &&& !self.is_shutting_down ==> self.queues_ok(cos)
        &&& self.running is None ==> self.shared.children_to_start.len() == 0
        &&& self.phase matches Phase::Shutdown { next, end } ==> {
            &&& self.is_shutting_down
            &&& STARTING_ID <= next <= end <= STARTING_ID + self.shared.slots
        }
    }

    /// The handler waits for events.
    pub open spec fn idle(self) -> bool {
        &&& self.phase is Idle
        &&& self.todo.len() == 0
        &&& !self.ticking
        &&& self.running is None
    }

    /// The coroutine of a token.
    pub open spec fn has_coroutine(self, token: Token) -> bool {
        self.shared.items.contains_key((token.0 as int / 1024) as usize)
    }

    /// The key of the coroutine of a token.
    pub open spec fn coroutine(self, token: Token) -> u64 {
        self.shared.items[(token.0 as int / 1024) as usize]
    }
}

/// The commands without the first one have its key less.
proof fn lemma_pop_command(commands: Seq<Command>, key: u64)
    requires
        commands.len() > 0,
    ensures
        command_keys(commands).count(key) == command_keys(commands.skip(1)).count(key) + if commands[0].key() == key {
            1nat
        } else {
            0nat
        },
{
    broadcast use vstd::seq_lib::group_to_multiset_ensures;

    let keys = commands.map_values(|command: Command| command.key());
    assert(keys =~= seq![keys[0]] + keys.skip(1));
    vstd::seq_lib::lemma_multiset_commutative(seq![keys[0]], keys.skip(1));
    assert(commands.skip(1).map_values(|command: Command| command.key()) =~= keys.skip(1));
    assert(seq![keys[0]] =~= Seq::<u64>::empty().push(keys[0]));
}

/// The controls without the first one have its key less.
proof fn lemma_pop_control(controls: Seq<CoroutineControl>, key: u64)
    requires
        controls.len() > 0,
    ensures
        control_keys(controls).count(key) == control_keys(controls.skip(1)).count(key) + if controls[0].key() == key {
            1nat
        } else {
            0nat
        },
{
    broadcast use vstd::seq_lib::group_to_multiset_ensures;

    let keys = controls.map_values(|ctrl: CoroutineControl| ctrl.key());
    assert(keys =~= seq![keys[0]] + keys.skip(1));
    vstd::seq_lib::lemma_multiset_commutative(seq![keys[0]], keys.skip(1));
    assert(controls.skip(1).map_values(|ctrl: CoroutineControl| ctrl.key()) =~= keys.skip(1));
    assert(seq![keys[0]] =~= Seq::<u64>::empty().push(keys[0]));
}

/// One more key.
proof fn lemma_insert_count(keys: Multiset<u64>, inserted: u64, key: u64)
    ensures
        keys.insert(inserted).count(key) == keys.count(key) + if inserted == key {
            1nat
        } else {
            0nat
        },
{
    broadcast use vstd::multiset::group_multiset_axioms;

}

/// The keys of both.
proof fn lemma_add_count(a: Multiset<u64>, b: Multiset<u64>, key: u64)
    ensures
        a.add(b).count(key) == a.count(key) + b.count(key),
{
    broadcast use vstd::multiset::group_multiset_axioms;

}

/// Moving controls about on a thread keeps the invariant.
proof fn lemma_same_pending<S: SchedulerThread>(
    pre: HandlerView<S>,
    post: HandlerView<S>,
    cos: Map<u64, CoroutineView>,
)
    requires
        pre.inv(cos),
        post.shared.wf(),
        post.shared.items == pre.shared.items,
        post.shared.slots == pre.shared.slots,
        post.shared.thread_id == pre.shared.thread_id,
        post.shared.children_to_start == pre.shared.children_to_start,
        post.is_shutting_down == pre.is_shutting_down,
        post.running == pre.running,
        post.phase == pre.phase || !(post.phase is Shutdown),
        forall|key: u64| #[trigger] post.pending(key) == pre.pending(key),
    ensures
        post.inv(cos),
{
    assert forall|key: u64| #[trigger] post.shared.attached(cos, key) == pre.shared.attached(cos, key) by {}
    if !pre.is_shutting_down {
        assert forall|key: u64| #[trigger]
            post.pending(key) == if post.resumable(cos, key) {
                1nat
            } else {
                0nat
            } by {
            assert(post.pending(key) == pre.pending(key));
            assert(post.shared.attached(cos, key) == pre.shared.attached(cos, key));
        }
    }
}

/// A change that is about one coroutine only keeps the invariant, if it holds for that coroutine.
proof fn lemma_one_changed<S: SchedulerThread>(
    pre: HandlerView<S>,
    cos: Map<u64, CoroutineView>,
    key: u64,
    post: HandlerView<S>,
    post_cos: Map<u64, CoroutineView>,
)
    requires
        pre.inv(cos),
        post.shared.wf(),
        post.shared.thread_id == pre.shared.thread_id,
        forall|k: u64| #![trigger post_cos.contains_key(k)] k != key ==> (post_cos.contains_key(k)
            <==> cos.contains_key(k)),
        forall|k: u64| #![trigger post_cos[k]] k != key && cos.contains_key(k) ==> post_cos[k]
            == cos[k],
        forall|k: u64| k != key ==> #[trigger] post.pending(k) == pre.pending(k),
        forall|id: usize| #[trigger]
            post.shared.items.contains_key(id) && post.shared.items[id] != key ==> {
                &&& pre.shared.items.contains_key(id)
                &&& pre.shared.items[id] == post.shared.items[id]
            },
        forall|id: usize| #[trigger]
            pre.shared.items.contains_key(id) && pre.shared.items[id] != key ==> {
                &&& post.shared.items.contains_key(id)
                &&& post.shared.items[id] == pre.shared.items[id]
            },
        forall|id: usize| #[trigger]
            post.shared.items.contains_key(id) && post.shared.items[id] == key ==> {
                &&& post.shared.attached(post_cos, key)
                &&& post_cos[key].id == id
            },
        post.shared.attached(post_cos, key) ==> if post.running == Some(key) {
            !(post_cos[key].state is Ready)
        } else {
            post_cos[key].state is Ready || post_cos[key].state is Blocked
        },
        post.running == pre.running || post.running == Some(key) || post.running is None,
        pre.running is Some && pre.running != Some(key) ==> post.running == pre.running,
        post.running == Some(key) ==> post.shared.attached(post_cos, key),
        pre.is_shutting_down ==> post.is_shutting_down,
        !post.is_shutting_down ==> post.pending(key) == if post.resumable(post_cos, key) {
            1nat
        } else {
            0nat
        },
        post.running is None ==> post.shared.children_to_start.len() == 0,
        post.phase matches Phase::Shutdown { next, end } ==> {
            &&& post.is_shutting_down
            &&& STARTING_ID <= next <= end <= STARTING_ID + post.shared.slots
        },
    ensures
        post.inv(post_cos),
{
    let tid = pre.shared.thread_id;
    assert forall|k: u64| k != key implies #[trigger] post.shared.attached(post_cos, k)
        == pre.shared.attached(cos, k) by {
        if post.shared.attached(post_cos, k) {
            assert(cos.contains_key(k));
            assert(post_cos[k] == cos[k]);
            assert(post.shared.items.contains_key(cos[k].id));
        }
        if pre.shared.attached(cos, k) {
            assert(post_cos.contains_key(k));
            assert(post_cos[k] == cos[k]);
            assert(pre.shared.items.contains_key(cos[k].id));
        }
    }
    assert forall|id: usize| #[trigger] post.shared.items.contains_key(id) implies {
        &&& post.shared.attached(post_cos, post.shared.items[id])
        &&& post_cos[post.shared.items[id]].id == id
    } by {
        let k = post.shared.items[id];
        if k != key {
            assert(pre.shared.items.contains_key(id));
            assert(pre.shared.attached(cos, k));
            assert(post.shared.attached(post_cos, k));
            assert(post_cos[k] == cos[k]);
        }
    }
    assert(post.shared.agrees(post_cos));
    assert forall|id: usize| #[trigger] post.shared.items.contains_key(id) implies {
        let k = post.shared.items[id];
        if post.running == Some(k) {
            !(post_cos[k].state is Ready)
        } else {
            post_cos[k].state is Ready || post_cos[k].state is Blocked
        }
    } by {
        let k = post.shared.items[id];
        if k != key {
            assert(pre.shared.items.contains_key(id));
            assert(post_cos[k] == cos[k]);
        }
    }
    assert(post.states_ok(post_cos));
    if !post.is_shutting_down {
        assert forall|k: u64| #[trigger] post.pending(k) == if post.resumable(post_cos, k) {
            1nat
        } else {
            0nat
        } by {
            if k != key {
                assert(post.pending(k) == pre.pending(k));
                assert(post.shared.attached(post_cos, k) == pre.shared.attached(cos, k));
                if pre.shared.attached(cos, k) {
                    assert(post_cos[k] == cos[k]);
                }
            }
        }
    }
}

/// Controls in a row have the keys of both parts.
proof fn lemma_append_controls(a: Seq<CoroutineControl>, b: Seq<CoroutineControl>)
    ensures
        control_keys(a + b) == control_keys(a).add(control_keys(b)),
{
    let ka = a.map_values(|ctrl: CoroutineControl| ctrl.key());
    let kb = b.map_values(|ctrl: CoroutineControl| ctrl.key());
    assert((a + b).map_values(|ctrl: CoroutineControl| ctrl.key()) =~= ka + kb);
    vstd::seq_lib::lemma_multiset_commutative(ka, kb);
}

impl<S: SchedulerThread> Handler<S> {
    /// What always holds of a handler and the coroutines of its instance.
    pub closed spec fn wf(&self, table: &CoroutineTable) -> bool {
        &&& self.shared.wf()
        &&& table.wf()
        &&& self@.inv(table@)
    }

    /// The view of a well-formed handler is well-formed.
    pub broadcast proof fn lemma_inv(&self, table: &CoroutineTable)
        requires
            #[trigger] self.wf(table),
        ensures
            table.wf(),
            self@.inv(table@),
    {
    }

    /// A handler that is well-formed with some table is so with any for which its invariant holds.
    proof fn lemma_wf_of_inv(&self, table: &CoroutineTable, other: &CoroutineTable)
        requires
            self.wf(table),
            other.wf(),
            self@.inv(other@),
        ensures
            self.wf(other),
    {
    }

    /// Mio's tick have completed.
    ///
    /// The scheduler may act, and everything that is queued will be delivered to it.
    pub fn tick(&mut self)
        requires
            old(self)@.idle(),
        ensures
            old(self)@.is_shutting_down ==> final(self)@ == old(self)@,
            !old(self)@.is_shutting_down ==> {
                &&& S::tick_step(old(self)@.scheduler, final(self)@.scheduler, final(self)@.todo)
                &&& final(self)@ == (HandlerView {
                    scheduler: final(self)@.scheduler,
                    todo: final(self)@.todo,
                    phase: Phase::Spawned,
                    ticking: true,
                    ..old(self)@
                })
            },
            forall|table: &CoroutineTable| #[trigger] old(self).wf(table) ==> final(self).wf(table),
    {
        if !self.is_shutting_down {
            let mut event_loop: EventLoop = EventLoop::new();
            self.scheduler.tick(&mut event_loop);
            self.todo = event_loop.into_commands();
            self.phase = Phase::Spawned;
            self.ticking = true;
            proof {
                crate::sched::lemma_no_commands();
                assert(old(self)@.todo =~= Seq::empty());
                assert forall|table: &CoroutineTable| #[trigger]
                    old(self).wf(table) implies self.wf(table) by {
                    assert forall|key: u64| #[trigger]
                        self@.pending(key) == old(self)@.pending(key) by {
                        let n = command_keys(self@.todo).add(self@.scheduler.held()).count(key);
                    }
                }
            }
        }
    }

    /// To prevent recursion, all the newly spawned or newly made ready Coroutines are delivered to
    /// scheduler here.
    ///
    /// One call delivers at most one coroutine: newly spawned and newly made ready ones take
    /// turns, until there are neither.
    fn deliver_to_scheduler(&mut self)
        requires
            old(self)@.phase is Spawned || old(self)@.phase is Ready,
            old(self)@.todo.len() == 0,
            old(self)@.running is None,
            old(self).shared.wf(),
        ensures
            deliver_step(old(self)@, final(self)@),
            final(self).shared.wf(),
            forall|table: &CoroutineTable| #[trigger] old(self).wf(table) ==> final(self).wf(table),
    {
        let ghost before = self@;
        let mut event_loop: EventLoop = EventLoop::new();
        match self.phase {
            Phase::Spawned => {
                match self.shared.pop_spawned() {
                    Some(spawned) => {
                        self.scheduler.spawned(&mut event_loop, spawned);
                        self.phase = Phase::Ready { no_spawned: false };
                    },
                    None => {
                        self.phase = Phase::Ready { no_spawned: true };
                    },
                }
            },
            Phase::Ready { no_spawned } => {
                match self.shared.pop_ready() {
                    Some(ready) => {
                        self.scheduler.ready(&mut event_loop, ready);
                        self.phase = Phase::Spawned;
                    },
                    None => {
                        if !no_spawned {
                            self.phase = Phase::Spawned;
                        } else if self.ticking {
                            self.phase = Phase::Timeout;
                        } else {
                            self.phase = Phase::Idle;
                        }
                    },
                }
            },
            _ => {},
        }
        self.todo = event_loop.into_commands();
        proof {
            assert(before.todo =~= Seq::empty());
            assert(deliver_step(before, self@));
            assert forall|table: &CoroutineTable| #[trigger] old(self).wf(table) implies self.wf(
                table,
            ) by {
                assert forall|key: u64| #[trigger] self@.pending(key) == before.pending(key) by {
                    crate::sched::lemma_no_commands();
                    if before.phase is Spawned && before.shared.spawned.len() > 0 {
                        lemma_pop_control(before.shared.spawned, key);
                        lemma_insert_count(
                            before.scheduler.held(),
                            before.shared.spawned[0].key(),
                            key,
                        );
                        lemma_add_count(command_keys(self@.todo), self@.scheduler.held(), key);
                    } else if before.phase is Ready && before.shared.ready.len() > 0 {
                        lemma_pop_control(before.shared.ready, key);
                        lemma_insert_count(
                            before.scheduler.held(),
                            before.shared.ready[0].key(),
                            key,
                        );
                        lemma_add_count(command_keys(self@.todo), self@.scheduler.held(), key);
                    }
                }
                lemma_same_pending(before, self@, table@);
            }
        }
    }

    /// The coroutine belongs to the thread.
    fn attached(&self, table: &CoroutineTable, key: u64) -> (yes: bool)
        requires
            self.shared.wf(),
        ensures
            yes == self@.shared.attached(table@, key),
    {
        match table.get(key) {
            Some(co) => {
                if co.handler() == Some(self.shared.thread_id()) {
                    self.shared.coroutine(co.id()) == Some(key)
                } else {
                    false
                }
            },
            None => false,
        }
    }

    /// The coroutine is going to be executed.
    fn switch_to(&mut self, table: &mut CoroutineTable, key: u64)
        requires
            old(table).wf(),
            old(table)@.contains_key(key),
        ensures
            final(self)@ == (HandlerView { running: Some(key), ..old(self)@ }),
            final(self).shared == old(self).shared,
            final(table)@ == switched_to(old(table)@, key),
            final(table).wf(),
            final(table).next_key() == old(table).next_key(),
    {
        let mut co: Coroutine = table.take(key);
        co.run();
        table.put(key, co);
        self.running = Some(key);
        assert(table@ =~= switched_to(old(table)@, key));
    }

    /// Does the first thing that the scheduler has asked for.
    fn run_command(&mut self, table: &mut CoroutineTable) -> (action: Action)
        requires
            old(self).wf(old(table)),
            old(self)@.running is None,
            old(self)@.todo.len() > 0,
        ensures
            command_step(old(self)@, old(table)@, action, final(self)@, final(table)@),
            final(table).next_key() == old(table).next_key(),
            !(action is Panic) ==> final(self).wf(final(table)),
            old(self)@.is_shutting_down || !(action matches Action::Panic(cause) && !(
            cause is InvalidThread)),
    {
        let ghost before = self@;
        let ghost cos = table@;
        let command: Command = self.todo.pop_front().unwrap();
        let ghost rest = HandlerView { todo: before.todo.skip(1), ..before };
        assert(self@ =~= rest);
        let key: u64 = match &command {
            Command::Resume(ctrl) => ctrl.rc(),
            Command::Migrate(ctrl, _) => ctrl.rc(),
            Command::Kill(ctrl) => ctrl.rc(),
        };
        proof {
            assert forall|k: u64| #[trigger] rest.pending(k) + if k == key {
                1nat
            } else {
                0nat
            } == before.pending(k) by {
                lemma_pop_command(before.todo, k);
            }
            assert(rest.pending(key) + 1 == before.pending(key));
        }
        let attached: bool = self.attached(table, key);
        let is_ready: bool = if attached {
            table.get(key).unwrap().state().is_ready()
        } else {
            false
        };
        let action: Action = match command {
            Command::Resume(_) => {
                if is_ready {
                    self.switch_to(table, key);
                    Action::Resume(key)
                } else {
                    Action::Panic(PanicCause::NotReady)
                }
            },
            Command::Migrate(_, thread_id) => {
                if thread_id >= self.shared.sender_count() {
                    Action::Panic(PanicCause::InvalidThread)
                } else if !attached {
                    Action::Panic(PanicCause::NotAttached)
                } else if !is_ready {
                    Action::Panic(PanicCause::NotReady)
                } else {
                    let mut co: Coroutine = table.take(key);
                    let id: usize = co.id();
                    let user_data = co.user_data();
                    co.detach_from();
                    table.put(key, co);
                    self.shared.detach(id);
                    let to: MioSender = self.shared.get_sender_to_thread(thread_id);
                    assert(table@ =~= cos.insert(key, CoroutineView { handler: None, ..cos[key] }));
                    Action::Request(
                        Request::Send {
                            to,
                            message: Message::Migration(CoroutineControl::new(key, user_data)),
                        },
                    )
                }
            },
            Command::Kill(_) => {
                if attached {
                    self.switch_to(table, key);
                    Action::Kill(key)
                } else {
                    Action::Continue
                }
            },
        };
        proof {
            assert forall|k: u64| k != key implies #[trigger] self@.pending(k) == before.pending(
                k,
            ) by {
                assert(rest.pending(k) == before.pending(k));
            }
            if !(action is Panic) {
                lemma_one_changed(before, cos, key, self@, table@);
            }
        }
        action
    }

    /// Kills the coroutine in a slot, if there is one.
    fn shutdown_one_coroutine(&mut self, table: &mut CoroutineTable, id: usize) -> (action: Action)
        requires
            old(self).wf(old(table)),
            old(self)@.running is None,
            old(self)@.is_shutting_down,
        ensures
            if old(self)@.shared.items.contains_key(id) {
                let key = old(self)@.shared.items[id];
                &&& action == Action::Kill(key)
                &&& final(self)@ == (HandlerView { running: Some(key), ..old(self)@ })
                &&& final(table)@ == switched_to(old(table)@, key)
            } else {
                &&& action is Continue
                &&& final(self)@ == old(self)@
                &&& final(table)@ == old(table)@
            },
            final(table).next_key() == old(table).next_key(),
            final(self).wf(final(table)),
    {
        let ghost before = self@;
        let ghost cos = table@;
        match self.shared.coroutine(id) {
            Some(key) => {
                self.switch_to(table, key);
                proof {
                    lemma_one_changed(before, cos, key, self@, table@);
                }
                Action::Kill(key)
            },
            None => Action::Continue,
        }
    }

    /// What is to be done next on the thread.
    ///
    /// Everything that the scheduler has asked for comes first, in the order in which it was asked
    /// for. Then coroutines are delivered to the scheduler one by one. At the end of a tick the
    /// scheduler is asked for the time until the next one.
    pub fn next(&mut self, table: &mut CoroutineTable) -> (action: Action)
        requires
            old(self).wf(old(table)),
            old(self)@.running is None,
        ensures
            next_step(old(self)@, old(table)@, action, final(self)@, final(table)@),
            final(table).next_key() == old(table).next_key(),
            !(action is Panic) ==> final(self).wf(final(table)),
            action is Poll <==> old(self)@.phase is Idle && old(self)@.todo.len() == 0,
            old(self)@.is_shutting_down || !(action matches Action::Panic(cause) && !(
            cause is InvalidThread)),
    {
        let ghost before = self@;
        if self.todo.len() > 0 {
            return self.run_command(table);
        }
        match self.phase {
            Phase::Idle => Action::Poll,
            Phase::Spawned => {
                self.deliver_to_scheduler();
                Action::Continue
            },
            Phase::Ready { .. } => {
                self.deliver_to_scheduler();
                Action::Continue
            },
            Phase::Timeout => {
                let timeout: Option<u64> = self.scheduler.timeout();
                self.ticking = false;
                self.phase = Phase::Idle;
                proof {
                    lemma_same_pending(before, self@, table@);
                    assert(S::timeout_step(before.scheduler, self@.scheduler, timeout));
                }
                match timeout {
                    Some(delay_ms) => Action::Request(
                        Request::Timeout {
                            token: token_from_ids(
                                SPECIAL_ID,
                                EventSourceId::new(SPECIAL_ID_SCHED_TIMEOUT),
                            ),
                            delay_ms,
                        },
                    ),
                    None => Action::Continue,
                }
            },
            Phase::Shutdown { next, end } => {
                if next >= end {
                    self.phase = Phase::Idle;
                    proof {
                        lemma_same_pending(before, self@, table@);
                    }
                    Action::Continue
                } else {
                    self.phase = Phase::Shutdown { next: next + 1, end };
                    proof {
                        assert(self@.inv(table@));
                    }
                    self.shutdown_one_coroutine(table, next)
                }
            },
        }
    }

    /// A coroutine that has been executed has switched back.
    ///
    /// What it is blocked on is registered, the coroutines that it has spawned are started, and if
    /// it has yielded it is made ready again. If it has ended, it leaves the thread; an instance
    /// without coroutines terminates.
    pub fn after_resume(
        &mut self,
        table: &mut CoroutineTable,
        thread_shared: &mut HandlerThreadShared,
    ) -> (requests: Vec<Request>)
        requires
            old(self).wf(old(table)),
            old(self)@.running is Some,
            switched_back(old(table)@[old(self)@.running->Some_0]),
            old(table)@[old(self)@.running->Some_0].state is Finished
                ==> old(thread_shared).coroutines_num > 0,
        ensures
            after_resume_step(
                old(self)@,
                old(table)@,
                *old(thread_shared),
                requests@,
                final(self)@,
                final(table)@,
                *final(thread_shared),
            ),
            final(table).next_key() == old(table).next_key(),
            final(self).wf(final(table)),
    {
        let ghost before = self@;
        let ghost cos = table@;
        let key: u64 = self.running.unwrap();
        let mut requests: Vec<Request> = Vec::new();
        self.running = None;
        let mut co: Coroutine = table.take(key);
        self.shared.start_children();
        let ghost started = self@;
        proof {
            crate::sched::lemma_no_controls();
            assert forall|k: u64| #[trigger] started.pending(k) == before.pending(k) by {
                lemma_append_controls(before.shared.spawned, before.shared.children_to_start);
                lemma_add_count(
                    control_keys(before.shared.spawned),
                    control_keys(before.shared.children_to_start),
                    k,
                );
            }
            assert(cos.insert(key, cos[key]) =~= cos);
        }
        match co.state() {
            State::Yielding => {
                let mut coroutine_ctrl = CoroutineControl::new(key, co.user_data());
                coroutine_ctrl.set_is_yielding();
                co.unblock_after_yield();
                self.shared.add_ready(coroutine_ctrl);
                proof {
                    assert forall|k: u64| #[trigger] self@.pending(k) == started.pending(k) + if k
                        == key {
                        1nat
                    } else {
                        0nat
                    } by {
                        crate::sched::lemma_push_control(started.shared.ready, coroutine_ctrl);
                        lemma_insert_count(control_keys(started.shared.ready), key, k);
                    }
                }
            },
            State::Finished(status) => {
                self.shared.detach(co.id());
                co.detach_from();
                if status.is_panic() && !self.shared.coroutine_config().catch_panics {
                    let to: MioSender = self.shared.get_sender_to_own_thread();
                    requests.push(Request::Send { to, message: Message::PropagatePanic(key) });
                }
                let mut terminate: Vec<Request> = self.shared.coroutines_dec(thread_shared);
                requests.append(&mut terminate);
                assert forall|k: u64| #[trigger] self@.pending(k) == started.pending(k) by {}
            },
            _ => {
                requests = co.register_all();
            },
        }
        table.put(key, co);
        proof {
            assert forall|k: u64| k != key implies #[trigger] self@.pending(k) == before.pending(
                k,
            ) by {
                assert(started.pending(k) == before.pending(k));
            }
            assert(started.pending(key) == before.pending(key));
            if cos[key].state is Blocked {
                assert(table@ =~= cos);
                assert(self@ == started);
            }
            lemma_one_changed(before, cos, key, self@, table@);
            if cos[key].state is Yielding {
                assert(self@.shared.ready.drop_last() =~= before.shared.ready);
                assert(requests@ =~= Seq::empty());
                assert(table@ =~= cos.insert(key, CoroutineView { state: State::Ready, ..cos[key] }));
            } else if cos[key].state is Finished {
                assert(table@ =~= cos.insert(key, CoroutineView { handler: None, ..cos[key] }));
                assert(requests@ =~= propagated(before, key, cos[key]) + terminated(
                    before,
                    *thread_shared,
                ));
            }
        }
        requests
    }

    /// An event has come for the event source of a token.
    ///
    /// Returns what is to be done outside. Events for coroutines that do not exist are ignored.
    pub fn ready(&mut self, table: &mut CoroutineTable, token: Token, events: EventSet) -> (requests:
        Vec<Request>)
        requires
            old(self).wf(old(table)),
            old(self)@.idle(),
        ensures
            ready_event_step(
                old(self)@,
                old(table)@,
                token,
                events,
                requests@,
                final(self)@,
                final(table)@,
            ),
            final(table).next_key() == old(table).next_key(),
            final(self).wf(final(table)),
    {
        let ghost before = self@;
        let ghost cos = table@;
        let (co_id, _) = token_to_ids(token);
        let key: u64 = match self.shared.coroutine(co_id) {
            Some(key) => key,
            None => {
                return Vec::new();
            },
        };
        let mut co: Coroutine = table.take(key);
        let (woken, requests) = co.event(token, events);
        let user_data = co.user_data();
        table.put(key, co);
        assert(table@ =~= cos.insert(key, cos[key].after_event(token, events)));
        self.phase = Phase::Spawned;
        proof {
            assert(before.todo =~= Seq::empty());
            crate::sched::lemma_no_commands();
        }
        if woken {
            let coroutine_ctrl = CoroutineControl::new(key, user_data);
            let mut event_loop: EventLoop = EventLoop::new();
            self.scheduler.ready(&mut event_loop, coroutine_ctrl);
            self.todo = event_loop.into_commands();
            proof {
                assert forall|k: u64| #[trigger] self@.pending(k) == before.pending(k) + if k == key {
                    1nat
                } else {
                    0nat
                } by {
                    lemma_insert_count(before.scheduler.held(), key, k);
                    lemma_add_count(command_keys(self@.todo), self@.scheduler.held(), k);
                }
                assert(S::ready_step(
                    before.scheduler,
                    coroutine_ctrl,
                    self@.scheduler,
                    self@.todo,
                ));
            }
        } else {
            assert forall|k: u64| #[trigger] self@.pending(k) == before.pending(k) by {}
        }
        proof {
            lemma_one_changed(before, cos, key, self@, table@);
        }
        requests
    }

    /// A timeout has come.
    ///
    /// Returns what is to be done outside. The timeout of the scheduler does nothing more than to
    /// end the wait for events.
    pub fn timeout(&mut self, table: &mut CoroutineTable, msg: Token) -> (requests: Vec<Request>)
        requires
            old(self).wf(old(table)),
            old(self)@.idle(),
        ensures
            if msg == token_of(SPECIAL_ID, EventSourceId(SPECIAL_ID_SCHED_TIMEOUT)) {
                &&& final(self)@ == old(self)@
                &&& final(table)@ == old(table)@
                &&& requests@ == Seq::<Request>::empty()
            } else {
                ready_event_step(
                    old(self)@,
                    old(table)@,
                    msg,
                    readable_set(),
                    requests@,
                    final(self)@,
                    final(table)@,
                )
            },
            final(table).next_key() == old(table).next_key(),
            final(self).wf(final(table)),
    {
        if msg != token_from_ids(SPECIAL_ID, EventSourceId::new(SPECIAL_ID_SCHED_TIMEOUT)) {
            self.ready(table, msg, EventSet::readable())
        } else {
            Vec::new()
        }
    }

    /// Starts to shut down: all coroutines of the thread are going to be killed.
    fn shutdown(&mut self)
        requires
            old(self).shared.wf(),
            old(self)@.idle(),
        ensures
            final(self)@ == shutting_down(old(self)@),
            forall|table: &CoroutineTable| #[trigger] old(self).wf(table) ==> final(self).wf(table),
    {
        self.is_shutting_down = true;
        self.phase = Phase::Shutdown { next: STARTING_ID, end: STARTING_ID + self.shared.slots() };
    }

    /// A message has come.
    ///
    /// Returns what is to be done outside.
    pub fn notify(
        &mut self,
        table: &mut CoroutineTable,
        thread_shared: &HandlerThreadShared,
        msg: Message,
    ) -> (requests: Vec<Request>)
        requires
            old(self).wf(old(table)),
            old(self)@.idle(),
            msg matches Message::Migration(ctrl) ==> {
                &&& old(table)@.contains_key(ctrl.key())
                &&& old(table)@[ctrl.key()].handler is None
                &&& old(table)@[ctrl.key()].state is Ready
                &&& old(self)@.shared.can_attach()
            },
            msg is Terminate ==> thread_shared.coroutines_num == 0,
        ensures
            notify_step(old(self)@, old(table)@, msg, requests@, final(self)@, final(table)@),
            final(table).next_key() == old(table).next_key(),
            final(self).wf(final(table)),
    {
        let ghost before = self@;
        let ghost cos = table@;
        let mut requests: Vec<Request> = Vec::new();
        assert(requests@ =~= Seq::empty());
        match msg {
            Message::ChannelMsg(token) => {
                return self.ready(table, token, EventSet::readable());
            },
            Message::Migration(co_ctrl) => {
                let ghost key = co_ctrl.key();
                co_ctrl.reattach_to(table, &mut self.shared);
                let ghost attached = self@;
                proof {
                    assert(before.todo =~= Seq::empty());
                    crate::sched::lemma_no_commands();
                    assert forall|k: u64| #[trigger] attached.pending(k) == before.pending(k) by {}
                }
                if self.is_shutting_down {
                    let mut event_loop: EventLoop = EventLoop::new();
                    co_ctrl.drop(&mut event_loop);
                    self.todo = event_loop.into_commands();
                    proof {
                        assert(self@.todo =~= seq![Command::Kill(co_ctrl)]);
                        crate::sched::lemma_one_command(self@.todo, Command::Kill(co_ctrl));
                        assert forall|k: u64| k != key implies #[trigger] self@.pending(k)
                            == before.pending(k) by {
                            lemma_insert_count(Multiset::empty(), key, k);
                        }
                    }
                } else {
                    let mut event_loop: EventLoop = EventLoop::new();
                    self.scheduler.ready(&mut event_loop, co_ctrl);
                    self.todo = event_loop.into_commands();
                    self.phase = Phase::Spawned;
                    proof {
                        assert forall|k: u64| #[trigger] self@.pending(k) == before.pending(k)
                            + if k == key {
                            1nat
                        } else {
                            0nat
                        } by {
                            lemma_insert_count(before.scheduler.held(), key, k);
                            lemma_add_count(command_keys(self@.todo), self@.scheduler.held(), k);
                        }
                        assert(self@.pending(key) == before.pending(key) + 1);
                    }
                }
                proof {
                    lemma_one_changed(before, cos, key, self@, table@);
                }
            },
            Message::PropagatePanic(cause) => {
                requests.push(Request::Unwind(cause));
                assert(requests@ =~= seq![Request::Unwind(cause)]);
            },
            Message::Shutdown => {
                self.shutdown();
            },
            Message::Terminate => {
                requests.push(Request::Stop);
                assert(requests@ =~= seq![Request::Stop]);
            },
        }
        requests
    }

    /// Spawns a coroutine from the one that is being executed, and returns its key.
    ///
    /// The child starts when the coroutine that is being executed switches back. It gets the user
    /// data that is set for children.
    pub fn spawn_child(
        &mut self,
        table: &mut CoroutineTable,
        thread_shared: &mut HandlerThreadShared,
    ) -> (key: u64)
        requires
            old(self).wf(old(table)),
            old(self)@.running is Some,
            old(self)@.shared.can_attach(),
            old(table).next_key() < u64::MAX,
            old(thread_shared).coroutines_num < usize::MAX,
        ensures
            spawn_child_step(
                old(self)@,
                old(table)@,
                old(table).next_key(),
                final(self)@,
                final(table)@,
            ),
            key == old(table).next_key(),
            final(table).next_key() == old(table).next_key() + 1,
            *final(thread_shared) == (HandlerThreadShared {
                coroutines_num: (old(thread_shared).coroutines_num + 1) as usize,
                ..*old(thread_shared)
            }),
            final(self).wf(final(table)),
    {
        let ghost before = self@;
        let ghost cos = table@;
        let parent: u64 = self.running.unwrap();
        let user_data = table.get(parent).unwrap().inherited_user_data();
        let key: u64 = self.shared.spawn(table, thread_shared, user_data);
        let ctrl = CoroutineControl::new(key, user_data);
        self.shared.add_child(ctrl);
        proof {
            assert(!cos.contains_key(key));
            assert forall|k: u64| #[trigger] self@.pending(k) == before.pending(k) + if k == key {
                1nat
            } else {
                0nat
            } by {
                crate::sched::lemma_push_control(before.shared.children_to_start, ctrl);
                lemma_insert_count(control_keys(before.shared.children_to_start), key, k);
            }
            assert(self@.pending(key) == before.pending(key) + 1);
            lemma_one_changed(before, cos, key, self@, table@);
            assert(self@.shared.children_to_start.last() == ctrl);
        }
        key
    }

    /// Create a Handler.
    pub fn new(shared: HandlerShared, scheduler: S) -> (made: Self)
        requires
            shared.wf(),
        ensures
            made@ == (HandlerView {
                shared: shared@,
                scheduler,
                is_shutting_down: false,
                todo: Seq::empty(),
                phase: Phase::Idle,
                ticking: false,
                running: None,
            }),
            forall|table: &CoroutineTable|
                table.wf() && made@.inv(table@) ==> #[trigger] made.wf(table),
    {
        let made = Handler {
            shared,
            scheduler,
            is_shutting_down: false,
            todo: VecDeque::new(),
            phase: Phase::Idle,
            ticking: false,
            running: None,
        };
        assert(made@ =~= HandlerView {
            shared: shared@,
            scheduler,
            is_shutting_down: false,
            todo: Seq::empty(),
            phase: Phase::Idle,
            ticking: false,
            running: None,
        });
        made
    }

    /// Data shared between Handler and Coroutines belonging to it
    pub fn shared(&self) -> (shared: &HandlerShared)
        ensures
            shared@ == self@.shared,
            forall|table: &CoroutineTable| #[trigger] self.wf(table) ==> shared.wf(),
    {
        &self.shared
    }

    /// The coroutine that is being executed.
    pub fn running(&self) -> (key: Option<u64>)
        ensures
            key == self@.running,
    {
        self.running
    }

    /// Does the handler wait for events?
    pub fn is_idle(&self) -> (yes: bool)
        ensures
            yes == self@.idle(),
    {
        let no_todo: bool = self.todo.len() == 0;
        matches!(self.phase, Phase::Idle) && no_todo && !self.ticking && self.running.is_none()
    }
}

/// The handler when it starts to shut down.
pub open spec fn shutting_down<S: SchedulerThread>(pre: HandlerView<S>) -> HandlerView<S> {
    HandlerView {
        is_shutting_down: true,
        phase: Phase::Shutdown {
            next: STARTING_ID,
            end: (STARTING_ID + pre.shared.slots) as usize,
        },
        ..pre
    }
}

/// What follows when a message comes.
pub open spec fn notify_step<S: SchedulerThread>(
    pre: HandlerView<S>,
    cos: Map<u64, CoroutineView>,
    msg: Message,
    requests: Seq<Request>,
    post: HandlerView<S>,
    post_cos: Map<u64, CoroutineView>,
) -> bool {
    match msg {
        Message::ChannelMsg(token) => ready_event_step(
            pre,
            cos,
            token,
            readable_set(),
            requests,
            post,
            post_cos,
        ),
        Message::Migration(ctrl) => {
            &&& reattached(ctrl, pre.shared, cos, post.shared, post_cos)
            &&& requests == Seq::<Request>::empty()
            &&& if pre.is_shutting_down {
                post == (HandlerView { shared: post.shared, todo: seq![Command::Kill(ctrl)], ..pre })
            } else {
                &&& S::ready_step(pre.scheduler, ctrl, post.scheduler, post.todo)
                &&& post == (HandlerView {
                    shared: post.shared,
                    scheduler: post.scheduler,
                    todo: post.todo,
                    phase: Phase::Spawned,
                    ..pre
                })
            }
        },
        Message::PropagatePanic(cause) => {
            &&& requests == seq![Request::Unwind(cause)]
            &&& post == pre
            &&& post_cos == cos
        },
        Message::Shutdown => {
            &&& requests == Seq::<Request>::empty()
            &&& post == shutting_down(pre)
            &&& post_cos == cos
        },
        Message::Terminate => {
            &&& requests == seq![Request::Stop]
            &&& post == pre
            &&& post_cos == cos
        },
    }
}

/// The coroutine that is being executed spawns another one.
pub open spec fn spawn_child_step<S: SchedulerThread>(
    pre: HandlerView<S>,
    cos: Map<u64, CoroutineView>,
    key: u64,
    post: HandlerView<S>,
    post_cos: Map<u64, CoroutineView>,
) -> bool {
    let user_data = cos[pre.running->Some_0].inherited_user_data;
    let id = post_cos[key].id;
    let ctrl = post.shared.children_to_start.last();
    &&& !pre.shared.items.contains_key(id)
    &&& ctrl.key() == key
    &&& !ctrl.yielding()
    &&& ctrl.data() == user_data
    &&& post_cos == cos.insert(key, spawned_coroutine(id, pre.shared.thread_id, user_data))
    &&& post == (HandlerView {
        shared: SharedView {
            items: pre.shared.items.insert(id, key),
            slots: pre.shared.slots_after_attach(),
            children_to_start: pre.shared.children_to_start.push(ctrl),
            ..pre.shared
        },
        ..pre
    })
}

/// The coroutines after the one with this key has been switched to.
pub open spec fn switched_to(cos: Map<u64, CoroutineView>, key: u64) -> Map<u64, CoroutineView> {
    cos.insert(key, CoroutineView { state: State::Running, ..cos[key] })
}

/// The coroutine has switched back to the handler.
pub open spec fn switched_back(co: CoroutineView) -> bool {
    co.state is Yielding || co.state is Blocked || co.state is Finished
}

/// Doing the first thing that a scheduler has asked for.
pub open spec fn command_step<S: SchedulerThread>(
    pre: HandlerView<S>,
    cos: Map<u64, CoroutineView>,
    action: Action,
    post: HandlerView<S>,
    post_cos: Map<u64, CoroutineView>,
) -> bool {
    let key = pre.todo[0].key();
    let rest = HandlerView { todo: pre.todo.skip(1), ..pre };
    match pre.todo[0] {
        Command::Resume(_) => if pre.resumable(cos, key) {
            &&& action == Action::Resume(key)
            &&& post == (HandlerView { running: Some(key), ..rest })
            &&& post_cos == switched_to(cos, key)
        } else {
            &&& action == Action::Panic(PanicCause::NotReady)
            &&& post == rest
            &&& post_cos == cos
        },
        Command::Migrate(_, thread_id) => if thread_id < pre.shared.senders.len() && pre.resumable(
            cos,
            key,
        ) {
            &&& action matches Action::Request(Request::Send { to, message })
            &&& to == pre.shared.senders[thread_id as int]
            &&& message matches Message::Migration(ctrl)
            &&& ctrl.key() == key
            &&& !ctrl.yielding()
            &&& ctrl.data() == cos[key].user_data
            &&& post == (HandlerView {
                shared: SharedView {
                    items: pre.shared.items.remove(cos[key].id),
                    ..pre.shared
                },
                ..rest
            })
            &&& post_cos == cos.insert(key, CoroutineView { handler: None, ..cos[key] })
        } else {
            &&& action == Action::Panic(
                if thread_id >= pre.shared.senders.len() {
                    PanicCause::InvalidThread
                } else if !pre.shared.attached(cos, key) {
                    PanicCause::NotAttached
                } else {
                    PanicCause::NotReady
                },
            )
            &&& post == rest
            &&& post_cos == cos
        },
        Command::Kill(_) => if pre.shared.attached(cos, key) {
            &&& action == Action::Kill(key)
            &&& post == (HandlerView { running: Some(key), ..rest })
            &&& post_cos == switched_to(cos, key)
        } else {
            &&& action is Continue
            &&& post == rest
            &&& post_cos == cos
        },
    }
}

/// What the answer of a scheduler to the question for a timeout leads to.
pub open spec fn timeout_action(timeout: Option<u64>) -> Action {
    match timeout {
        Some(delay_ms) => Action::Request(
            Request::Timeout {
                token: token_of(SPECIAL_ID, EventSourceId(SPECIAL_ID_SCHED_TIMEOUT)),
                delay_ms,
            },
        ),
        None => Action::Continue,
    }
}

/// One step of a thread.
pub open spec fn next_step<S: SchedulerThread>(
    pre: HandlerView<S>,
    cos: Map<u64, CoroutineView>,
    action: Action,
    post: HandlerView<S>,
    post_cos: Map<u64, CoroutineView>,
) -> bool {
    if pre.todo.len() > 0 {
        command_step(pre, cos, action, post, post_cos)
    } else {
        match pre.phase {
            Phase::Idle => action is Poll && post == pre && post_cos == cos,
            Phase::Timeout => {
                &&& exists|timeout: Option<u64>| #[trigger]
                    S::timeout_step(pre.scheduler, post.scheduler, timeout) && action
                        == timeout_action(timeout)
                &&& post == (HandlerView {
                    scheduler: post.scheduler,
                    phase: Phase::Idle,
                    ticking: false,
                    ..pre
                })
                &&& post_cos == cos
            },
            Phase::Shutdown { next, end } => if next >= end {
                &&& action is Continue
                &&& post == (HandlerView { phase: Phase::Idle, ..pre })
                &&& post_cos == cos
            } else {
                let after = HandlerView {
                    phase: Phase::Shutdown { next: (next + 1) as usize, end },
                    ..pre
                };
                if pre.shared.items.contains_key(next) {
                    let key = pre.shared.items[next];
                    &&& action == Action::Kill(key)
                    &&& post == (HandlerView { running: Some(key), ..after })
                    &&& post_cos == switched_to(cos, key)
                } else {
                    &&& action is Continue
                    &&& post == after
                    &&& post_cos == cos
                }
            },
            _ => action is Continue && deliver_step(pre, post) && post_cos == cos,
        }
    }
}

/// The request to go on with the panic of a coroutine, if panics are not caught.
pub open spec fn propagated<S: SchedulerThread>(
    pre: HandlerView<S>,
    key: u64,
    co: CoroutineView,
) -> Seq<Request> {
    if co.state == State::Finished(ExitStatus::Panic) && !pre.shared.coroutine_config.catch_panics {
        seq![
            Request::Send {
                to: pre.shared.senders[pre.shared.thread_id as int],
                message: Message::PropagatePanic(key),
            },
        ]
    } else {
        Seq::empty()
    }
}

/// The requests to terminate all threads, if there are no coroutines any more.
pub open spec fn terminated<S: SchedulerThread>(
    pre: HandlerView<S>,
    thread_shared: HandlerThreadShared,
) -> Seq<Request> {
    if thread_shared.coroutines_num == 0 {
        pre.shared.broadcast(Message::Terminate)
    } else {
        Seq::empty()
    }
}

/// What follows when a coroutine that has been executed switches back.
pub open spec fn after_resume_step<S: SchedulerThread>(
    pre: HandlerView<S>,
    cos: Map<u64, CoroutineView>,
    threads: HandlerThreadShared,
    requests: Seq<Request>,
    post: HandlerView<S>,
    post_cos: Map<u64, CoroutineView>,
    post_threads: HandlerThreadShared,
) -> bool {
    let key = pre.running->Some_0;
    let co = cos[key];
    let started = SharedView {
        spawned: pre.shared.spawned + pre.shared.children_to_start,
        children_to_start: Seq::empty(),
        ..pre.shared
    };
    match co.state {
        State::Yielding => {
            let ctrl = post.shared.ready.last();
            &&& ctrl.key() == key
            &&& ctrl.yielding()
            &&& ctrl.data() == co.user_data
            &&& post == (HandlerView {
                shared: SharedView { ready: pre.shared.ready.push(ctrl), ..started },
                running: None,
                ..pre
            })
            &&& post_cos == cos.insert(key, CoroutineView { state: State::Ready, ..co })
            &&& post_threads == threads
            &&& requests == Seq::<Request>::empty()
        },
        State::Finished(_) => {
            &&& post == (HandlerView {
                shared: SharedView { items: pre.shared.items.remove(co.id), ..started },
                running: None,
                ..pre
            })
            &&& post_cos == cos.insert(key, CoroutineView { handler: None, ..co })
            &&& post_threads == (HandlerThreadShared {
                coroutines_num: (threads.coroutines_num - 1) as usize,
                ..threads
            })
            &&& requests == propagated(pre, key, co) + terminated(pre, post_threads)
        },
        _ => {
            &&& post == (HandlerView { shared: started, running: None, ..pre })
            &&& post_cos == cos
            &&& post_threads == threads
            &&& requests == co.registrations()
        },
    }
}

/// The coroutine is handed to the scheduler as one that became ready.
pub open spec fn handed_over<S: SchedulerThread>(
    pre: HandlerView<S>,
    key: u64,
    user_data: Option<UserData>,
    post: HandlerView<S>,
) -> bool {
    exists|ctrl: CoroutineControl| #[trigger]
        S::ready_step(pre.scheduler, ctrl, post.scheduler, post.todo) && ctrl.key() == key
            && !ctrl.yielding() && ctrl.data() == user_data
}

/// What follows when an event comes for the event source of a token.
pub open spec fn ready_event_step<S: SchedulerThread>(
    pre: HandlerView<S>,
    cos: Map<u64, CoroutineView>,
    token: Token,
    events: EventSet,
    requests: Seq<Request>,
    post: HandlerView<S>,
    post_cos: Map<u64, CoroutineView>,
) -> bool {
    let key = pre.coroutine(token);
    let co = cos[key];
    if !pre.has_coroutine(token) {
        &&& post == pre
        &&& post_cos == cos
        &&& requests == Seq::<Request>::empty()
    } else {
        &&& post_cos == cos.insert(key, co.after_event(token, events))
        &&& requests == co.event_requests(token, events)
        &&& if co.woken_in(token, events).nothing() {
            post == (HandlerView { phase: Phase::Spawned, ..pre })
        } else {
            &&& handed_over(pre, key, co.user_data, post)
            &&& post == (HandlerView {
                scheduler: post.scheduler,
                todo: post.todo,
                phase: Phase::Spawned,
                ..pre
            })
        }
    }
}

/// One step of delivering to the scheduler.
pub open spec fn deliver_step<S: SchedulerThread>(
    pre: HandlerView<S>,
    post: HandlerView<S>,
) -> bool {
    match pre.phase {
        Phase::Spawned => if pre.shared.spawned.len() > 0 {
            &&& S::spawned_step(pre.scheduler, pre.shared.spawned[0], post.scheduler, post.todo)
            &&& post == (HandlerView {
                shared: SharedView { spawned: pre.shared.spawned.skip(1), ..pre.shared },
                scheduler: post.scheduler,
                todo: post.todo,
                phase: Phase::Ready { no_spawned: false },
                ..pre
            })
        } else {
            post == (HandlerView { phase: Phase::Ready { no_spawned: true }, ..pre })
        },
        Phase::Ready { no_spawned } => if pre.shared.ready.len() > 0 {
            &&& S::ready_step(pre.scheduler, pre.shared.ready[0], post.scheduler, post.todo)
            &&& post == (HandlerView {
                shared: SharedView { ready: pre.shared.ready.skip(1), ..pre.shared },
                scheduler: post.scheduler,
                todo: post.todo,
                phase: Phase::Spawned,
                ..pre
            })
        } else {
            post == (HandlerView {
                phase: if !no_spawned {
                    Phase::Spawned
                } else if pre.ticking {
                    Phase::Timeout
                } else {
                    Phase::Idle
                },
                ..pre
            })
        },
        _ => false,
    }
}

} // verus!
