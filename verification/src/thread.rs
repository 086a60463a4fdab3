//! Data of the threads of an instance.

use crate::control::CoroutineControl;
use crate::coroutine::{Config, Coroutine, CoroutineView, UserData};
use crate::event::max_co_id;
use crate::message::MioSender;
use crate::request::{Message, Request};
use crate::slots::{slab_first, slab_items, slab_slots, CoroutineSlab};
use crate::table::CoroutineTable;
use std::collections::VecDeque;
use vstd::prelude::*;

verus! {

/// Number of no coroutine.
pub const SPECIAL_ID: usize = 0;

/// Event source of no coroutine, used for the timeout of the scheduler.
pub const SPECIAL_ID_SCHED_TIMEOUT: usize = 0;

/// Number of the first coroutine of a thread.
pub const STARTING_ID: usize = 1;

/// How many slots for coroutines a thread starts with.
pub const STARTING_SLOTS: usize = 512;

/// Data shared between the threads of an instance.
#[derive(Debug)]
pub struct HandlerThreadShared {
    /// Not zero once the threads may start.
    pub mioco_started: usize,
    /// How many coroutines there are in the instance.
    pub coroutines_num: usize,
    /// How many threads there are in the instance.
    pub thread_num: usize,
}

impl HandlerThreadShared {
    /// The threads have to wait, and there are no coroutines.
    pub fn new(thread_num: usize) -> (made: Self)
        ensures
            made == (HandlerThreadShared { mioco_started: 0, coroutines_num: 0, thread_num }),
    {
        HandlerThreadShared { mioco_started: 0, coroutines_num: 0, thread_num }
    }
}

/// Data belonging to `Handler`, but referenced and manipulated by coroutinees belonging to it.
pub struct HandlerShared {
    /// Slab allocator
    coroutines: CoroutineSlab,
    /// How many slots the slab has.
    slots: usize,
    /// Senders to other EventLoops
    senders: Vec<MioSender>,
    /// Config for spawned coroutines
    coroutine_config: Config,
    /// Newly spawned Coroutines
    spawned: VecDeque<CoroutineControl>,
    /// Coroutines that were made ready
    ready: VecDeque<CoroutineControl>,
    /// Coroutines that the one being executed has spawned
    children_to_start: VecDeque<CoroutineControl>,
    /// Thread Id
    thread_id: usize,
}

/// What `HandlerShared` is, as its contracts describe it.
#[verifier::ext_equal]
pub struct SharedView {
    /// Coroutines of the thread: from their numbers to their keys.
    pub items: Map<usize, u64>,
    /// How many slots for coroutines there are.
    pub slots: nat,
    /// Senders to the threads of the instance.
    pub senders: Seq<MioSender>,
    /// Config for spawned coroutines.
    pub coroutine_config: Config,
    /// Newly spawned coroutines, not yet delivered to the scheduler.
    pub spawned: Seq<CoroutineControl>,
    /// Coroutines that were made ready, not yet delivered to the scheduler.
    pub ready: Seq<CoroutineControl>,
    /// Coroutines that the one being executed has spawned.
    pub children_to_start: Seq<CoroutineControl>,
    /// Number of the thread.
    pub thread_id: usize,
}

impl SharedView {
    /// What always holds of the data, apart from the coroutines themselves.
    ///
    /// The numbers of coroutines are those of slots, and fit in tokens.
    pub open spec fn wf(self) -> bool {
        &&& self.items.dom().finite()
        &&& 0 < self.slots <= max_co_id()
        &&& self.items.len() <= self.slots
        &&& forall|id: usize| #[trigger]
            self.items.contains_key(id) ==> STARTING_ID <= id < STARTING_ID + self.slots
        &&& self.thread_id < self.senders.len()
    }

    /// There is a slot for one more coroutine, or there can be.
    pub open spec fn can_attach(self) -> bool {
        self.items.len() < self.slots || 2 * self.slots <= max_co_id()
    }

    /// The coroutine with this key belongs to the thread.
    pub open spec fn attached(self, cos: Map<u64, CoroutineView>, key: u64) -> bool {
        &&& cos.contains_key(key)
        &&& cos[key].handler == Some(self.thread_id)
        &&& self.items.contains_key(cos[key].id)
        &&& self.items[cos[key].id] == key
    }

    /// The numbers and the keys of the coroutines of the thread agree.
    pub open spec fn agrees(self, cos: Map<u64, CoroutineView>) -> bool {
        forall|id: usize| #[trigger]
            self.items.contains_key(id) ==> self.attached(cos, self.items[id])
                && cos[self.items[id]].id == id
    }

    /// The slots after one more coroutine has been attached: they are doubled when all are in use.
    pub open spec fn slots_after_attach(self) -> nat {
        if self.items.len() < self.slots {
            self.slots
        } else {
            2 * self.slots
        }
    }

    /// The requests that send a message to all threads.
    pub open spec fn broadcast(self, message: Message) -> Seq<Request> {
        Seq::new(self.senders.len(), |i: int| Request::Send { to: self.senders[i], message })
    }
}

impl View for HandlerShared {
    type V = SharedView;

    closed spec fn view(&self) -> SharedView {
        SharedView {
            items: slab_items(self.coroutines),
            slots: self.slots as nat,
            senders: self.senders@,
            coroutine_config: self.coroutine_config,
            spawned: self.spawned@,
            ready: self.ready@,
            children_to_start: self.children_to_start@,
            thread_id: self.thread_id,
        }
    }
}

impl HandlerShared {
    /// What always holds of the data, apart from the coroutines themselves.
    pub closed spec fn wf(&self) -> bool {
        &&& self@.wf()
        &&& slab_first(self.coroutines) == STARTING_ID
        &&& slab_slots(self.coroutines) == self.slots
    }

    /// The view of well-formed data is well-formed.
    pub broadcast proof fn lemma_wf(&self)
        requires
            #[trigger] self.wf(),
        ensures
            self@.wf(),
    {
    }

    /// Data of the thread with the given number, which has no coroutines.
    pub fn new(senders: Vec<MioSender>, coroutine_config: Config, thread_id: usize) -> (made: Self)
        requires
            thread_id < senders.len(),
        ensures
            made.wf(),
            made@ == (SharedView {
                items: Map::empty(),
                slots: STARTING_SLOTS as nat,
                senders: senders@,
                coroutine_config,
                spawned: Seq::empty(),
                ready: Seq::empty(),
                children_to_start: Seq::empty(),
                thread_id,
            }),
    {
        let made = HandlerShared {
            coroutines: CoroutineSlab::new_starting_at(STARTING_ID, STARTING_SLOTS),
            slots: STARTING_SLOTS,
            senders,
            coroutine_config,
            spawned: VecDeque::new(),
            ready: VecDeque::new(),
            children_to_start: VecDeque::new(),
            thread_id,
        };
        assert(made@.items =~= Map::empty());
        assert(made@ =~= SharedView {
            items: Map::empty(),
            slots: STARTING_SLOTS as nat,
            senders: senders@,
            coroutine_config,
            spawned: Seq::empty(),
            ready: Seq::empty(),
            children_to_start: Seq::empty(),
            thread_id,
        });
        made
    }

    /// Queues a newly spawned coroutine for the scheduler.
    pub fn add_spawned(&mut self, coroutine_ctrl: CoroutineControl)
        requires
            old(self).wf(),
        ensures
            final(self).wf(),
            final(self)@ == (SharedView {
                spawned: old(self)@.spawned.push(coroutine_ctrl),
                ..old(self)@
            }),
    {
        self.spawned.push_back(coroutine_ctrl);
        assert(self@ =~= SharedView { spawned: old(self)@.spawned.push(coroutine_ctrl), ..old(self)@ });
    }

    /// Queues a coroutine that was made ready for the scheduler.
    pub fn add_ready(&mut self, coroutine_ctrl: CoroutineControl)
        requires
            old(self).wf(),
        ensures
            final(self).wf(),
            final(self)@ == (SharedView {
                ready: old(self)@.ready.push(coroutine_ctrl),
                ..old(self)@
            }),
    {
        self.ready.push_back(coroutine_ctrl);
        assert(self@ =~= SharedView { ready: old(self)@.ready.push(coroutine_ctrl), ..old(self)@ });
    }

    /// The oldest newly spawned coroutine that was not delivered yet.
    pub(crate) fn pop_spawned(&mut self) -> (ctrl: Option<CoroutineControl>)
        requires
            old(self).wf(),
        ensures
            final(self).wf(),
            match ctrl {
                Some(ctrl) => old(self)@.spawned.len() > 0 && ctrl == old(self)@.spawned[0]
                    && final(self)@ == (SharedView {
                    spawned: old(self)@.spawned.skip(1),
                    ..old(self)@
                }),
                None => old(self)@.spawned.len() == 0 && final(self)@ == old(self)@,
            },
    {
        let ctrl: Option<CoroutineControl> = self.spawned.pop_front();
        if ctrl.is_some() {
            assert(self@ =~= SharedView { spawned: old(self)@.spawned.skip(1), ..old(self)@ });
        } else {
            assert(self@ =~= old(self)@);
        }
        ctrl
    }

    /// The oldest coroutine that was made ready and was not delivered yet.
    pub(crate) fn pop_ready(&mut self) -> (ctrl: Option<CoroutineControl>)
        requires
            old(self).wf(),
        ensures
            final(self).wf(),
            match ctrl {
                Some(ctrl) => old(self)@.ready.len() > 0 && ctrl == old(self)@.ready[0]
                    && final(self)@ == (SharedView { ready: old(self)@.ready.skip(1), ..old(self)@ }),
                None => old(self)@.ready.len() == 0 && final(self)@ == old(self)@,
            },
    {
        let ctrl: Option<CoroutineControl> = self.ready.pop_front();
        if ctrl.is_some() {
            assert(self@ =~= SharedView { ready: old(self)@.ready.skip(1), ..old(self)@ });
        } else {
            assert(self@ =~= old(self)@);
        }
        ctrl
    }

    /// Queues the coroutines that the one being executed has spawned for the scheduler.
    pub fn start_children(&mut self)
        requires
            old(self).wf(),
        ensures
            final(self).wf(),
            final(self)@ == (SharedView {
                spawned: old(self)@.spawned + old(self)@.children_to_start,
                children_to_start: Seq::empty(),
                ..old(self)@
            }),
    {
        self.spawned.append(&mut self.children_to_start);
        assert(self@ =~= SharedView {
            spawned: old(self)@.spawned + old(self)@.children_to_start,
            children_to_start: Seq::empty(),
            ..old(self)@
        });
    }

    /// A sender to the event loop of this thread.
    pub fn get_sender_to_own_thread(&self) -> (sender: MioSender)
        requires
            self.wf(),
        ensures
            sender == self@.senders[self@.thread_id as int],
    {
        self.senders[self.thread_id]
    }

    /// A sender to the event loop of the thread with the given number.
    pub fn get_sender_to_thread(&self, thread_id: usize) -> (sender: MioSender)
        requires
            thread_id < self@.senders.len(),
        ensures
            sender == self@.senders[thread_id as int],
    {
        self.senders[thread_id]
    }

    /// How many threads the instance has.
    pub fn sender_count(&self) -> (n: usize)
        ensures
            n == self@.senders.len(),
    {
        self.senders.len()
    }

    /// The requests that send one of the two messages for all threads.
    fn broadcast(&self, terminate: bool) -> (requests: Vec<Request>)
        ensures
            requests@ == self@.broadcast(
                if terminate {
                    Message::Terminate
                } else {
                    Message::Shutdown
                },
            ),
    {
        let ghost all = self@.broadcast(
            if terminate {
                Message::Terminate
            } else {
                Message::Shutdown
            },
        );
        let mut requests: Vec<Request> = Vec::new();
        let len: usize = self.senders.len();
        for i in 0..len
            invariant
                len == self@.senders.len(),
                all == self@.broadcast(
                    if terminate {
                        Message::Terminate
                    } else {
                        Message::Shutdown
                    },
                ),
                requests@ == all.take(i as int),
        {
            let message: Message = if terminate {
                Message::Terminate
            } else {
                Message::Shutdown
            };
            requests.push(Request::Send { to: self.senders[i], message });
            assert(requests@ =~= all.take(i + 1));
        }
        assert(requests@ =~= all);
        requests
    }

    /// The requests that tell all threads to stop their coroutines.
    pub fn broadcast_shutdown(&self) -> (requests: Vec<Request>)
        ensures
            requests@ == self@.broadcast(Message::Shutdown),
    {
        self.broadcast(false)
    }

    /// The requests that tell all threads to terminate.
    pub fn broadcast_terminate(&self) -> (requests: Vec<Request>)
        ensures
            requests@ == self@.broadcast(Message::Terminate),
    {
        self.broadcast(true)
    }

    /// The threads have to wait for the start of the instance.
    pub fn wait_for_start_all(&self, thread_shared: &HandlerThreadShared) -> (wait: bool)
        ensures
            wait == (thread_shared.mioco_started == 0),
    {
        thread_shared.mioco_started == 0
    }

    /// Lets all threads start.
    pub fn signal_start_all(&self, thread_shared: &mut HandlerThreadShared)
        ensures
            *final(thread_shared) == (HandlerThreadShared {
                mioco_started: 1,
                ..*old(thread_shared)
            }),
    {
        thread_shared.mioco_started = 1;
    }

    /// Increase number of coroutines.
    pub fn coroutines_inc(&self, thread_shared: &mut HandlerThreadShared)
        requires
            old(thread_shared).coroutines_num < usize::MAX,
        ensures
            *final(thread_shared) == (HandlerThreadShared {
                coroutines_num: (old(thread_shared).coroutines_num + 1) as usize,
                ..*old(thread_shared)
            }),
    {
        thread_shared.coroutines_num = thread_shared.coroutines_num + 1;
    }

    /// Decrease number of coroutines.
    ///
    /// If coroutine number goes down to zero - send termination message to all threads.
    pub fn coroutines_dec(&self, thread_shared: &mut HandlerThreadShared) -> (requests: Vec<Request>)
        requires
            old(thread_shared).coroutines_num > 0,
        ensures
            *final(thread_shared) == (HandlerThreadShared {
                coroutines_num: (old(thread_shared).coroutines_num - 1) as usize,
                ..*old(thread_shared)
            }),
            requests@ == if final(thread_shared).coroutines_num == 0 {
                self@.broadcast(Message::Terminate)
            } else {
                Seq::empty()
            },
    {
        let prev: usize = thread_shared.coroutines_num;
        thread_shared.coroutines_num = prev - 1;
        if prev == 1 {
            self.broadcast_terminate()
        } else {
            Vec::new()
        }
    }

    /// Get number of threads
    pub fn thread_num(&self, thread_shared: &HandlerThreadShared) -> (n: usize)
        ensures
            n == thread_shared.thread_num,
    {
        thread_shared.thread_num
    }

    /// Get own thread_id
    pub fn thread_id(&self) -> (id: usize)
        ensures
            id == self@.thread_id,
    {
        self.thread_id
    }

    /// Config for spawned coroutines.
    pub fn coroutine_config(&self) -> (config: Config)
        ensures
            config == self@.coroutine_config,
    {
        self.coroutine_config
    }

    /// Is there a slot for one more coroutine, or can there be?
    pub fn can_attach(&self) -> (yes: bool)
        requires
            self.wf(),
        ensures
            yes == self@.can_attach(),
    {
        self.coroutines.count() < self.slots || self.slots <= usize::MAX / 1024 / 2
    }

    /// Finds a slot for a coroutine and returns its number.
    ///
    /// When all slots are in use, there will be twice as many.
    pub fn attach(&mut self, rc_coroutine: u64) -> (id: usize)
        requires
            old(self).wf(),
            old(self)@.can_attach(),
        ensures
            final(self).wf(),
            !old(self)@.items.contains_key(id),
            final(self)@ == (SharedView {
                items: old(self)@.items.insert(id, rc_coroutine),
                slots: old(self)@.slots_after_attach(),
                ..old(self)@
            }),
    {
        let count: usize = self.coroutines.count();
        if count == self.slots {
            self.coroutines.grow(count);
            self.slots = self.slots + count;
        }
        let id: usize = match self.coroutines.insert(rc_coroutine) {
            Ok(id) => id,
            Err(_) => {
                assert(false);
                0
            },
        };
        assert(self@ =~= SharedView {
            items: old(self)@.items.insert(id, rc_coroutine),
            slots: old(self)@.slots_after_attach(),
            ..old(self)@
        });
        id
    }

    /// Empties the slot of a coroutine.
    pub(crate) fn detach(&mut self, id: usize)
        requires
            old(self).wf(),
            old(self)@.items.contains_key(id),
        ensures
            final(self).wf(),
            final(self)@ == (SharedView { items: old(self)@.items.remove(id), ..old(self)@ }),
    {
        let _ = self.coroutines.remove(id);
        assert(self@ =~= SharedView { items: old(self)@.items.remove(id), ..old(self)@ });
    }

    /// The key of the coroutine with the given number.
    pub fn coroutine(&self, id: usize) -> (key: Option<u64>)
        requires
            self.wf(),
        ensures
            key is Some <==> self@.items.contains_key(id),
            key is Some ==> key->Some_0 == self@.items[id],
    {
        if id <= self.slots {
            match self.coroutines.get(id) {
                Some(key) => Some(*key),
                None => None,
            }
        } else {
            None
        }
    }

    /// Does the coroutine with the given number exist?
    pub fn contains(&self, id: usize) -> (yes: bool)
        requires
            self.wf(),
        ensures
            yes == self@.items.contains_key(id),
    {
        id <= self.slots && self.coroutines.contains(id)
    }

    /// How many slots for coroutines there are.
    pub fn slots(&self) -> (n: usize)
        ensures
            n == self@.slots,
    {
        self.slots
    }
}

/// A coroutine of this thread that has not started.
pub open spec fn spawned_coroutine(
    id: usize,
    thread_id: usize,
    user_data: Option<UserData>,
) -> CoroutineView {
    CoroutineView { id, handler: Some(thread_id), ..crate::coroutine::new_coroutine(user_data) }
}

impl HandlerShared {
    /// Makes a coroutine that belongs to this thread, and returns its key.
    pub fn spawn(
        &mut self,
        table: &mut CoroutineTable,
        thread_shared: &mut HandlerThreadShared,
        user_data: Option<UserData>,
    ) -> (key: u64)
        requires
            old(self).wf(),
            old(self)@.can_attach(),
            old(table).wf(),
            old(table).next_key() < u64::MAX,
            old(thread_shared).coroutines_num < usize::MAX,
        ensures
            final(self).wf(),
            final(table).wf(),
            key == old(table).next_key(),
            final(table).next_key() == old(table).next_key() + 1,
            !old(self)@.items.contains_key(final(table)@[key].id),
            final(table)@ == old(table)@.insert(
                key,
                spawned_coroutine(final(table)@[key].id, old(self)@.thread_id, user_data),
            ),
            final(self)@ == (SharedView {
                items: old(self)@.items.insert(final(table)@[key].id, key),
                slots: old(self)@.slots_after_attach(),
                ..old(self)@
            }),
            *final(thread_shared) == (HandlerThreadShared {
                coroutines_num: (old(thread_shared).coroutines_num + 1) as usize,
                ..*old(thread_shared)
            }),
    {
        let key: u64 = table.add(Coroutine::new(user_data));
        let id: usize = self.attach(key);
        let mut co: Coroutine = table.take(key);
        co.attach_to(self.thread_id, id);
        table.put(key, co);
        self.coroutines_inc(thread_shared);
        assert(table@ =~= old(table)@.insert(
            key,
            spawned_coroutine(id, old(self)@.thread_id, user_data),
        ));
        key
    }

    /// Queues a coroutine that the one being executed has spawned.
    pub(crate) fn add_child(&mut self, coroutine_ctrl: CoroutineControl)
        requires
            old(self).wf(),
        ensures
            final(self).wf(),
            final(self)@ == (SharedView {
                children_to_start: old(self)@.children_to_start.push(coroutine_ctrl),
                ..old(self)@
            }),
    {
        self.children_to_start.push_back(coroutine_ctrl);
        assert(self@ =~= SharedView {
            children_to_start: old(self)@.children_to_start.push(coroutine_ctrl),
            ..old(self)@
        });
    }
}

impl CoroutineControl {
    /// Finish migrating Coroutine by attaching it to a new thread
    pub fn reattach_to(&self, table: &mut CoroutineTable, handler_shared: &mut HandlerShared)
        requires
            old(handler_shared).wf(),
            old(handler_shared)@.can_attach(),
            old(table).wf(),
            old(table)@.contains_key(self.key()),
        ensures
            final(handler_shared).wf(),
            final(table).wf(),
            final(table).next_key() == old(table).next_key(),
            reattached(
                *self,
                old(handler_shared)@,
                old(table)@,
                final(handler_shared)@,
                final(table)@,
            ),
    {
        let key: u64 = self.rc();
        let id: usize = handler_shared.attach(key);
        let mut co: Coroutine = table.take(key);
        co.attach_to(handler_shared.thread_id(), id);
        table.put(key, co);
        assert(table@ =~= old(table)@.insert(
            key,
            CoroutineView {
                id,
                handler: Some(handler_shared@.thread_id),
                ..old(table)@[key]
            },
        ));
    }
}

/// The coroutine of a control has been attached to a thread.
pub open spec fn reattached(
    ctrl: CoroutineControl,
    pre: SharedView,
    cos: Map<u64, CoroutineView>,
    post: SharedView,
    post_cos: Map<u64, CoroutineView>,
) -> bool {
    let key = ctrl.key();
    let id = post_cos[key].id;
    &&& !pre.items.contains_key(id)
    &&& post == (SharedView {
        items: pre.items.insert(id, key),
        slots: pre.slots_after_attach(),
        ..pre
    })
    &&& post_cos == cos.insert(
        key,
        CoroutineView { id, handler: Some(pre.thread_id), ..cos[key] },
    )
}

/// Coroutines are counted: one more when one is spawned, one less when one ends; and when none is left
/// every thread is told to terminate, once, and not before. Nothing else about the threads changes.
pub proof fn law_coroutines_are_counted(
    shared: HandlerShared,
    more: &mut HandlerThreadShared,
    less: &mut HandlerThreadShared,
    requests: Vec<Request>,
    fresh: HandlerThreadShared,
    thread_num: usize,
    i: int,
)
    requires
        call_ensures(HandlerThreadShared::new, (thread_num,), fresh),
        old(more).coroutines_num < usize::MAX,
        call_ensures(HandlerShared::coroutines_inc, (&shared, more), ()),
        old(less).coroutines_num > 0,
        call_ensures(HandlerShared::coroutines_dec, (&shared, less), requests),
    ensures
        fresh.coroutines_num == 0,
        fresh.thread_num == thread_num,
        fresh.mioco_started == 0,
        final(more).coroutines_num == old(more).coroutines_num + 1,
        final(more).thread_num == old(more).thread_num,
        final(more).mioco_started == old(more).mioco_started,
        final(less).coroutines_num == old(less).coroutines_num - 1,
        final(less).thread_num == old(less).thread_num,
        final(less).mioco_started == old(less).mioco_started,
        requests@.len() == if old(less).coroutines_num == 1 {
            shared@.senders.len()
        } else {
            0
        },
        0 <= i < requests@.len() ==> requests@[i] == (Request::Send {
            to: shared@.senders[i],
            message: Message::Terminate,
        }),
{
}

/// Messages for all threads reach each of them, once, in the order of their numbers; a message for one
/// thread reaches that one. The threads wait for the start until it is signalled.
pub proof fn law_messages_reach_their_threads(
    shared: HandlerShared,
    shutdown: Vec<Request>,
    terminate: Vec<Request>,
    own: MioSender,
    to: usize,
    other: MioSender,
    threads: &mut HandlerThreadShared,
    wait_before: bool,
    wait_after: bool,
    i: int,
)
    requires
        shared.wf(),
        to < shared@.senders.len(),
        0 <= i < shared@.senders.len(),
        call_ensures(HandlerShared::broadcast_shutdown, (&shared,), shutdown),
        call_ensures(HandlerShared::broadcast_terminate, (&shared,), terminate),
        call_ensures(HandlerShared::get_sender_to_own_thread, (&shared,), own),
        call_ensures(HandlerShared::get_sender_to_thread, (&shared, to), other),
        call_ensures(HandlerShared::wait_for_start_all, (&shared, &*old(threads)), wait_before),
        call_ensures(HandlerShared::signal_start_all, (&shared, threads), ()),
        call_ensures(HandlerShared::wait_for_start_all, (&shared, &*final(threads)), wait_after),
    ensures
        shutdown@.len() == shared@.senders.len(),
        shutdown@[i] == (Request::Send { to: shared@.senders[i], message: Message::Shutdown }),
        terminate@.len() == shared@.senders.len(),
        terminate@[i] == (Request::Send { to: shared@.senders[i], message: Message::Terminate }),
        own == shared@.senders[shared@.thread_id as int],
        other == shared@.senders[to as int],
        wait_before <==> old(threads).mioco_started == 0,
        !wait_after,
        final(threads).coroutines_num == old(threads).coroutines_num,
        final(threads).thread_num == old(threads).thread_num,
{
}

/// What is queued for the scheduler is queued behind what is there; the children of the executed
/// coroutine come behind those that were spawned before, in their order. Nothing else changes.
pub proof fn law_queues_keep_their_order(
    spawning: &mut HandlerShared,
    readying: &mut HandlerShared,
    ctrl: CoroutineControl,
    starting: &mut HandlerShared,
)
    requires
        call_ensures(HandlerShared::add_spawned, (spawning, ctrl), ()),
        call_ensures(HandlerShared::add_ready, (readying, ctrl), ()),
        call_ensures(HandlerShared::start_children, (starting,), ()),
    ensures
        final(spawning)@.spawned == old(spawning)@.spawned.push(ctrl),
        final(spawning)@.ready == old(spawning)@.ready,
        final(spawning)@.children_to_start == old(spawning)@.children_to_start,
        same_thread(old(spawning)@, final(spawning)@),
        final(spawning)@.items == old(spawning)@.items,
        final(readying)@.ready == old(readying)@.ready.push(ctrl),
        final(readying)@.spawned == old(readying)@.spawned,
        final(readying)@.children_to_start == old(readying)@.children_to_start,
        same_thread(old(readying)@, final(readying)@),
        final(readying)@.items == old(readying)@.items,
        final(starting)@.spawned == old(starting)@.spawned + old(starting)@.children_to_start,
        final(starting)@.children_to_start.len() == 0,
        final(starting)@.ready == old(starting)@.ready,
        same_thread(old(starting)@, final(starting)@),
        final(starting)@.items == old(starting)@.items,
{
}

/// Both are of the same thread of the same instance.
pub open spec fn same_thread(pre: SharedView, post: SharedView) -> bool {
    &&& post.thread_id == pre.thread_id
    &&& post.senders == pre.senders
    &&& post.coroutine_config == pre.coroutine_config
}

/// A coroutine that is attached gets a slot that was free, and is found there; whoever had a slot
/// keeps it. There are twice as many slots when all were in use, and as many as before otherwise.
pub proof fn law_attached_coroutines_have_their_own_slot(
    shared: &mut HandlerShared,
    key: u64,
    id: usize,
    other: usize,
    before: Option<u64>,
    after: Option<u64>,
    found: Option<u64>,
    there: bool,
)
    requires
        call_ensures(HandlerShared::attach, (shared, key), id),
        call_ensures(HandlerShared::coroutine, (&*old(shared), other), before),
        call_ensures(HandlerShared::coroutine, (&*final(shared), other), after),
        call_ensures(HandlerShared::coroutine, (&*final(shared), id), found),
        call_ensures(HandlerShared::contains, (&*final(shared), id), there),
    ensures
        !old(shared)@.items.contains_key(id),
        found == Some(key),
        there,
        other != id ==> after == before,
        final(shared)@.slots == if old(shared)@.items.len() < old(shared)@.slots {
            old(shared)@.slots
        } else {
            2 * old(shared)@.slots
        },
        final(shared)@.spawned == old(shared)@.spawned,
        final(shared)@.ready == old(shared)@.ready,
        final(shared)@.children_to_start == old(shared)@.children_to_start,
        same_thread(old(shared)@, final(shared)@),
{
}

/// A coroutine that is made on a thread has not started, belongs to the thread, and has the user data
/// that was given, for itself and for its children. No other coroutine changes.
pub proof fn law_made_coroutines_belong_to_their_thread(
    shared: &mut HandlerShared,
    table: &mut CoroutineTable,
    threads: &mut HandlerThreadShared,
    user_data: Option<UserData>,
    key: u64,
    other: u64,
)
    requires
        old(table).wf(),
        old(threads).coroutines_num < usize::MAX,
        call_ensures(HandlerShared::spawn, (shared, table, threads, user_data), key),
    ensures
        !old(table)@.contains_key(key),
        final(table)@.contains_key(key),
        ({
            let co = final(table)@[key];
            &&& co.state is Ready
            &&& co.handler == Some(old(shared)@.thread_id)
            &&& !old(shared)@.items.contains_key(co.id)
            &&& final(shared)@.items == old(shared)@.items.insert(co.id, key)
            &&& co.user_data == user_data
            &&& co.inherited_user_data == user_data
            &&& co.blocked_on.len() == 0
            &&& co.released.len() == 0
            &&& co.exit_notificators.len() == 0
            &&& co.sync_channel is None
            &&& !co.last_event.rw.read && !co.last_event.rw.write
        }),
        final(table).next_key() > key,
        final(threads).coroutines_num == old(threads).coroutines_num + 1,
        final(threads).thread_num == old(threads).thread_num,
        final(threads).mioco_started == old(threads).mioco_started,
        final(shared)@.spawned == old(shared)@.spawned,
        final(shared)@.ready == old(shared)@.ready,
        final(shared)@.children_to_start == old(shared)@.children_to_start,
        same_thread(old(shared)@, final(shared)@),
        other != key ==> (final(table)@.contains_key(other) <==> old(table)@.contains_key(other))
            && (old(table)@.contains_key(other) ==> final(table)@[other] == old(table)@[other]),
{
}

/// A coroutine that is attached to another thread belongs to that one from then on, in a slot of its
/// own, and is the same in everything else. No other coroutine changes.
pub proof fn law_reattached_coroutines_are_the_same(
    ctrl: CoroutineControl,
    table: &mut CoroutineTable,
    shared: &mut HandlerShared,
    other: u64,
)
    requires
        old(table)@.contains_key(ctrl.key()),
        call_ensures(CoroutineControl::reattach_to, (&ctrl, table, shared), ()),
    ensures
        ({
            let before = old(table)@[ctrl.key()];
            let after = final(table)@[ctrl.key()];
            &&& after.handler == Some(old(shared)@.thread_id)
            &&& !old(shared)@.items.contains_key(after.id)
            &&& final(shared)@.items == old(shared)@.items.insert(after.id, ctrl.key())
            &&& after.state == before.state
            &&& after.blocked_on == before.blocked_on
            &&& after.released == before.released
            &&& after.last_event == before.last_event
            &&& after.exit_notificators == before.exit_notificators
            &&& after.sync_channel == before.sync_channel
            &&& after.user_data == before.user_data
            &&& after.inherited_user_data == before.inherited_user_data
        }),
        final(shared)@.spawned == old(shared)@.spawned,
        final(shared)@.ready == old(shared)@.ready,
        final(shared)@.children_to_start == old(shared)@.children_to_start,
        same_thread(old(shared)@, final(shared)@),
        final(table)@.contains_key(other) <==> old(table)@.contains_key(other),
        old(table)@.contains_key(other) && other != ctrl.key() ==> final(table)@[other] == old(
            table,
        )@[other],
{
}

/// A new thread has no coroutines and nothing queued, and knows its number, the other threads and the
/// configuration of its coroutines.
pub proof fn law_new_threads_have_no_coroutines(
    senders: Vec<MioSender>,
    config: Config,
    thread_id: usize,
    made: HandlerShared,
    number: usize,
    configured: Config,
    id: usize,
)
    requires
        call_ensures(HandlerShared::new, (senders, config, thread_id), made),
        call_ensures(HandlerShared::thread_id, (&made,), number),
        call_ensures(HandlerShared::coroutine_config, (&made,), configured),
    ensures
        !made@.items.contains_key(id),
        made@.slots == 512,
        made@.spawned.len() == 0,
        made@.ready.len() == 0,
        made@.children_to_start.len() == 0,
        made@.senders == senders@,
        number == thread_id,
        configured == config,
{
}

/// A thread tells how many threads and slots there are, and whether it can take one more coroutine.
pub proof fn law_threads_tell_what_they_have(
    shared: HandlerShared,
    threads: HandlerThreadShared,
    thread_num: usize,
    senders: usize,
    slots: usize,
    can_attach: bool,
)
    requires
        call_ensures(HandlerShared::thread_num, (&shared, &threads), thread_num),
        call_ensures(HandlerShared::sender_count, (&shared,), senders),
        call_ensures(HandlerShared::slots, (&shared,), slots),
        call_ensures(HandlerShared::can_attach, (&shared,), can_attach),
    ensures
        thread_num == threads.thread_num,
        senders == shared@.senders.len(),
        slots == shared@.slots,
        can_attach <==> shared@.items.len() < shared@.slots || 2 * shared@.slots <= max_co_id(),
{
}

} // verus!
