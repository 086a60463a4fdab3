//! Coroutines: their state, what they are blocked on, and how events wake them up.

use crate::event::{
    token_to_ids, Event, EventSet, EventSourceId, Token, EVENT_SOURCE_TOKEN_MASK, RW,
};
use crate::evented::{EventSourceCommon, RcEventSource};
use crate::request::Request;
use crate::sync::mpsc::Sender;
use std::collections::VecDeque;
use vstd::prelude::*;

verus! {

/// User data of a coroutine: a value with the type that it was set with.
#[derive(Copy, Clone, Debug, Eq, PartialEq, Structural)]
pub struct UserData {
    /// Number of the type.
    pub type_id: u64,
    /// Number of the value.
    pub value: u64,
}

impl UserData {
    /// The value, if there is one of the given type.
    pub open spec fn value_of(data: Option<UserData>, type_id: u64) -> Option<u64> {
        match data {
            Some(data) => if data.type_id == type_id {
                Some(data.value)
            } else {
                None
            },
            None => None,
        }
    }

    /// The value, if there is one of the given type.
    pub fn get(data: &Option<UserData>, type_id: u64) -> (value: Option<u64>)
        ensures
            value == UserData::value_of(*data, type_id),
    {
        match data {
            Some(data) => {
                if data.type_id == type_id {
                    Some(data.value)
                } else {
                    None
                }
            },
            None => None,
        }
    }
}

/// How a coroutine ended.
#[derive(Copy, Clone, Debug, Eq, PartialEq, Structural)]
pub enum ExitStatus {
    /// Its function returned.
    Exit,
    /// It panicked, or was forced to.
    Panic,
}

impl ExitStatus {
    /// Did the coroutine panic?
    pub fn is_panic(&self) -> (yes: bool)
        ensures
            yes == (*self is Panic),
    {
        match self {
            ExitStatus::Exit => false,
            ExitStatus::Panic => true,
        }
    }
}

/// State of a coroutine.
#[derive(Copy, Clone, Debug, Eq, PartialEq, Structural)]
pub enum State {
    /// Can be resumed.
    Ready,
    /// Is being executed.
    Running,
    /// Waits for an event.
    Blocked,
    /// Has yielded.
    Yielding,
    /// Has ended.
    Finished(ExitStatus),
}

impl State {
    /// Can the coroutine be resumed?
    pub fn is_ready(&self) -> (yes: bool)
        ensures
            yes == (*self is Ready),
    {
        matches!(self, State::Ready)
    }

    /// Has the coroutine yielded?
    pub fn is_yielding(&self) -> (yes: bool)
        ensures
            yes == (*self is Yielding),
    {
        matches!(self, State::Yielding)
    }
}

/// Configuration of coroutines.
#[derive(Copy, Clone, Debug, Eq, PartialEq, Structural)]
pub struct Config {
    /// Stack size in bytes.
    pub stack_size: usize,
    /// Stacks have a guard page.
    pub stack_protection: bool,
    /// Panics are caught where the coroutine ends.
    pub catch_panics: bool,
}

impl Default for Config {
    /// Stacks of 2MB with a guard page; panics are caught.
    fn default() -> (config: Self)
        ensures
            config == (Config {
                stack_size: 2097152,
                stack_protection: true,
                catch_panics: true,
            }),
    {
        Config { stack_size: 2097152, stack_protection: true, catch_panics: true }
    }
}

/// Control data of one coroutine.
#[derive(Debug)]
pub struct Coroutine {
    pub(crate) state: State,
    /// Slot in the slab of its thread.
    pub(crate) id: usize,
    /// Thread that it belongs to.
    pub(crate) handler: Option<usize>,
    pub(crate) blocked_on: Vec<RcEventSource<u64>>,
    pub(crate) released: Vec<RcEventSource<u64>>,
    pub(crate) last_event: Event,
    pub(crate) exit_notificators: VecDeque<Sender>,
    pub(crate) sync_channel: Option<u64>,
    pub(crate) user_data: Option<UserData>,
    pub(crate) inherited_user_data: Option<UserData>,
}

/// What a coroutine is, as contracts describe it.
#[verifier::ext_equal]
pub struct CoroutineView {
    /// State.
    pub state: State,
    /// Slot in the slab of its thread.
    pub id: usize,
    /// Thread that it belongs to, if it is not on its way to another one.
    pub handler: Option<usize>,
    /// Event sources that it is blocked on, or is about to block on.
    pub blocked_on: Seq<RcEventSource<u64>>,
    /// Event sources that it was blocked on last.
    pub released: Seq<RcEventSource<u64>>,
    /// The event that it was woken up by last.
    pub last_event: Event,
    /// Where its exit status will be sent.
    pub exit_notificators: Seq<Sender>,
    /// The channel that it waits for synchronous operations on, if it has one.
    pub sync_channel: Option<u64>,
    /// User data.
    pub user_data: Option<UserData>,
    /// User data that its children get.
    pub inherited_user_data: Option<UserData>,
}

impl View for Coroutine {
    type V = CoroutineView;

    closed spec fn view(&self) -> CoroutineView {
        CoroutineView {
            state: self.state,
            id: self.id,
            handler: self.handler,
            blocked_on: self.blocked_on@,
            released: self.released@,
            last_event: self.last_event,
            exit_notificators: self.exit_notificators@,
            sync_channel: self.sync_channel,
            user_data: self.user_data,
            inherited_user_data: self.inherited_user_data,
        }
    }
}

/// The part of `events` that a source blocked on `blocked_on` waits for.
///
/// A hang-up counts as something to read, to let the coroutine fail the read and move on.
pub open spec fn delivered(blocked_on: RW, events: EventSet) -> RW {
    RW {
        read: blocked_on.read && (events.readable || events.hup),
        write: blocked_on.write && events.writable,
    }
}

/// A source after it has seen `events`.
pub open spec fn after_events(source: RcEventSource<u64>, events: EventSet) -> RcEventSource<u64> {
    RcEventSource(
        crate::evented::RcEventSourceShared {
            common: EventSourceCommon {
                peer_hup: source.0.common.peer_hup || events.hup,
                ..source.0.common
            },
            io: source.0.io,
        },
    )
}

impl CoroutineView {
    /// What always holds of a coroutine.
    ///
    /// There is nothing that it is blocked on unless it is blocked or about to block. A source may
    /// have been added more than once: its entries are the same, and their id is the last of their
    /// places.
    pub open spec fn wf(self) -> bool {
        &&& self.blocked_on.len() <= EVENT_SOURCE_TOKEN_MASK + 1
        &&& forall|i: int|
            0 <= i < self.blocked_on.len() ==> self.leads_back(#[trigger] self.blocked_on[i], i)
        &&& forall|i: int, j: int|
            0 <= i < self.blocked_on.len() && 0 <= j < self.blocked_on.len() && (
            #[trigger] self.blocked_on[i]).0.io == (#[trigger] self.blocked_on[j]).0.io
                ==> self.blocked_on[i] == self.blocked_on[j]
        &&& self.blocked_on.len() > 0 ==> self.state is Running || self.state is Blocked
    }

    /// The id of `source`, which stands at place `i`, is the last place of the same source.
    pub open spec fn leads_back(self, source: RcEventSource<u64>, i: int) -> bool {
        match source.common().id {
            Some(id) => i <= id.0 < self.blocked_on.len() && self.blocked_on[id.0 as int] == source,
            None => false,
        }
    }

    /// The requests that register everything the coroutine is blocked on.
    pub open spec fn registrations(self) -> Seq<Request> {
        Seq::new(
            self.blocked_on.len(),
            |i: int|
                Request::Register {
                    io: self.blocked_on[i].0.io,
                    token: self.blocked_on[i].common().token(self.id),
                    interest: self.blocked_on[i].common().interest(),
                },
        )
    }

    /// The requests that deregister everything the coroutine is blocked on.
    pub open spec fn deregistrations(self) -> Seq<Request> {
        Seq::new(
            self.blocked_on.len(),
            |i: int|
                Request::Deregister {
                    io: self.blocked_on[i].0.io,
                    token: self.blocked_on[i].common().token(self.id),
                },
        )
    }

    /// The place of the event source that a token encodes.
    pub open spec fn place(token: Token) -> int {
        token.0 as int % 1024
    }

    /// The coroutine is blocked on the source of the token.
    pub open spec fn waits_for(self, token: Token) -> bool {
        self.state is Blocked && Self::place(token) < self.blocked_on.len()
    }

    /// The directions in which `events` of the source of the token wake the coroutine up.
    pub open spec fn woken_in(self, token: Token, events: EventSet) -> RW {
        if self.waits_for(token) {
            delivered(self.blocked_on[Self::place(token)].common().blocked_on, events)
        } else {
            RW { read: false, write: false }
        }
    }

    /// What the coroutine is blocked on after `events` of the source `io`: each entry of the source
    /// has seen them.
    pub open spec fn seen(self, io: u64, events: EventSet) -> Seq<RcEventSource<u64>> {
        Seq::new(
            self.blocked_on.len(),
            |i: int|
                if self.blocked_on[i].0.io == io {
                    after_events(self.blocked_on[i], events)
                } else {
                    self.blocked_on[i]
                },
        )
    }

    /// The coroutine after `events` of the source of the token.
    pub open spec fn after_event(self, token: Token, events: EventSet) -> CoroutineView {
        let i = Self::place(token);
        let seen = self.seen(self.blocked_on[i].0.io, events);
        if !self.waits_for(token) {
            self
        } else if self.woken_in(token, events).nothing() {
            CoroutineView { blocked_on: seen, ..self }
        } else {
            CoroutineView {
                state: State::Ready,
                blocked_on: Seq::empty(),
                released: seen,
                last_event: Event {
                    id: EventSourceId(i as usize),
                    rw: self.woken_in(token, events),
                },
                ..self
            }
        }
    }

    /// The requests that `events` of the source of the token lead to: an event that wakes the
    /// coroutine up ends all its registrations, any other is registered for again.
    pub open spec fn event_requests(self, token: Token, events: EventSet) -> Seq<Request> {
        let i = Self::place(token);
        let source = after_events(self.blocked_on[i], events);
        if !self.waits_for(token) {
            Seq::empty()
        } else if self.woken_in(token, events).nothing() {
            seq![
                Request::Reregister {
                    io: source.0.io,
                    token: source.common().token(self.id),
                    interest: source.common().interest(),
                },
            ]
        } else {
            self.deregistrations()
        }
    }

    /// The coroutine with one more source to block on.
    ///
    /// What is asked of a source that was added before replaces what was asked of it then.
    pub open spec fn with_source(self, io: u64, common: EventSourceCommon, rw: RW) -> CoroutineView {
        let added = RcEventSource(
            crate::evented::RcEventSourceShared { common: self.placed(common, rw), io },
        );
        CoroutineView {
            blocked_on: Seq::new(
                self.blocked_on.len(),
                |i: int|
                    if self.blocked_on[i].0.io == io {
                        added
                    } else {
                        self.blocked_on[i]
                    },
            ).push(added),
            ..self
        }
    }

    /// The control data of the next source that the coroutine is going to block on.
    pub open spec fn placed(self, common: EventSourceCommon, rw: RW) -> EventSourceCommon {
        EventSourceCommon {
            id: Some(EventSourceId(self.blocked_on.len() as usize)),
            blocked_on: rw,
            ..common
        }
    }

    /// The requests that send the exit status to everyone who waits for it.
    pub open spec fn exit_requests(self, status: ExitStatus) -> Seq<Request> {
        Seq::new(
            self.exit_notificators.len(),
            |i: int| Request::Exited { over: self.exit_notificators[i], status },
        )
    }

    /// The coroutine after it has ended.
    pub open spec fn finished(self, status: ExitStatus) -> CoroutineView {
        CoroutineView {
            state: State::Finished(status),
            blocked_on: Seq::empty(),
            exit_notificators: Seq::empty(),
            ..self
        }
    }
}

/// A coroutine that has not started, with its user data, and that belongs to no thread yet.
pub open spec fn new_coroutine(user_data: Option<UserData>) -> CoroutineView {
    CoroutineView {
        state: State::Ready,
        id: 0,
        handler: None,
        blocked_on: Seq::empty(),
        released: Seq::empty(),
        last_event: Event { id: EventSourceId(0), rw: RW { read: false, write: false } },
        exit_notificators: Seq::empty(),
        sync_channel: None,
        user_data,
        inherited_user_data: user_data,
    }
}

impl Coroutine {
    /// A coroutine that has not started. Its children will get the same user data.
    pub(crate) fn new(user_data: Option<UserData>) -> (made: Self)
        ensures
            made@ == new_coroutine(user_data),
            made@.wf(),
    {
        let made = Coroutine {
            state: State::Ready,
            id: 0,
            handler: None,
            blocked_on: Vec::new(),
            released: Vec::new(),
            last_event: Event { id: EventSourceId(0), rw: RW::none() },
            exit_notificators: VecDeque::new(),
            sync_channel: None,
            user_data,
            inherited_user_data: user_data,
        };
        assert(made@ =~= new_coroutine(user_data));
        made
    }

    /// State of the coroutine.
    pub fn state(&self) -> (state: State)
        ensures
            state == self@.state,
    {
        self.state
    }

    /// Slot in the slab of its thread.
    pub fn id(&self) -> (id: usize)
        ensures
            id == self@.id,
    {
        self.id
    }

    /// Thread that the coroutine belongs to.
    pub fn handler(&self) -> (handler: Option<usize>)
        ensures
            handler == self@.handler,
    {
        self.handler
    }

    /// User data.
    pub fn user_data(&self) -> (user_data: Option<UserData>)
        ensures
            user_data == self@.user_data,
    {
        self.user_data
    }

    /// User data that the children of the coroutine get.
    pub fn inherited_user_data(&self) -> (user_data: Option<UserData>)
        ensures
            user_data == self@.inherited_user_data,
    {
        self.inherited_user_data
    }

    /// The requests that register everything the coroutine is blocked on.
    pub fn register_all(&self) -> (requests: Vec<Request>)
        requires
            self@.wf(),
        ensures
            requests@ == self@.registrations(),
    {
        let mut requests: Vec<Request> = Vec::new();
        let len: usize = self.blocked_on.len();
        for i in 0..len
            invariant
                len == self@.blocked_on.len(),
                self@.wf(),
                requests@ == self@.registrations().take(i as int),
        {
            let source: &RcEventSource<u64> = &self.blocked_on[i];
            assert(*source == self@.blocked_on[i as int]);
            let (token, interest) = source.register(self.id);
            requests.push(Request::Register { io: source.0.io, token, interest });
            assert(requests@ =~= self@.registrations().take(i + 1));
        }
        assert(self@.registrations().take(len as int) =~= self@.registrations());
        requests
    }

    fn deregister_all(&self) -> (requests: Vec<Request>)
        requires
            self@.wf(),
        ensures
            requests@ == self@.deregistrations(),
    {
        let mut requests: Vec<Request> = Vec::new();
        let len: usize = self.blocked_on.len();
        for i in 0..len
            invariant
                len == self@.blocked_on.len(),
                self@.wf(),
                requests@ == self@.deregistrations().take(i as int),
        {
            let source: &RcEventSource<u64> = &self.blocked_on[i];
            assert(*source == self@.blocked_on[i as int]);
            let token: Token = source.deregister(self.id);
            requests.push(Request::Deregister { io: source.0.io, token });
            assert(requests@ =~= self@.deregistrations().take(i + 1));
        }
        assert(self@.deregistrations().take(len as int) =~= self@.deregistrations());
        requests
    }

    /// An event has come for the source of a token.
    ///
    /// Returns whether it makes the coroutine ready, and what is to be done outside. Events that
    /// the coroutine does not wait for are ignored; they come, for example, after a select in which
    /// more than one source became ready.
    pub fn event(&mut self, token: Token, events: EventSet) -> (outcome: (bool, Vec<Request>))
        requires
            old(self)@.wf(),
        ensures
            final(self)@ == old(self)@.after_event(token, events),
            final(self)@.wf(),
            outcome.0 == !old(self)@.woken_in(token, events).nothing(),
            outcome.1@ == old(self)@.event_requests(token, events),
    {
        let (_, source_id) = token_to_ids(token);
        let i: usize = source_id.as_usize();
        let blocked: bool = matches!(self.state, State::Blocked);
        if !blocked || i >= self.blocked_on.len() {
            return (false, Vec::new());
        }
        let ghost before = self@;
        assert(before.blocked_on[i as int].common().placed());
        let io: u64 = self.blocked_on[i].0.io;
        let ghost seen = before.seen(io, events);
        if events.hup {
            self.hup(io, events);
        }
        assert(self.blocked_on@ =~= seen);
        let blocked_on: RW = self.blocked_on[i].blocked_on();
        let rw: RW = RW {
            read: blocked_on.has_read() && (events.readable || events.hup),
            write: blocked_on.has_write() && events.writable,
        };
        assert(rw == before.woken_in(token, events));
        assert(self@ =~= CoroutineView { blocked_on: seen, ..before });
        if !rw.has_read() && !rw.has_write() {
            let (token, interest) = self.blocked_on[i].reregister(self.id);
            let mut requests: Vec<Request> = Vec::new();
            requests.push(Request::Reregister { io: self.blocked_on[i].0.io, token, interest });
            return (false, requests);
        }
        let requests: Vec<Request> = self.deregister_all();
        assert(requests@ =~= before.deregistrations());
        self.state = State::Ready;
        self.last_event = Event { id: source_id, rw };
        let mut none: Vec<RcEventSource<u64>> = Vec::new();
        std::mem::swap(&mut self.blocked_on, &mut none);
        self.released = none;
        assert(self@ =~= before.after_event(token, events));
        (true, requests)
    }

    /// `events`, a hang-up among them, have come for the source `io`.
    fn hup(&mut self, io: u64, events: EventSet)
        requires
            events.hup,
        ensures
            final(self)@ == (CoroutineView {
                blocked_on: old(self)@.seen(io, events),
                ..old(self)@
            }),
    {
        let len: usize = self.blocked_on.len();
        for i in 0..len
            invariant
                events.hup,
                len == self.blocked_on.len(),
                len == old(self)@.blocked_on.len(),
                forall|j: int|
                    0 <= j < i ==> #[trigger] self.blocked_on@[j] == old(self)@.seen(
                        io,
                        events,
                    )[j],
                forall|j: int| i <= j < len ==> #[trigger] self.blocked_on@[j] == old(self)@.blocked_on[j],
                self@ == (CoroutineView { blocked_on: self.blocked_on@, ..old(self)@ }),
        {
            if self.blocked_on[i].0.io == io {
                self.blocked_on[i].hup();
            }
            assert(self@ =~= CoroutineView { blocked_on: self.blocked_on@, ..old(self)@ });
        }
    }

    /// Adds an event source to those that the coroutine is about to block on.
    ///
    /// Returns the control data of the source, with its place as id.
    pub fn select_add(&mut self, io: u64, common: EventSourceCommon, rw: RW) -> (added:
        EventSourceCommon)
        requires
            old(self)@.wf(),
            old(self)@.state is Running,
            old(self)@.blocked_on.len() <= EVENT_SOURCE_TOKEN_MASK,
        ensures
            added == old(self)@.placed(common, rw),
            final(self)@ == old(self)@.with_source(io, common, rw),
            final(self)@.wf(),
    {
        let id: usize = self.blocked_on.len();
        let added = EventSourceCommon {
            id: Some(EventSourceId::new(id)),
            blocked_on: rw,
            ..common
        };
        let ghost after = old(self)@.with_source(io, common, rw);
        for i in 0..id
            invariant
                id == self.blocked_on.len(),
                id == old(self)@.blocked_on.len(),
                after == old(self)@.with_source(io, common, rw),
                added == old(self)@.placed(common, rw),
                forall|j: int| 0 <= j < i ==> #[trigger] self.blocked_on@[j] == after.blocked_on[j],
                forall|j: int| i <= j < id ==> #[trigger] self.blocked_on@[j] == old(self)@.blocked_on[j],
                self@ == (CoroutineView { blocked_on: self.blocked_on@, ..old(self)@ }),
        {
            if self.blocked_on[i].0.io == io {
                self.blocked_on[i].0.common = added;
            }
            assert(self@ =~= CoroutineView { blocked_on: self.blocked_on@, ..old(self)@ });
        }
        self.blocked_on.push(RcEventSource(crate::evented::RcEventSourceShared { common: added, io }));
        assert(self@ =~= after);
        added
    }

    /// Blocks the coroutine on the sources that were added.
    pub fn select_wait(&mut self)
        requires
            old(self)@.wf(),
            old(self)@.state is Running,
        ensures
            final(self)@ == (CoroutineView { state: State::Blocked, ..old(self)@ }),
            final(self)@.wf(),
    {
        self.state = State::Blocked;
        assert(self@ =~= CoroutineView { state: State::Blocked, ..old(self)@ });
    }

    /// Blocks the coroutine on one source.
    pub fn block_on(&mut self, io: u64, common: EventSourceCommon, rw: RW) -> (added:
        EventSourceCommon)
        requires
            old(self)@.wf(),
            old(self)@.state is Running,
            old(self)@.blocked_on.len() == 0,
        ensures
            added == old(self)@.placed(common, rw),
            final(self)@ == (CoroutineView {
                state: State::Blocked,
                ..old(self)@.with_source(io, common, rw)
            }),
            final(self)@.wf(),
    {
        let added: EventSourceCommon = self.select_add(io, common, rw);
        self.select_wait();
        added
    }

    /// How many event sources the coroutine is blocked on, or is about to block on.
    pub fn blocked_on_len(&self) -> (n: usize)
        ensures
            n == self@.blocked_on.len(),
    {
        self.blocked_on.len()
    }

    /// The event that woke the coroutine up last.
    pub fn last_event(&self) -> (event: Event)
        ensures
            event == self@.last_event,
    {
        self.last_event
    }

    /// Control data of the source with the given place, as it came back from the last block.
    pub fn released(&self, id: EventSourceId) -> (common: Option<EventSourceCommon>)
        ensures
            common is Some <==> id.0 < self@.released.len(),
            common is Some ==> common->Some_0 == self@.released[id.0 as int].common(),
    {
        if id.0 < self.released.len() {
            Some(self.released[id.0].0.common)
        } else {
            None
        }
    }

    /// Yields the coroutine.
    pub fn yield_now(&mut self)
        requires
            old(self)@.wf(),
            old(self)@.state is Running,
            old(self)@.blocked_on.len() == 0,
        ensures
            final(self)@ == (CoroutineView { state: State::Yielding, ..old(self)@ }),
            final(self)@.wf(),
    {
        self.state = State::Yielding;
        assert(self@ =~= CoroutineView { state: State::Yielding, ..old(self)@ });
    }

    /// Makes the coroutine ready after it has yielded.
    pub fn unblock_after_yield(&mut self)
        requires
            old(self)@.wf(),
            old(self)@.state is Yielding,
        ensures
            final(self)@ == (CoroutineView { state: State::Ready, ..old(self)@ }),
            final(self)@.wf(),
    {
        self.state = State::Ready;
        assert(self@ =~= CoroutineView { state: State::Ready, ..old(self)@ });
    }

    /// Ends the coroutine.
    ///
    /// Returns the requests that send its exit status to everyone who waits for it.
    pub fn finish(&mut self, status: ExitStatus) -> (requests: Vec<Request>)
        requires
            old(self)@.wf(),
        ensures
            requests@ == old(self)@.exit_requests(status),
            final(self)@ == old(self)@.finished(status),
            final(self)@.wf(),
    {
        let ghost before = self@;
        self.state = State::Finished(status);
        self.blocked_on = Vec::new();
        let mut waiting: VecDeque<Sender> = VecDeque::new();
        std::mem::swap(&mut self.exit_notificators, &mut waiting);
        assert(self@ =~= before.finished(status));
        let mut requests: Vec<Request> = Vec::new();
        let len: usize = waiting.len();
        for i in 0..len
            invariant
                len == before.exit_notificators.len(),
                waiting@ == before.exit_notificators.skip(i as int),
                requests@ == before.exit_requests(status).take(i as int),
        {
            let over: Sender = waiting.pop_front().unwrap();
            requests.push(Request::Exited { over, status });
            assert(before.exit_notificators.skip(i as int).skip(1)
                =~= before.exit_notificators.skip(i + 1));
            assert(requests@ =~= before.exit_requests(status).take(i + 1));
        }
        assert(before.exit_requests(status).take(len as int) =~= before.exit_requests(status));
        requests
    }

    /// The coroutine belongs to the thread with the given number from now on.
    pub(crate) fn attach_to(&mut self, thread_id: usize, id: usize)
        requires
            old(self)@.wf(),
        ensures
            final(self)@ == (CoroutineView { id, handler: Some(thread_id), ..old(self)@ }),
            final(self)@.wf(),
    {
        self.id = id;
        self.handler = Some(thread_id);
        assert(self@ =~= CoroutineView { id, handler: Some(thread_id), ..old(self)@ });
    }

    /// The coroutine belongs to no thread any more.
    pub(crate) fn detach_from(&mut self)
        requires
            old(self)@.wf(),
        ensures
            final(self)@ == (CoroutineView { handler: None, ..old(self)@ }),
            final(self)@.wf(),
    {
        self.handler = None;
        assert(self@ =~= CoroutineView { handler: None, ..old(self)@ });
    }

    /// The coroutine is being executed from now on.
    pub(crate) fn run(&mut self)
        requires
            old(self)@.wf(),
        ensures
            final(self)@ == (CoroutineView { state: State::Running, ..old(self)@ }),
            final(self)@.wf(),
    {
        self.state = State::Running;
        assert(self@ =~= CoroutineView { state: State::Running, ..old(self)@ });
    }

    /// Sets the user data.
    pub(crate) fn set_user_data(&mut self, user_data: Option<UserData>)
        requires
            old(self)@.wf(),
        ensures
            final(self)@ == (CoroutineView { user_data, ..old(self)@ }),
            final(self)@.wf(),
    {
        self.user_data = user_data;
        assert(self@ =~= CoroutineView { user_data, ..old(self)@ });
    }

    /// Sets the user data that the children of the coroutine get.
    pub(crate) fn set_inherited_user_data(&mut self, inherited_user_data: Option<UserData>)
        requires
            old(self)@.wf(),
        ensures
            final(self)@ == (CoroutineView { inherited_user_data, ..old(self)@ }),
            final(self)@.wf(),
    {
        self.inherited_user_data = inherited_user_data;
        assert(self@ =~= CoroutineView { inherited_user_data, ..old(self)@ });
    }

    /// The channel that the coroutine waits for synchronous operations on, if it has one.
    pub fn sync_channel(&self) -> (key: Option<u64>)
        ensures
            key == self@.sync_channel,
    {
        self.sync_channel
    }

    /// Sets the channel that the coroutine waits for synchronous operations on.
    pub(crate) fn set_sync_channel(&mut self, key: u64)
        requires
            old(self)@.wf(),
        ensures
            final(self)@ == (CoroutineView { sync_channel: Some(key), ..old(self)@ }),
            final(self)@.wf(),
    {
        self.sync_channel = Some(key);
        assert(self@ =~= CoroutineView { sync_channel: Some(key), ..old(self)@ });
    }

    /// Adds a channel that the exit status will be sent over.
    pub(crate) fn add_exit_notificator(&mut self, over: Sender)
        requires
            old(self)@.wf(),
        ensures
            final(self)@ == (CoroutineView {
                exit_notificators: old(self)@.exit_notificators.push(over),
                ..old(self)@
            }),
            final(self)@.wf(),
    {
        self.exit_notificators.push_back(over);
        assert(self@ =~= CoroutineView {
            exit_notificators: old(self)@.exit_notificators.push(over),
            ..old(self)@
        });
    }
}

/// Events wake a coroutine up as it has asked: it goes on only in directions that it waits for in
/// the source that the event is of, and in at least one of them; the event carries the id of the
/// source that is registered with the token.
pub proof fn law_woken_as_asked(co: CoroutineView, token: Token, events: EventSet)
    requires
        co.wf(),
        co.id <= crate::event::max_co_id(),
        !co.woken_in(token, events).nothing(),
    ensures
        ({
            let after = co.after_event(token, events);
            let source = co.blocked_on[CoroutineView::place(token)];
            let asked = source.common().blocked_on;
            &&& co.state is Blocked
            &&& after.state is Ready
            &&& after.last_event.rw.read ==> asked.read
            &&& after.last_event.rw.write ==> asked.write
            &&& asked.read || after.last_event.rw.write
            &&& asked.write || after.last_event.rw.read
            &&& forall|i: int|
                0 <= i < co.blocked_on.len() && (#[trigger] co.blocked_on[i]).common().token(co.id)
                    == token ==> {
                    &&& co.blocked_on[i] == source
                    &&& co.blocked_on[i].common().id == Some(after.last_event.id)
                }
        }),
{
    assert forall|i: int|
        0 <= i < co.blocked_on.len() && (#[trigger] co.blocked_on[i]).common().token(co.id)
            == token implies co.blocked_on[i].common().id == Some(
        EventSourceId(CoroutineView::place(token) as usize),
    ) by {
        law_sources_have_their_own_tokens(co, i);
    }
}

/// Events that a coroutine does not wait for change nothing, and nothing is done about them.
pub proof fn law_spurious_events_are_ignored(co: CoroutineView, token: Token, events: EventSet)
    requires
        !co.waits_for(token),
    ensures
        co.after_event(token, events) == co,
        co.event_requests(token, events) == Seq::<Request>::empty(),
        co.woken_in(token, events).nothing(),
{
}

/// A blocked reader is always woken up by a hang-up, so that its read can fail.
pub proof fn law_hang_up_wakes_readers(co: CoroutineView, token: Token, events: EventSet)
    requires
        co.waits_for(token),
        co.blocked_on[CoroutineView::place(token)].common().blocked_on.read,
        events.hup,
    ensures
        !co.woken_in(token, events).nothing(),
        co.after_event(token, events).released[CoroutineView::place(token)].common().peer_hup,
{
}

/// While a coroutine is blocked on several sources, the tokens of the sources differ, and each
/// leads back to its source; a source that was added more than once has one token.
pub proof fn law_sources_have_their_own_tokens(co: CoroutineView, i: int)
    requires
        co.wf(),
        co.id <= crate::event::max_co_id(),
        0 <= i < co.blocked_on.len(),
    ensures
        ({
            let source = co.blocked_on[i];
            let place = CoroutineView::place(source.common().token(co.id));
            &&& source.common().id == Some(EventSourceId(place as usize))
            &&& place < co.blocked_on.len()
            &&& co.blocked_on[place] == source
        }),
        forall|j: int|
            0 <= j < co.blocked_on.len() ==> ((#[trigger] co.blocked_on[j]).common().token(co.id)
                == co.blocked_on[i].common().token(co.id) <==> co.blocked_on[j].0.io
                == co.blocked_on[i].0.io),
{
    assert forall|j: int| 0 <= j < co.blocked_on.len() implies {
        let source = #[trigger] co.blocked_on[j];
        &&& CoroutineView::place(source.common().token(co.id)) == source.common().id->Some_0.0
        &&& co.leads_back(source, j)
    } by {
        crate::event::law_token_round_trip(co.id, co.blocked_on[j].common().id->Some_0);
    }
}

/// A source that is added once more to a select is one source still: all its entries carry the id
/// that the source itself has after the call, and wait for what was asked for last. No other entry
/// changes.
pub proof fn law_source_added_again(
    co: CoroutineView,
    io: u64,
    common: EventSourceCommon,
    rw: RW,
    i: int,
)
    requires
        0 <= i < co.blocked_on.len(),
    ensures
        ({
            let after = co.with_source(io, common, rw);
            let last = after.blocked_on[co.blocked_on.len() as int];
            &&& last.common() == co.placed(common, rw)
            &&& last.0.io == io
            &&& after.blocked_on[i] == (if co.blocked_on[i].0.io == io {
                last
            } else {
                co.blocked_on[i]
            })
        }),
{
}

/// Everyone who waits for the exit of a coroutine is told its status once: when it ends, one
/// message goes over each of their channels, and after that nobody is left to be told.
pub proof fn law_exit_is_told_once(co: CoroutineView, status: ExitStatus, i: int)
    requires
        0 <= i < co.exit_notificators.len(),
    ensures
        co.exit_requests(status).len() == co.exit_notificators.len(),
        co.exit_requests(status)[i] == (Request::Exited { over: co.exit_notificators[i], status }),
        co.finished(status).exit_requests(status) == Seq::<Request>::empty(),
{
    assert(co.finished(status).exit_requests(status) =~= Seq::<Request>::empty());
}

/// An event wakes a blocked coroutine up in exactly the directions that it waits for and that have
/// come: to read if there is something to read or the peer has hung up, to write if there is room
/// to write, whatever else it waits for. The token is the one that the source was registered with.
pub proof fn law_event_wakes_in_what_has_come(
    co: &mut Coroutine,
    registrations: Vec<Request>,
    i: int,
    token: Token,
    events: EventSet,
    outcome: (bool, Vec<Request>),
)
    requires
        old(co)@.wf(),
        old(co)@.state is Blocked,
        old(co)@.id <= crate::event::max_co_id(),
        0 <= i < old(co)@.blocked_on.len(),
        call_ensures(Coroutine::register_all, (&*old(co),), registrations),
        registrations@[i]->Register_token == token,
        call_ensures(Coroutine::event, (co, token, events), outcome),
    ensures
        ({
            let source = old(co)@.blocked_on[i].0.common;
            let reads = source.blocked_on.read && (events.readable || events.hup);
            let writes = source.blocked_on.write && events.writable;
            &&& outcome.0 <==> reads || writes
            &&& outcome.0 ==> {
                &&& final(co)@.state is Ready
                &&& final(co)@.last_event.rw.read <==> reads
                &&& final(co)@.last_event.rw.write <==> writes
                &&& source.id == Some(final(co)@.last_event.id)
                &&& final(co)@.blocked_on.len() == 0
                &&& final(co)@.released.len() == old(co)@.blocked_on.len()
            }
            &&& !outcome.0 ==> {
                &&& final(co)@.state is Blocked
                &&& final(co)@.last_event == old(co)@.last_event
                &&& final(co)@.released == old(co)@.released
                &&& final(co)@.blocked_on.len() == old(co)@.blocked_on.len()
            }
        }),
{
    law_sources_have_their_own_tokens(old(co)@, i);
}

/// What an event is about is settled with the event loop: if the coroutine goes on, everything that
/// was registered is deregistered, under the same tokens, in the same order; if it does not, the
/// source that the event came for is registered again, and nothing else.
pub proof fn law_event_settles_registrations(
    co: &mut Coroutine,
    registrations: Vec<Request>,
    i: int,
    token: Token,
    events: EventSet,
    outcome: (bool, Vec<Request>),
)
    requires
        old(co)@.wf(),
        old(co)@.state is Blocked,
        old(co)@.id <= crate::event::max_co_id(),
        0 <= i < old(co)@.blocked_on.len(),
        call_ensures(Coroutine::register_all, (&*old(co),), registrations),
        registrations@[i]->Register_token == token,
        call_ensures(Coroutine::event, (co, token, events), outcome),
    ensures
        outcome.0 ==> {
            &&& outcome.1@.len() == registrations@.len()
            &&& forall|j: int|
                0 <= j < registrations@.len() ==> #[trigger] outcome.1@[j] == (Request::Deregister {
                    io: registrations@[j]->Register_io,
                    token: registrations@[j]->Register_token,
                })
        },
        !outcome.0 ==> {
            let source = old(co)@.blocked_on[i].0.common;
            let hung_up = source.peer_hup || events.hup;
            &&& outcome.1@ == seq![
                Request::Reregister {
                    io: old(co)@.blocked_on[i].0.io,
                    token,
                    interest: EventSet {
                        readable: source.blocked_on.read && !hung_up,
                        writable: source.blocked_on.write,
                        hup: !hung_up,
                    },
                },
            ]
        },
{
    law_sources_have_their_own_tokens(old(co)@, i);
}

/// An event is seen by the source that it came for, and by no other: a hang-up stays known for that
/// source, and nothing else about any source changes.
pub proof fn law_event_is_seen_by_its_source(
    co: &mut Coroutine,
    registrations: Vec<Request>,
    i: int,
    token: Token,
    events: EventSet,
    outcome: (bool, Vec<Request>),
    j: int,
)
    requires
        old(co)@.wf(),
        old(co)@.state is Blocked,
        old(co)@.id <= crate::event::max_co_id(),
        0 <= i < old(co)@.blocked_on.len(),
        0 <= j < old(co)@.blocked_on.len(),
        call_ensures(Coroutine::register_all, (&*old(co),), registrations),
        registrations@[i]->Register_token == token,
        call_ensures(Coroutine::event, (co, token, events), outcome),
    ensures
        ({
            let before = old(co)@.blocked_on[j].0;
            let after = if outcome.0 {
                final(co)@.released[j].0
            } else {
                final(co)@.blocked_on[j].0
            };
            &&& after.io == before.io
            &&& after.common.id == before.common.id
            &&& after.common.blocked_on == before.common.blocked_on
            &&& after.common.peer_hup <==> before.common.peer_hup || (events.hup && before.io
                == old(co)@.blocked_on[i].0.io)
        }),
{
    law_sources_have_their_own_tokens(old(co)@, i);
}

/// An event changes nothing of a coroutine but its state, what it is blocked on, what was released
/// and its last event: whoever waits for its exit still does, and it keeps its user data, the user
/// data for its children, its channel for synchronous operations and its place.
pub proof fn law_event_leaves_the_rest_alone(
    co: &mut Coroutine,
    token: Token,
    events: EventSet,
    outcome: (bool, Vec<Request>),
)
    requires
        old(co)@.wf(),
        call_ensures(Coroutine::event, (co, token, events), outcome),
    ensures
        final(co)@.exit_notificators == old(co)@.exit_notificators,
        final(co)@.user_data == old(co)@.user_data,
        final(co)@.inherited_user_data == old(co)@.inherited_user_data,
        final(co)@.sync_channel == old(co)@.sync_channel,
        final(co)@.id == old(co)@.id,
        final(co)@.handler == old(co)@.handler,
        !(old(co)@.state is Blocked) ==> {
            &&& final(co)@ == old(co)@
            &&& !outcome.0
            &&& outcome.1@.len() == 0
        },
{
}

/// A coroutine that has nothing registered under a token is not moved by it: it stays blocked on
/// what it is blocked on, is not woken up, and nothing is done outside.
pub proof fn law_foreign_tokens_are_ignored(
    co: &mut Coroutine,
    token: Token,
    events: EventSet,
    outcome: (bool, Vec<Request>),
)
    requires
        old(co)@.wf(),
        token.0 as int % 1024 >= old(co)@.blocked_on.len(),
        call_ensures(Coroutine::event, (co, token, events), outcome),
    ensures
        final(co)@ == old(co)@,
        !outcome.0,
        outcome.1@.len() == 0,
{
}

/// Everything that a coroutine is blocked on is registered, once for each time that it was added:
/// for reading and writing as asked for, and for hang-ups, except that after a hang-up there is
/// neither another one nor anything to read to wait for.
pub proof fn law_registrations_are_what_is_asked_for(
    co: Coroutine,
    registrations: Vec<Request>,
    i: int,
)
    requires
        co@.wf(),
        0 <= i < co@.blocked_on.len(),
        call_ensures(Coroutine::register_all, (&co,), registrations),
    ensures
        registrations@.len() == co@.blocked_on.len(),
        ({
            let source = co@.blocked_on[i].0;
            registrations@[i] matches Request::Register { io, token, interest } && {
                &&& io == source.io
                &&& co@.id <= crate::event::max_co_id() ==> {
                    &&& token.0 as int / 1024 == co@.id
                    &&& source.common.id == Some(EventSourceId((token.0 as int % 1024) as usize))
                }
                &&& interest.readable <==> source.common.blocked_on.read && !source.common.peer_hup
                &&& interest.writable <==> source.common.blocked_on.write
                &&& interest.hup <==> !source.common.peer_hup
            }
        }),
{
    if co@.id <= crate::event::max_co_id() {
        law_sources_have_their_own_tokens(co@, i);
        crate::event::law_token_round_trip(co@.id, co@.blocked_on[i].common().id->Some_0);
    }
}

/// A source that is added to a select is waited for as asked, and is the last one: its id is its
/// place. Other sources stay as they were, and so does everything else about the coroutine.
pub proof fn law_select_add_adds(
    co: &mut Coroutine,
    io: u64,
    common: EventSourceCommon,
    rw: RW,
    added: EventSourceCommon,
    i: int,
)
    requires
        old(co)@.wf(),
        old(co)@.blocked_on.len() <= EVENT_SOURCE_TOKEN_MASK,
        0 <= i < old(co)@.blocked_on.len(),
        call_ensures(Coroutine::select_add, (co, io, common, rw), added),
    ensures
        added_last(old(co)@, io, common, rw, added, final(co)@),
        final(co)@.blocked_on[i] == if old(co)@.blocked_on[i].0.io == io {
            final(co)@.blocked_on.last()
        } else {
            old(co)@.blocked_on[i]
        },
        final(co)@.state == old(co)@.state,
        same_but_waiting(old(co)@, final(co)@),
{
}

/// The source `io` has been put behind the others, to be waited for in the directions `rw`.
pub open spec fn added_last(
    pre: CoroutineView,
    io: u64,
    common: EventSourceCommon,
    rw: RW,
    added: EventSourceCommon,
    post: CoroutineView,
) -> bool {
    let last = post.blocked_on.last().0;
    &&& post.blocked_on.len() == pre.blocked_on.len() + 1
    &&& last.io == io
    &&& last.common == added
    &&& added.id == Some(EventSourceId(pre.blocked_on.len() as usize))
    &&& added.blocked_on.read == rw.read
    &&& added.blocked_on.write == rw.write
    &&& added.peer_hup == common.peer_hup
}

/// Both agree in everything but the state and what the coroutine waits for now.
pub open spec fn same_but_waiting(pre: CoroutineView, post: CoroutineView) -> bool {
    &&& post.released == pre.released
    &&& post.last_event == pre.last_event
    &&& same_belongings(pre, post)
    &&& post.id == pre.id
    &&& post.handler == pre.handler
}

/// Both have the same user data, for themselves and for their children, the same channel for
/// synchronous operations, and the same waiting for their exit.
pub open spec fn same_belongings(pre: CoroutineView, post: CoroutineView) -> bool {
    &&& post.exit_notificators == pre.exit_notificators
    &&& post.sync_channel == pre.sync_channel
    &&& post.user_data == pre.user_data
    &&& post.inherited_user_data == pre.inherited_user_data
}

/// Waiting blocks the coroutine on what was added, and yielding does not block it; either leaves
/// everything else about it alone.
pub proof fn law_waiting_and_yielding_keep_the_rest(
    waiting: &mut Coroutine,
    yielding: &mut Coroutine,
    woken: &mut Coroutine,
)
    requires
        call_ensures(Coroutine::select_wait, (waiting,), ()),
        call_ensures(Coroutine::yield_now, (yielding,), ()),
        call_ensures(Coroutine::unblock_after_yield, (woken,), ()),
    ensures
        final(waiting)@.state is Blocked,
        final(waiting)@.blocked_on == old(waiting)@.blocked_on,
        same_but_waiting(old(waiting)@, final(waiting)@),
        final(yielding)@.state is Yielding,
        final(yielding)@.blocked_on == old(yielding)@.blocked_on,
        same_but_waiting(old(yielding)@, final(yielding)@),
        final(woken)@.state is Ready,
        final(woken)@.blocked_on == old(woken)@.blocked_on,
        same_but_waiting(old(woken)@, final(woken)@),
{
}

/// To block on one source is to add it and to wait.
pub proof fn law_block_on_is_select_of_one(
    at_once: &mut Coroutine,
    first: &mut Coroutine,
    then: &mut Coroutine,
    io: u64,
    common: EventSourceCommon,
    rw: RW,
    added: EventSourceCommon,
    added_first: EventSourceCommon,
)
    requires
        old(first)@ == old(at_once)@,
        old(then)@ == final(first)@,
        old(at_once)@.blocked_on.len() == 0,
        call_ensures(Coroutine::block_on, (at_once, io, common, rw), added),
        call_ensures(Coroutine::select_add, (first, io, common, rw), added_first),
        call_ensures(Coroutine::select_wait, (then,), ()),
    ensures
        final(at_once)@ == final(then)@,
        added == added_first,
        final(at_once)@.state is Blocked,
        added_last(old(at_once)@, io, common, rw, added, final(at_once)@),
        same_but_waiting(old(at_once)@, final(at_once)@),
{
}

/// A coroutine that ends tells its exit status to everyone who waits for it, in the order in which
/// they came, once each, and to nobody else; nobody waits any more, and it is blocked on nothing. It
/// keeps its user data and its place until it leaves its thread.
pub proof fn law_finish_tells_everyone(
    co: &mut Coroutine,
    status: ExitStatus,
    requests: Vec<Request>,
    i: int,
)
    requires
        call_ensures(Coroutine::finish, (co, status), requests),
    ensures
        requests@.len() == old(co)@.exit_notificators.len(),
        0 <= i < old(co)@.exit_notificators.len() ==> requests@[i] == (Request::Exited {
            over: old(co)@.exit_notificators[i],
            status,
        }),
        final(co)@.state == State::Finished(status),
        final(co)@.exit_notificators.len() == 0,
        final(co)@.blocked_on.len() == 0,
        final(co)@.user_data == old(co)@.user_data,
        final(co)@.inherited_user_data == old(co)@.inherited_user_data,
        final(co)@.sync_channel == old(co)@.sync_channel,
        final(co)@.released == old(co)@.released,
        final(co)@.last_event == old(co)@.last_event,
        final(co)@.id == old(co)@.id,
        final(co)@.handler == old(co)@.handler,
{
}

/// A coroutine that waits on several sources is woken up by the first event that it asked for of any
/// of them, and finds out of which one and in which directions: after the select, the source that
/// was added last is the one of the event if the event came under its token.
pub proof fn law_select_finds_the_source_of_its_event(
    adding: &mut Coroutine,
    waiting: &mut Coroutine,
    woken: &mut Coroutine,
    io: u64,
    common: EventSourceCommon,
    rw: RW,
    added: EventSourceCommon,
    registrations: Vec<Request>,
    events: EventSet,
    outcome: (bool, Vec<Request>),
    event: Event,
)
    requires
        old(adding)@.wf(),
        old(adding)@.state is Running,
        old(adding)@.id <= crate::event::max_co_id(),
        old(adding)@.blocked_on.len() <= EVENT_SOURCE_TOKEN_MASK,
        call_ensures(Coroutine::select_add, (adding, io, common, rw), added),
        *old(waiting) == *final(adding),
        call_ensures(Coroutine::select_wait, (waiting,), ()),
        *old(woken) == *final(waiting),
        call_ensures(Coroutine::register_all, (&*old(woken),), registrations),
        call_ensures(
            Coroutine::event,
            (woken, registrations@.last()->Register_token, events),
            outcome,
        ),
        call_ensures(Coroutine::last_event, (&*final(woken),), event),
    ensures
        registrations@.last()->Register_io == io,
        ({
            let reads = rw.read && (events.readable || events.hup);
            let writes = rw.write && events.writable;
            &&& outcome.0 <==> reads || writes
            &&& outcome.0 ==> {
                &&& final(woken)@.state is Ready
                &&& Some(event.id) == added.id
                &&& event.rw == (RW { read: reads, write: writes })
            }
            &&& !outcome.0 ==> final(woken)@.state is Blocked
        }),
{
    let n = old(adding)@.blocked_on.len() as int;
    law_sources_have_their_own_tokens(old(woken)@, n);
}

/// An event for a place wakes a blocked coroutine up as the source at that place was asked for, and the
/// event that the coroutine finds is of that place.
pub proof fn law_event_goes_by_its_place(
    co: &mut Coroutine,
    token: Token,
    events: EventSet,
    outcome: (bool, Vec<Request>),
)
    requires
        old(co)@.wf(),
        old(co)@.state is Blocked,
        token.0 as int % 1024 < old(co)@.blocked_on.len(),
        call_ensures(Coroutine::event, (co, token, events), outcome),
    ensures
        ({
            let asked = old(co)@.blocked_on[token.0 as int % 1024].0.common.blocked_on;
            let reads = asked.read && (events.readable || events.hup);
            let writes = asked.write && events.writable;
            &&& outcome.0 <==> reads || writes
            &&& outcome.0 ==> {
                &&& final(co)@.state is Ready
                &&& final(co)@.last_event.id.0 == token.0 as int % 1024
                &&& final(co)@.last_event.rw == (RW { read: reads, write: writes })
                &&& final(co)@.blocked_on.len() == 0
                &&& outcome.1@.len() == old(co)@.blocked_on.len()
            }
            &&& !outcome.0 ==> {
                &&& final(co)@.state is Blocked
                &&& final(co)@.last_event == old(co)@.last_event
                &&& outcome.1@.len() == 1
            }
        }),
{
}

/// What is read of a coroutine is what it has.
pub proof fn law_coroutines_tell_what_they_have(
    co: Coroutine,
    state: State,
    id: usize,
    handler: Option<usize>,
    user_data: Option<UserData>,
    inherited: Option<UserData>,
    sync_channel: Option<u64>,
    n: usize,
    place: EventSourceId,
    common: Option<EventSourceCommon>,
    ready: bool,
    yielding: bool,
    status: ExitStatus,
    panicked: bool,
)
    requires
        call_ensures(Coroutine::state, (&co,), state),
        call_ensures(Coroutine::id, (&co,), id),
        call_ensures(Coroutine::handler, (&co,), handler),
        call_ensures(Coroutine::user_data, (&co,), user_data),
        call_ensures(Coroutine::inherited_user_data, (&co,), inherited),
        call_ensures(Coroutine::sync_channel, (&co,), sync_channel),
        call_ensures(Coroutine::blocked_on_len, (&co,), n),
        call_ensures(Coroutine::released, (&co, place), common),
        call_ensures(State::is_ready, (&state,), ready),
        call_ensures(State::is_yielding, (&state,), yielding),
        call_ensures(ExitStatus::is_panic, (&status,), panicked),
    ensures
        state == co@.state,
        id == co@.id,
        handler == co@.handler,
        user_data == co@.user_data,
        inherited == co@.inherited_user_data,
        sync_channel == co@.sync_channel,
        n == co@.blocked_on.len(),
        common is Some <==> place.0 < co@.released.len(),
        common is Some ==> common->Some_0 == co@.released[place.0 as int].0.common,
        ready <==> co@.state is Ready,
        yielding <==> co@.state is Yielding,
        panicked <==> status is Panic,
{
}

} // verus!
