//! Event sources: what a coroutine can block on.

use crate::event::{token_from_ids, EventSet, EventSourceId, Token, EVENT_SOURCE_TOKEN_MASK, RW};
use crate::coroutine::Coroutine;
use vstd::prelude::*;

verus! {

/// Common control data for all event sources.
#[derive(Copy, Clone, Debug)]
pub struct EventSourceCommon {
    /// Place of the source among those that its coroutine is blocked on.
    pub id: Option<EventSourceId>,
    /// The directions that the coroutine waits for.
    pub blocked_on: RW,
    /// The peer has hung up.
    pub peer_hup: bool,
}

impl EventSourceCommon {
    /// The conditions that the event loop is asked to watch for.
    ///
    /// After the peer has hung up there is neither another hang-up nor anything to read to wait
    /// for.
    pub open spec fn interest(self) -> EventSet {
        EventSet {
            readable: !self.peer_hup && self.blocked_on.read,
            writable: self.blocked_on.write,
            hup: !self.peer_hup,
        }
    }

    /// The source has a place that a token can encode.
    pub open spec fn placed(self) -> bool {
        self.id is Some && self.id->Some_0.0 <= EVENT_SOURCE_TOKEN_MASK
    }

    /// The token under which coroutine `co_id` registers the source.
    pub open spec fn token(self, co_id: usize) -> Token {
        crate::event::token_of(co_id, self.id->0)
    }
}

/// Control data of a source that no coroutine is blocked on.
pub open spec fn fresh_common() -> EventSourceCommon {
    EventSourceCommon { id: None, blocked_on: RW { read: false, write: false }, peer_hup: false }
}

/// An event source: the raw source and its control data.
#[derive(Debug)]
pub struct RcEventSourceShared<T> {
    /// Control data.
    pub common: EventSourceCommon,
    /// The raw source.
    pub io: T,
}

impl<T> RcEventSourceShared<T> {
    /// A source that no coroutine is blocked on.
    pub fn new(t: T) -> (made: Self)
        ensures
            made.common == fresh_common(),
            made.io == t,
    {
        RcEventSourceShared {
            common: EventSourceCommon { id: None, blocked_on: RW::none(), peer_hup: false },
            io: t,
        }
    }
}

/// An event source as it is handed between a coroutine and the event loop.
///
/// The event loop and the coroutine never use the data at the same time: while the coroutine is
/// blocked, the data is with the event loop, and it goes back when the coroutine is resumed.
#[derive(Debug)]
pub struct RcEventSource<T>(pub RcEventSourceShared<T>);

impl<T> RcEventSource<T> {
    /// Control data of the source.
    pub open spec fn common(self) -> EventSourceCommon {
        self.0.common
    }

    /// The source with other control data.
    pub open spec fn with_common(self, common: EventSourceCommon) -> RcEventSource<T> {
        RcEventSource(RcEventSourceShared { common, io: self.0.io })
    }

    /// The source `t`, which no coroutine is blocked on.
    pub fn new(t: T) -> (made: Self)
        ensures
            made.0.io == t,
            made.0.common == fresh_common(),
    {
        RcEventSource(RcEventSourceShared::new(t))
    }

    /// The raw source.
    pub fn io_ref(&self) -> (io: &T)
        ensures
            *io == self.0.io,
    {
        &self.0.io
    }

    /// The raw source, to be changed.
    pub fn io_mut(&mut self) -> (io: &mut T)
        ensures
            *io == old(self).0.io,
            final(self).0.io == *final(io),
            final(self).0.common == old(self).0.common,
    {
        &mut self.0.io
    }

    /// The control data.
    pub fn common_ref(&self) -> (common: &EventSourceCommon)
        ensures
            *common == self.0.common,
    {
        &self.0.common
    }

    /// The control data, to be changed.
    pub fn common_mut(&mut self) -> (common: &mut EventSourceCommon)
        ensures
            *common == old(self).0.common,
            final(self).0.common == *final(common),
            final(self).0.io == old(self).0.io,
    {
        &mut self.0.common
    }

    /// The directions that the coroutine waits for.
    pub fn blocked_on(&self) -> (rw: RW)
        ensures
            rw == self.common().blocked_on,
    {
        self.0.common.blocked_on
    }

    /// Handle `hup` condition
    pub fn hup(&mut self)
        ensures
            final(self).common() == (EventSourceCommon { peer_hup: true, ..old(self).common() }),
            final(self).0.io == old(self).0.io,
    {
        self.0.common.peer_hup = true;
    }

    /// Register the source for the next event
    ///
    /// Returns the token and the conditions to register the raw source with.
    pub fn register(&self, co_id: usize) -> (how: (Token, EventSet))
        requires
            self.common().placed(),
        ensures
            how == (self.common().token(co_id), self.common().interest()),
    {
        let mut interest: EventSet = EventSet::none();

        if !self.0.common.peer_hup {
            interest.hup = true;

            if self.0.common.blocked_on.has_read() {
                interest.readable = true;
            }
        }
        if self.0.common.blocked_on.has_write() {
            interest.writable = true;
        }
        (token_from_ids(co_id, self.0.common.id.unwrap()), interest)
    }

    /// Reregister the source for the next event
    ///
    /// Returns the token and the conditions to reregister the raw source with.
    pub fn reregister(&self, co_id: usize) -> (how: (Token, EventSet))
        requires
            self.common().placed(),
        ensures
            how == (self.common().token(co_id), self.common().interest()),
    {
        self.register(co_id)
    }

    /// Un-reregister event we're not interested in anymore
    ///
    /// Returns the token under which the raw source is registered.
    pub fn deregister(&self, co_id: usize) -> (token: Token)
        requires
            self.common().placed(),
        ensures
            token == self.common().token(co_id),
    {
        token_from_ids(co_id, self.0.common.id.unwrap())
    }

    /// The same source with its raw part replaced by a number that stands for it.
    ///
    /// The sources that a coroutine is blocked on have raw parts of different types, so they are
    /// kept in this form.
    pub fn to_trait(&self, io: u64) -> (erased: RcEventSource<u64>)
        ensures
            erased.0.io == io,
            erased.0.common == self.0.common,
    {
        RcEventSource(RcEventSourceShared { common: self.0.common, io })
    }
}

/// Private trait for all provided IO
pub trait EventedImpl {
    /// Type of the raw source.
    type Raw;

    /// The event source.
    spec fn source(&self) -> RcEventSource<Self::Raw>;

    /// The event source.
    fn shared(&self) -> (source: &RcEventSource<Self::Raw>)
        ensures
            *source == self.source(),
    ;

    /// The event source, to be changed.
    fn shared_mut(&mut self) -> (source: &mut RcEventSource<Self::Raw>)
        ensures
            *source == old(self).source(),
            final(self).source() == *final(source),
    ;
}

/// Event source.
///
/// All types used as asynchronous event sources implement this trait.
///
/// A generic implementation: `MioAdapter` implements this trait, wrapping raw types.
pub trait Evented: EventedImpl {
    /// Add event source to next select operation.
    ///
    /// `io` is the number that stands for the raw source, the same one each time. The source must not
    /// be used until the coroutine, which has to block afterwards, is resumed, except to be added once
    /// more.
    fn select_add(&mut self, coroutine: &mut Coroutine, io: u64, rw: RW)
        requires
            old(coroutine)@.wf(),
            old(coroutine)@.state is Running,
            old(coroutine)@.blocked_on.len() <= EVENT_SOURCE_TOKEN_MASK,
        ensures
            final(self).source() == old(self).source().with_common(
                old(coroutine)@.placed(old(self).source().common(), rw),
            ),
            final(coroutine)@ == old(coroutine)@.with_source(io, old(self).source().common(), rw),
            final(coroutine)@.wf(),
    ;

    /// Mark the event source blocked and block until the coroutine is woken up again.
    ///
    /// Switching back to the handler happens outside. Once the coroutine is resumed, `resumed()`
    /// ends the operation.
    fn block_on(&mut self, coroutine: &mut Coroutine, io: u64, rw: RW)
        requires
            old(coroutine)@.wf(),
            old(coroutine)@.state is Running,
            old(coroutine)@.blocked_on.len() == 0,
        ensures
            final(self).source() == old(self).source().with_common(
                old(coroutine)@.placed(old(self).source().common(), rw),
            ),
            final(coroutine)@ == (crate::coroutine::CoroutineView {
                state: crate::coroutine::State::Blocked,
                ..old(coroutine)@.with_source(io, old(self).source().common(), rw)
            }),
            final(coroutine)@.wf(),
    ;

    /// The coroutine has been resumed: takes back what happened to the source meanwhile.
    fn resumed(&mut self, coroutine: &Coroutine)
        requires
            old(self).source().common().id is Some,
            old(self).source().common().id->Some_0.0 < coroutine@.released.len(),
        ensures
            final(self).source() == old(self).source().with_common(
                coroutine@.released[old(self).source().common().id->Some_0.0 as int].common(),
            ),
    ;

    /// Temporary ID used in select operation.
    fn id(&self) -> (id: EventSourceId)
        requires
            self.source().common().id is Some,
        ensures
            id == self.source().common().id->Some_0,
    ;
}

impl<EP: EventedImpl> Evented for EP {
    fn select_add(&mut self, coroutine: &mut Coroutine, io: u64, rw: RW) {
        let common: EventSourceCommon = *self.shared().common_ref();
        let added: EventSourceCommon = coroutine.select_add(io, common, rw);
        let source = self.shared_mut();
        source.0.common = added;
    }

    fn block_on(&mut self, coroutine: &mut Coroutine, io: u64, rw: RW) {
        let common: EventSourceCommon = *self.shared().common_ref();
        let added: EventSourceCommon = coroutine.block_on(io, common, rw);
        let source = self.shared_mut();
        source.0.common = added;
    }

    fn resumed(&mut self, coroutine: &Coroutine) {
        let id: EventSourceId = self.shared().common_ref().id.unwrap();
        let common: EventSourceCommon = coroutine.released(id).unwrap();
        let source = self.shared_mut();
        source.0.common = common;
    }

    fn id(&self) -> (id: EventSourceId) {
        self.shared().common_ref().id.unwrap()
    }
}

impl<MT> EventedImpl for MioAdapter<MT> {
    type Raw = MT;

    open spec fn source(&self) -> RcEventSource<MT> {
        self.0
    }

    fn shared(&self) -> (source: &RcEventSource<MT>) {
        &self.0
    }

    fn shared_mut(&mut self) -> (source: &mut RcEventSource<MT>) {
        &mut self.0
    }
}

/// What a blocking operation does after one attempt.
#[derive(Debug)]
pub enum IoStep<R, E> {
    /// Block the coroutine until the source is ready in these directions, then try again.
    Block(RW),
    /// Return to the caller.
    Return(Result<R, E>),
}

/// The step that the outcome of one attempt calls for.
pub open spec fn io_step_spec<R, E>(outcome: Result<Option<R>, E>, rw: RW) -> IoStep<R, E> {
    match outcome {
        Ok(None) => IoStep::Block(rw),
        Ok(Some(r)) => IoStep::Return(Ok(r)),
        Err(e) => IoStep::Return(Err(e)),
    }
}

/// Decides what follows one attempt of an operation that waits for `rw`.
///
/// An operation that would block blocks the coroutine; any other outcome is returned.
pub fn io_step<R, E>(outcome: Result<Option<R>, E>, rw: RW) -> (step: IoStep<R, E>)
    ensures
        step == io_step_spec(outcome, rw),
{
    match outcome {
        Ok(None) => IoStep::Block(rw),
        Ok(Some(r)) => IoStep::Return(Ok(r)),
        Err(e) => IoStep::Return(Err(e)),
    }
}

/// Adapt a raw source to event source requirements.
#[derive(Debug)]
pub struct MioAdapter<MT>(pub RcEventSource<MT>);

impl<MT> MioAdapter<MT> {
    /// Create `MioAdapter` from raw type.
    pub fn new(mio_type: MT) -> (made: Self)
        ensures
            made.0.0.io == mio_type,
            made.0.common() == fresh_common(),
    {
        MioAdapter(RcEventSource::new(mio_type))
    }

    /// Block on read.
    ///
    /// Takes the outcome of one attempt to read.
    pub fn read<R, E>(&self, outcome: Result<Option<R>, E>) -> (step: IoStep<R, E>)
        ensures
            step == io_step_spec(outcome, RW { read: true, write: false }),
    {
        io_step(outcome, RW::read())
    }

    /// Block on write.
    ///
    /// Takes the outcome of one attempt to write.
    pub fn write<R, E>(&self, outcome: Result<Option<R>, E>) -> (step: IoStep<R, E>)
        ensures
            step == io_step_spec(outcome, RW { read: false, write: true }),
    {
        io_step(outcome, RW::write())
    }

    /// Attempt to accept a pending connection.
    ///
    /// Takes what the raw source answered, and adapts the connection in it.
    pub fn try_accept<O, E>(&self, pending: Result<Option<O>, E>) -> (accepted: Result<
        Option<MioAdapter<O>>,
        E,
    >)
        ensures
            match pending {
                Ok(None) => accepted == Ok::<Option<MioAdapter<O>>, E>(None),
                Ok(Some(t)) => accepted is Ok && accepted->Ok_0 is Some
                    && accepted->Ok_0->Some_0.0.0.io == t && accepted->Ok_0->Some_0.0.common()
                    == fresh_common(),
                Err(e) => accepted == Err::<Option<MioAdapter<O>>, E>(e),
            },
    {
        match pending {
            Ok(None) => Ok(None),
            Ok(Some(t)) => Ok(Some(MioAdapter::new(t))),
            Err(e) => Err(e),
        }
    }

    /// Block on accepting a connection.
    ///
    /// Takes what the raw source answered to one attempt.
    pub fn accept<O, E>(&self, pending: Result<Option<O>, E>) -> (step: IoStep<MioAdapter<O>, E>)
        ensures
            match pending {
                Ok(None) => step == IoStep::<MioAdapter<O>, E>::Block(
                    RW { read: true, write: false },
                ),
                Ok(Some(t)) => step is Return && step->Return_0 is Ok
                    && step->Return_0->Ok_0.0.0.io == t && step->Return_0->Ok_0.0.common()
                    == fresh_common(),
                Err(e) => step == IoStep::<MioAdapter<O>, E>::Return(Err(e)),
            },
    {
        let accepted: Result<Option<MioAdapter<O>>, E> = self.try_accept(pending);
        io_step(accepted, RW::read())
    }
}

/// A source is registered for what its coroutine waits for, and for hang-ups, under the token that
/// names both; after a hang-up neither another one nor anything to read is waited for. Registering it
/// again asks for the same, and deregistering is for the same token. A hang-up, once noticed, stays,
/// and nothing else about the source changes with it.
pub proof fn law_sources_ask_for_what_is_waited_for<T>(
    source: RcEventSource<T>,
    co_id: usize,
    how: (Token, EventSet),
    again: (Token, EventSet),
    token: Token,
    hung_up: &mut RcEventSource<T>,
)
    requires
        source.0.common.id is Some,
        source.0.common.id->Some_0.0 <= EVENT_SOURCE_TOKEN_MASK,
        co_id <= crate::event::max_co_id(),
        call_ensures(RcEventSource::<T>::register, (&source, co_id), how),
        call_ensures(RcEventSource::<T>::reregister, (&source, co_id), again),
        call_ensures(RcEventSource::<T>::deregister, (&source, co_id), token),
        call_ensures(RcEventSource::<T>::hup, (hung_up,), ()),
    ensures
        how.0.0 as int / 1024 == co_id,
        how.0.0 as int % 1024 == source.0.common.id->Some_0.0,
        how.1.readable <==> source.0.common.blocked_on.read && !source.0.common.peer_hup,
        how.1.writable <==> source.0.common.blocked_on.write,
        how.1.hup <==> !source.0.common.peer_hup,
        again == how,
        token == how.0,
        final(hung_up).0.common.peer_hup,
        final(hung_up).0.common.id == old(hung_up).0.common.id,
        final(hung_up).0.common.blocked_on == old(hung_up).0.common.blocked_on,
        final(hung_up).0.io == old(hung_up).0.io,
{
    crate::event::law_token_round_trip(co_id, source.0.common.id->Some_0);
}

/// A source that was just made belongs to no select, waits for nothing and was not hung up on; it is
/// made of the raw source. Standing in for it with a number changes nothing else.
pub proof fn law_sources_are_made_of_their_raw_source<T>(
    t: T,
    source: RcEventSource<T>,
    adapter: MioAdapter<T>,
    io: u64,
    erased: RcEventSource<u64>,
    rw: RW,
)
    requires
        call_ensures(RcEventSource::<T>::new, (t,), source),
        call_ensures(MioAdapter::<T>::new, (t,), adapter),
        call_ensures(RcEventSource::<T>::to_trait, (&source, io), erased),
        call_ensures(RcEventSource::<T>::blocked_on, (&source,), rw),
    ensures
        source.0.io == t,
        source.0.common.id is None,
        !source.0.common.blocked_on.read,
        !source.0.common.blocked_on.write,
        !source.0.common.peer_hup,
        adapter.0.0.io == t,
        adapter.0.0.common == source.0.common,
        erased.0.io == io,
        erased.0.common == source.0.common,
        !rw.read && !rw.write,
{
}

/// An operation that would block blocks the coroutine, and nothing else does: to read for reading, to
/// write for writing. Every other outcome is returned as it is.
pub proof fn law_operations_block_only_if_they_would<MT, R, E>(
    adapter: MioAdapter<MT>,
    outcome: Result<Option<R>, E>,
    rw: RW,
    step: IoStep<R, E>,
    reading: IoStep<R, E>,
    writing: IoStep<R, E>,
)
    requires
        call_ensures(io_step::<R, E>, (outcome, rw), step),
        call_ensures(MioAdapter::<MT>::read::<R, E>, (&adapter, outcome), reading),
        call_ensures(MioAdapter::<MT>::write::<R, E>, (&adapter, outcome), writing),
    ensures
        outcome matches Ok(None) ==> {
            &&& step == IoStep::<R, E>::Block(rw)
            &&& reading == IoStep::<R, E>::Block(RW { read: true, write: false })
            &&& writing == IoStep::<R, E>::Block(RW { read: false, write: true })
        },
        outcome matches Ok(Some(r)) ==> {
            &&& step == IoStep::Return(Ok::<R, E>(r))
            &&& reading == step
            &&& writing == step
        },
        outcome matches Err(e) ==> {
            &&& step == IoStep::Return(Err::<R, E>(e))
            &&& reading == step
            &&& writing == step
        },
{
}

/// A connection that is accepted is adapted, as one that no coroutine is blocked on; accepting blocks
/// to read while there is none, and hands errors out.
pub proof fn law_accepted_connections_are_adapted<MT, O, E>(
    adapter: MioAdapter<MT>,
    pending: Result<Option<O>, E>,
    tried: Result<Option<MioAdapter<O>>, E>,
    step: IoStep<MioAdapter<O>, E>,
)
    requires
        call_ensures(MioAdapter::<MT>::try_accept::<O, E>, (&adapter, pending), tried),
        call_ensures(MioAdapter::<MT>::accept::<O, E>, (&adapter, pending), step),
    ensures
        pending matches Ok(None) ==> {
            &&& tried matches Ok(None)
            &&& step == IoStep::<MioAdapter<O>, E>::Block(RW { read: true, write: false })
        },
        pending matches Ok(Some(t)) ==> {
            &&& tried matches Ok(Some(accepted))
            &&& accepted.0.0.io == t
            &&& accepted.0.0.common.id is None
            &&& !accepted.0.0.common.peer_hup
            &&& step == IoStep::Return(Ok::<MioAdapter<O>, E>(accepted))
        },
        pending matches Err(e) ==> {
            &&& tried == Err::<Option<MioAdapter<O>>, E>(e)
            &&& step == IoStep::Return(Err::<MioAdapter<O>, E>(e))
        },
{
}

/// The id of a source in a select is the one that the coroutine has given it, and its place among
/// those that were selected; selecting, blocking on it and taking it back leave the raw source alone.
pub proof fn law_sources_know_their_place<E: EventedImpl>(
    evented: &mut E,
    coroutine: &mut Coroutine,
    io: u64,
    rw: RW,
    id: EventSourceId,
    blocked: &mut E,
    blocking: &mut Coroutine,
    taken: &mut E,
    resumed_by: Coroutine,
)
    requires
        old(coroutine)@.wf(),
        old(coroutine)@.blocked_on.len() <= EVENT_SOURCE_TOKEN_MASK,
        call_ensures(<E as Evented>::select_add, (evented, coroutine, io, rw), ()),
        call_ensures(<E as Evented>::id, (&*final(evented),), id),
        call_ensures(<E as Evented>::block_on, (blocked, blocking, io, rw), ()),
        old(taken).source().0.common.id is Some,
        call_ensures(<E as Evented>::resumed, (taken, &resumed_by), ()),
    ensures
        id.0 == old(coroutine)@.blocked_on.len(),
        final(coroutine)@.blocked_on.last().0.io == io,
        final(coroutine)@.blocked_on.last().0.common == final(evented).source().0.common,
        final(evented).source().0.common.blocked_on == rw,
        final(evented).source().0.common.peer_hup == old(evented).source().0.common.peer_hup,
        final(evented).source().0.io == old(evented).source().0.io,
        final(blocking)@.state is Blocked,
        final(blocking)@.blocked_on.last().0.io == io,
        final(blocking)@.blocked_on.last().0.common == final(blocked).source().0.common,
        final(blocked).source().0.common.blocked_on == rw,
        final(blocked).source().0.io == old(blocked).source().0.io,
        final(taken).source().0.common == resumed_by@.released[old(
            taken,
        ).source().0.common.id->Some_0.0 as int].0.common,
        final(taken).source().0.io == old(taken).source().0.io,
{
}

} // verus!
