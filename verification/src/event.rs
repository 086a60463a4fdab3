//! Events, the tokens that name their sources, and the directions of IO.

use vstd::prelude::*;

verus! {

/// Read/Write/Both/None
#[derive(Copy, Clone, Debug, Eq, PartialEq, Structural)]
pub struct RW {
    /// Reading is one of the directions.
    pub read: bool,
    /// Writing is one of the directions.
    pub write: bool,
}

impl RW {
    /// No direction at all.
    pub open spec fn nothing(self) -> bool {
        !self.read && !self.write
    }

    /// Read.
    pub fn read() -> (rw: Self)
        ensures
            rw == (RW { read: true, write: false }),
    {
        RW { read: true, write: false }
    }

    /// Write
    pub fn write() -> (rw: Self)
        ensures
            rw == (RW { read: false, write: true }),
    {
        RW { read: false, write: true }
    }

    /// Read + Write
    pub fn both() -> (rw: Self)
        ensures
            rw == (RW { read: true, write: true }),
    {
        RW { read: true, write: true }
    }

    /// None.
    pub fn none() -> (rw: Self)
        ensures
            rw == (RW { read: false, write: false }),
    {
        RW { read: false, write: false }
    }

    /// Is reading one of the directions?
    pub fn has_read(&self) -> (yes: bool)
        ensures
            yes == self.read,
    {
        self.read
    }

    /// Is writing one of the directions?
    pub fn has_write(&self) -> (yes: bool)
        ensures
            yes == self.write,
    {
        self.write
    }
}

/// Id of an event source used to enumerate them
///
/// It's unique within coroutine of an event source, but not globally.
#[derive(Copy, Clone, Debug, Eq, PartialEq, Hash, Structural)]
pub struct EventSourceId(pub usize);

impl EventSourceId {
    /// The id with the given number.
    pub fn new(id: usize) -> (made: Self)
        ensures
            made == EventSourceId(id),
    {
        EventSourceId(id)
    }

    /// The number of the id.
    pub fn as_usize(&self) -> (n: usize)
        ensures
            n == self.0,
    {
        self.0
    }
}

/// Event delivered to the coroutine
///
/// Read and/or Write + event source ID
#[derive(Copy, Clone, Debug, Eq, PartialEq, Structural)]
pub struct Event {
    /// The source of the event.
    pub id: EventSourceId,
    /// The directions in which the source became ready.
    pub rw: RW,
}

impl Event {
    /// Index of the EventedShared handle
    pub fn id(&self) -> (id: EventSourceId)
        ensures
            id == self.id,
    {
        self.id
    }

    /// Was the event a read
    pub fn has_read(&self) -> (yes: bool)
        ensures
            yes == self.rw.read,
    {
        self.rw.has_read()
    }

    /// Was the event a write
    pub fn has_write(&self) -> (yes: bool)
        ensures
            yes == self.rw.write,
    {
        self.rw.has_write()
    }
}

/// A set of readiness conditions of an event source.
#[derive(Copy, Clone, Debug, Eq, PartialEq, Structural)]
pub struct EventSet {
    /// There is something to read.
    pub readable: bool,
    /// There is room to write.
    pub writable: bool,
    /// The peer has hung up.
    pub hup: bool,
}

/// Only `readable`.
pub open spec fn readable_set() -> EventSet {
    EventSet { readable: true, writable: false, hup: false }
}

impl EventSet {
    /// No condition.
    pub fn none() -> (set: Self)
        ensures
            set == (EventSet { readable: false, writable: false, hup: false }),
    {
        EventSet { readable: false, writable: false, hup: false }
    }

    /// Only `readable`.
    pub fn readable() -> (set: Self)
        ensures
            set == readable_set(),
    {
        EventSet { readable: true, writable: false, hup: false }
    }

    /// Is `readable` in the set?
    pub fn is_readable(&self) -> (yes: bool)
        ensures
            yes == self.readable,
    {
        self.readable
    }
}

/// Name under which an event source is known to the event loop.
///
/// The thread's handler keeps only a slab of coroutines, and uses a scheme in which the bits of
/// a token encode both a coroutine and an event source within it.
#[derive(Copy, Clone, Debug, Eq, PartialEq, Structural)]
pub struct Token(pub usize);

/// How many low bits of a token number the event source.
pub const EVENT_SOURCE_TOKEN_SHIFT: usize = 10;

/// The low bits of a token.
pub const EVENT_SOURCE_TOKEN_MASK: usize = 1023;

/// The largest coroutine number that a token can encode.
pub open spec fn max_co_id() -> int {
    usize::MAX as int / 1024
}

/// The token of event source `io_id` of coroutine `co_id`.
pub open spec fn token_of(co_id: usize, io_id: EventSourceId) -> Token {
    Token((co_id as int % (max_co_id() + 1) * 1024 + io_id.0) as usize)
}

/// Convert token to ids
pub fn token_to_ids(token: Token) -> (ids: (usize, EventSourceId))
    ensures
        ids.0 == token.0 as int / 1024,
        ids.1.0 == token.0 as int % 1024,
{
    let val: usize = token.0;
    proof {
        assert(val >> 10usize == val / 1024usize && val & 1023usize == val % 1024usize)
            by (bit_vector);
    }
    (val >> EVENT_SOURCE_TOKEN_SHIFT, EventSourceId(val & EVENT_SOURCE_TOKEN_MASK))
}

/// Convert ids to Token
///
/// The high bits of a coroutine number that does not fit are lost.
pub fn token_from_ids(co_id: usize, io_id: EventSourceId) -> (token: Token)
    requires
        io_id.0 <= EVENT_SOURCE_TOKEN_MASK,
    ensures
        token == token_of(co_id, io_id),
{
    let io: usize = io_id.0;
    proof {
        lemma_token_bits(co_id, io);
    }
    Token((co_id << EVENT_SOURCE_TOKEN_SHIFT) | io)
}

proof fn lemma_token_bits(co: usize, io: usize)
    requires
        io <= 1023,
    ensures
        (co << 10usize) | io == co as int % (max_co_id() + 1) * 1024 + io,
{
    let val: usize = (co << 10usize) | io;
    assert(val % 1024usize == io) by (bit_vector)
        requires
            val == (co << 10usize) | io,
            io <= 1023,
    ;
    assert(val / 1024usize == co & (!0usize >> 10usize)) by (bit_vector)
        requires
            val == (co << 10usize) | io,
            io <= 1023,
    ;
    if usize::BITS == 64 {
        assert(co as u64 & (!0u64 >> 10u64) == co as u64 % 0x40_0000_0000_0000u64) by (bit_vector);
    } else {
        assert(co as u32 & (!0u32 >> 10u32) == co as u32 % 0x40_0000u32) by (bit_vector);
    }
}

/// Taking a token apart gives back the ids that it was made of, as long as the coroutine's
/// number fits.
pub proof fn law_token_round_trip(co_id: usize, io_id: EventSourceId)
    requires
        co_id <= max_co_id(),
        io_id.0 <= EVENT_SOURCE_TOKEN_MASK,
    ensures
        token_of(co_id, io_id).0 as int / 1024 == co_id,
        token_of(co_id, io_id).0 as int % 1024 == io_id.0,
{
    vstd::arithmetic::div_mod::lemma_small_mod(co_id as nat, (max_co_id() + 1) as nat);
}

/// Putting the parts of a token together again gives the same token.
pub proof fn law_ids_round_trip(token: Token)
    ensures
        token_of(
            (token.0 as int / 1024) as usize,
            EventSourceId((token.0 as int % 1024) as usize),
        ) == token,
{
    vstd::arithmetic::div_mod::lemma_small_mod(
        (token.0 as int / 1024) as nat,
        (max_co_id() + 1) as nat,
    );
}

/// Different ids have different tokens.
pub proof fn law_tokens_differ(co1: usize, io1: EventSourceId, co2: usize, io2: EventSourceId)
    requires
        co1 <= max_co_id(),
        co2 <= max_co_id(),
        io1.0 <= EVENT_SOURCE_TOKEN_MASK,
        io2.0 <= EVENT_SOURCE_TOKEN_MASK,
        token_of(co1, io1) == token_of(co2, io2),
    ensures
        co1 == co2,
        io1 == io2,
{
    law_token_round_trip(co1, io1);
    law_token_round_trip(co2, io2);
}

/// The directions are what their names say, and so are the sets of conditions.
pub proof fn law_directions_are_what_they_say(
    read: RW,
    write: RW,
    both: RW,
    none: RW,
    readable: EventSet,
    nothing: EventSet,
    rw: RW,
    has_read: bool,
    has_write: bool,
    event: Event,
    event_read: bool,
    event_write: bool,
    event_id: EventSourceId,
)
    requires
        call_ensures(RW::read, (), read),
        call_ensures(RW::write, (), write),
        call_ensures(RW::both, (), both),
        call_ensures(RW::none, (), none),
        call_ensures(EventSet::readable, (), readable),
        call_ensures(EventSet::none, (), nothing),
        call_ensures(RW::has_read, (&rw,), has_read),
        call_ensures(RW::has_write, (&rw,), has_write),
        call_ensures(Event::has_read, (&event,), event_read),
        call_ensures(Event::has_write, (&event,), event_write),
        call_ensures(Event::id, (&event,), event_id),
    ensures
        read.read && !read.write,
        !write.read && write.write,
        both.read && both.write,
        !none.read && !none.write,
        readable.readable && !readable.writable && !readable.hup,
        !nothing.readable && !nothing.writable && !nothing.hup,
        has_read == rw.read,
        has_write == rw.write,
        event_read == event.rw.read,
        event_write == event.rw.write,
        event_id == event.id,
{
}

/// A token tells the coroutine and the event source that it was made of, in its high and its low
/// bits.
pub proof fn law_tokens_tell_what_they_were_made_of(
    co_id: usize,
    io_id: EventSourceId,
    token: Token,
    ids: (usize, EventSourceId),
)
    requires
        co_id <= max_co_id(),
        io_id.0 < 1024,
        call_ensures(token_from_ids, (co_id, io_id), token),
        call_ensures(token_to_ids, (token,), ids),
    ensures
        ids.0 == co_id,
        ids.1 == io_id,
        token.0 == co_id * 1024 + io_id.0,
{
    law_token_round_trip(co_id, io_id);
}

} // verus!
