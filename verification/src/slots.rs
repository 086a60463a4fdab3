//! The slab of coroutine slots of one thread.

use vstd::prelude::*;

verus! {

/// Slab allocator that numbers the coroutines of one thread.
///
/// Wraps `slab::Slab<u64, usize>`: every filled slot holds the key of one coroutine.
#[verifier::external_body]
pub struct CoroutineSlab {
    slab: slab::Slab<u64, usize>,
}

/// The filled slots of a slab: from slot number to the key kept there.
pub uninterp spec fn slab_items(slots: CoroutineSlab) -> Map<usize, u64>;

/// The number of the first slot of a slab.
pub uninterp spec fn slab_first(slots: CoroutineSlab) -> nat;

/// How many slots a slab has been given, filled and empty ones together.
pub uninterp spec fn slab_slots(slots: CoroutineSlab) -> nat;

impl CoroutineSlab {
    /// Wraps `slab::Slab::new_starting_at`.
    ///
    /// The slab has `capacity` empty slots, and the first of them is numbered `offset`.
    #[verifier::external_body]
    pub(crate) fn new_starting_at(offset: usize, capacity: usize) -> (made: CoroutineSlab)
        requires
            offset + capacity < usize::MAX,
        ensures
            slab_items(made).is_empty(),
            slab_first(made) == offset,
            slab_slots(made) == capacity,
    {
        CoroutineSlab { slab: slab::Slab::new_starting_at(offset, capacity) }
    }

    /// Wraps `slab::Slab::count`: the number of filled slots.
    ///
    /// Only slots that the slab has been given can be filled.
    #[verifier::external_body]
    pub(crate) fn count(&self) -> (n: usize)
        ensures
            n == slab_items(*self).len(),
            n <= slab_slots(*self),
    {
        self.slab.count()
    }

    /// Wraps `slab::Slab::contains`: is the slot with this number filled?
    ///
    /// A number past the last slot is left out: `Slab` checks its argument against the
    /// allocated capacity, which may be larger than the number of slots.
    #[verifier::external_body]
    pub(crate) fn contains(&self, idx: usize) -> (filled: bool)
        requires
            idx < slab_first(*self) + slab_slots(*self),
        ensures
            filled == slab_items(*self).contains_key(idx),
    {
        self.slab.contains(idx)
    }

    /// Wraps `slab::Slab::get`: the key in the slot with this number, if it is filled.
    ///
    /// A number past the last slot is left out, as for `contains`.
    #[verifier::external_body]
    pub(crate) fn get(&self, idx: usize) -> (key: Option<&u64>)
        requires
            idx < slab_first(*self) + slab_slots(*self),
        ensures
            key is Some <==> slab_items(*self).contains_key(idx),
            key is Some ==> *key->0 == slab_items(*self)[idx],
    {
        self.slab.get(idx)
    }

    /// Wraps `slab::Slab::insert`: puts a key in an empty slot and returns the slot's number.
    ///
    /// Which of the empty slots is taken is left open. It fails, giving the key back, exactly
    /// when every slot is filled.
    #[verifier::external_body]
    pub(crate) fn insert(&mut self, key: u64) -> (slot: Result<usize, u64>)
        ensures
            slot is Ok <==> slab_items(*old(self)).len() < slab_slots(*old(self)),
            slot is Ok ==> {
                &&& !slab_items(*old(self)).contains_key(slot->Ok_0)
                &&& slab_first(*old(self)) <= slot->Ok_0
                &&& slot->Ok_0 < slab_first(*old(self)) + slab_slots(*old(self))
                &&& slab_items(*final(self)) == slab_items(*old(self)).insert(slot->Ok_0, key)
            },
            slot is Err ==> slot->Err_0 == key && slab_items(*final(self)) == slab_items(*old(self)),
            slab_first(*final(self)) == slab_first(*old(self)),
            slab_slots(*final(self)) == slab_slots(*old(self)),
    {
        self.slab.insert(key)
    }

    /// Wraps `slab::Slab::remove`: empties a filled slot and returns the key that it held.
    ///
    /// Empty slots are left out: removing one damages the slab's list of free slots.
    #[verifier::external_body]
    pub(crate) fn remove(&mut self, idx: usize) -> (key: Option<u64>)
        requires
            slab_items(*old(self)).contains_key(idx),
        ensures
            key == Some(slab_items(*old(self))[idx]),
            slab_items(*final(self)) == slab_items(*old(self)).remove(idx),
            slab_first(*final(self)) == slab_first(*old(self)),
            slab_slots(*final(self)) == slab_slots(*old(self)),
    {
        self.slab.remove(idx)
    }

    /// Wraps `slab::Slab::grow`: adds `entries_num` empty slots behind the last one.
    #[verifier::external_body]
    pub(crate) fn grow(&mut self, entries_num: usize)
        requires
            slab_first(*old(self)) + slab_slots(*old(self)) + entries_num < usize::MAX,
        ensures
            slab_items(*final(self)) == slab_items(*old(self)),
            slab_first(*final(self)) == slab_first(*old(self)),
            slab_slots(*final(self)) == slab_slots(*old(self)) + entries_num,
    {
        self.slab.grow(entries_num)
    }
}

} // verus!
