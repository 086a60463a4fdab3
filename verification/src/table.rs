//! The coroutines of an instance.

use crate::coroutine::{Coroutine, CoroutineView};
use std::collections::HashMap;
use vstd::prelude::*;

verus! {

broadcast use vstd::std_specs::hash::group_hash_axioms;

/// All coroutines of an instance, by their keys.
///
/// A key is never used for a second coroutine.
#[derive(Debug)]
pub struct CoroutineTable {
    cos: HashMap<u64, Coroutine>,
    next: u64,
}

impl View for CoroutineTable {
    type V = Map<u64, CoroutineView>;

    closed spec fn view(&self) -> Map<u64, CoroutineView> {
        self.cos@.map_values(|co: Coroutine| co@)
    }
}

/// Every coroutine in the table is well-formed.
pub open spec fn coroutines_wf(cos: Map<u64, CoroutineView>) -> bool {
    forall|key: u64| #[trigger] cos.contains_key(key) ==> cos[key].wf()
}

impl CoroutineTable {
    /// The key of the next coroutine.
    pub closed spec fn next_key(&self) -> u64 {
        self.next
    }

    /// What always holds of a table.
    pub open spec fn wf(&self) -> bool {
        &&& coroutines_wf(self@)
        &&& forall|key: u64| #[trigger] self@.contains_key(key) ==> key < self.next_key()
    }

    /// A table without coroutines.
    pub fn new() -> (made: Self)
        ensures
            made@ == Map::<u64, CoroutineView>::empty(),
            made.next_key() == 0,
            made.wf(),
    {
        let made = CoroutineTable { cos: HashMap::new(), next: 0 };
        assert(made@ =~= Map::<u64, CoroutineView>::empty());
        made
    }

    /// There is no coroutine with this key yet, nor was there ever.
    pub fn has_next(&self) -> (yes: bool)
        ensures
            yes == (self.next_key() < u64::MAX),
    {
        self.next < u64::MAX
    }

    /// Adds a coroutine and returns its key.
    pub(crate) fn add(&mut self, co: Coroutine) -> (key: u64)
        requires
            old(self).wf(),
            co@.wf(),
            old(self).next_key() < u64::MAX,
        ensures
            key == old(self).next_key(),
            final(self).next_key() == old(self).next_key() + 1,
            final(self)@ == old(self)@.insert(key, co@),
            final(self).wf(),
    {
        let key: u64 = self.next;
        self.next = key + 1;
        self.cos.insert(key, co);
        assert(self@ =~= old(self)@.insert(key, co@));
        key
    }

    /// The coroutine with the given key.
    pub fn get(&self, key: u64) -> (co: Option<&Coroutine>)
        ensures
            co is Some <==> self@.contains_key(key),
            co is Some ==> co->Some_0@ == self@[key],
    {
        self.cos.get(&key)
    }

    /// Takes a coroutine out, to be changed and put back.
    pub(crate) fn take(&mut self, key: u64) -> (co: Coroutine)
        requires
            old(self)@.contains_key(key),
        ensures
            co@ == old(self)@[key],
            final(self)@ == old(self)@.remove(key),
            final(self).next_key() == old(self).next_key(),
    {
        let co: Coroutine = self.cos.remove(&key).unwrap();
        assert(self@ =~= old(self)@.remove(key));
        co
    }

    /// Puts a coroutine back.
    pub(crate) fn put(&mut self, key: u64, co: Coroutine)
        ensures
            final(self)@ == old(self)@.insert(key, co@),
            final(self).next_key() == old(self).next_key(),
    {
        self.cos.insert(key, co);
        assert(self@ =~= old(self)@.insert(key, co@));
    }

    /// Forgets a coroutine that has ended.
    pub fn release(&mut self, key: u64)
        requires
            old(self).wf(),
            old(self)@.contains_key(key),
            old(self)@[key].state is Finished,
        ensures
            final(self)@ == old(self)@.remove(key),
            final(self).next_key() == old(self).next_key(),
            final(self).wf(),
    {
        let _ = self.take(key);
    }
}

/// A new table is empty, and forgetting a coroutine forgets that one only: its key is not used again,
/// and every other coroutine is found as it was.
pub proof fn law_table_forgets_only_what_it_is_told_to(
    fresh: CoroutineTable,
    table: &mut CoroutineTable,
    key: u64,
    other: u64,
    before: Option<&Coroutine>,
    after: Option<&Coroutine>,
)
    requires
        call_ensures(CoroutineTable::new, (), fresh),
        call_ensures(CoroutineTable::release, (table, key), ()),
        call_ensures(CoroutineTable::get, (&*old(table), other), before),
        call_ensures(CoroutineTable::get, (&*final(table), other), after),
    ensures
        !fresh@.contains_key(other),
        before is Some <==> old(table)@.contains_key(other),
        after is Some <==> before is Some && other != key,
        after is Some ==> after->Some_0@ == before->Some_0@,
        before is Some ==> before->Some_0@ == old(table)@[other],
        final(table).next_key() == old(table).next_key(),
{
}

} // verus!
