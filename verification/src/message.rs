//! Addresses of the threads of an instance, and what is sent to wake a coroutine up.

use crate::event::Token;
use vstd::prelude::*;

verus! {

/// Can send messages to the event loop of one thread of the instance.
#[derive(Copy, Clone, Debug, Eq, PartialEq, Structural)]
pub struct MioSender {
    /// Number of the thread.
    pub thread_id: usize,
}

/// A notification to be sent to the thread of a coroutine that waits on a channel.
#[derive(Copy, Clone, Debug, Eq, PartialEq, Structural)]
pub struct Wakeup {
    /// The thread that the coroutine belongs to.
    pub to: MioSender,
    /// The token that the coroutine's event source is registered with.
    pub token: Token,
}

/// The coroutine that a native thread is executing, if any.
///
/// There is one such value for each native thread.
#[derive(Debug)]
pub struct CurrentCoroutine {
    /// Key of the coroutine.
    pub co: Option<u64>,
}

impl CurrentCoroutine {
    /// What a native thread starts with: it executes no coroutine.
    pub fn new() -> (made: CurrentCoroutine)
        ensures
            made.co is None,
            made == Self::at_start(),
    {
        CurrentCoroutine { co: None }
    }

    /// What a native thread starts with.
    pub open spec fn at_start() -> CurrentCoroutine {
        CurrentCoroutine { co: None }
    }

    /// The value after `co` was saved or restored.
    pub open spec fn replaced(self, co: Option<u64>) -> CurrentCoroutine {
        CurrentCoroutine { co }
    }
}

/// The key of the coroutine that is being executed.
pub fn tl_current_coroutine_ptr(current: &CurrentCoroutine) -> (co: Option<u64>)
    ensures
        co == current.co,
{
    current.co
}

/// Makes `co` the coroutine that is being executed, and returns the one that was before.
pub fn tl_current_coroutine_ptr_save(current: &mut CurrentCoroutine, co: Option<u64>) -> (prev:
    Option<u64>)
    ensures
        prev == old(current).co,
        *final(current) == old(current).replaced(co),
{
    let prev: Option<u64> = current.co;
    current.co = co;
    prev
}

/// Puts the coroutine that was being executed before back in its place.
pub fn tl_current_coroutine_ptr_restore(current: &mut CurrentCoroutine, co: Option<u64>)
    ensures
        *final(current) == old(current).replaced(co),
{
    current.co = co;
}

/// Returns true when executing inside a coroutine, false otherwise.
pub fn in_coroutine(current: &CurrentCoroutine) -> (inside: bool)
    ensures
        inside == (current.co is Some),
{
    tl_current_coroutine_ptr(current).is_some()
}

/// The values of all native threads after these savings and restorings, each with the number of
/// the thread that it happened on, in the order in which they happened.
pub open spec fn current_after(done: Seq<(nat, Option<u64>)>) -> spec_fn(nat) -> CurrentCoroutine
    decreases done.len(),
{
    if done.len() == 0 {
        |thread: nat| CurrentCoroutine::at_start()
    } else {
        let before = current_after(done.drop_last());
        let (on, co) = done.last();
        |thread: nat|
            if thread == on {
                before(thread).replaced(co)
            } else {
                before(thread)
            }
    }
}

/// What a thread has saved or restored last is what it reads, whatever the other threads do; a
/// thread that has saved and restored nothing executes no coroutine.
pub proof fn law_each_thread_has_its_own_coroutine(
    done: Seq<(nat, Option<u64>)>,
    thread: nat,
    last: int,
)
    requires
        -1 <= last < done.len(),
        last >= 0 ==> done[last].0 == thread,
        forall|i: int| last < i < done.len() ==> (#[trigger] done[i]).0 != thread,
    ensures
        current_after(done)(thread) == (if last == -1 {
            CurrentCoroutine::at_start()
        } else {
            CurrentCoroutine { co: done[last].1 }
        }),
        CurrentCoroutine::at_start().co is None,
    decreases done.len(),
{
    if last + 1 < done.len() {
        law_each_thread_has_its_own_coroutine(done.drop_last(), thread, last);
    }
}

/// What a thread saves is what it reads, as often as it does, and what it had before is what saving
/// gives back; restoring that puts it back. A thread executes a coroutine exactly while it has one.
pub proof fn law_saved_coroutine_is_restored(
    fresh: CurrentCoroutine,
    saving: &mut CurrentCoroutine,
    co: Option<u64>,
    prev: Option<u64>,
    read: Option<u64>,
    inside: bool,
    restoring: &mut CurrentCoroutine,
    read_again: Option<u64>,
    before: Option<u64>,
)
    requires
        call_ensures(CurrentCoroutine::new, (), fresh),
        call_ensures(tl_current_coroutine_ptr, (&*old(saving),), before),
        call_ensures(tl_current_coroutine_ptr_save, (saving, co), prev),
        call_ensures(tl_current_coroutine_ptr, (&*final(saving),), read),
        call_ensures(in_coroutine, (&*final(saving),), inside),
        call_ensures(tl_current_coroutine_ptr_restore, (restoring, prev), ()),
        call_ensures(tl_current_coroutine_ptr, (&*final(restoring),), read_again),
    ensures
        fresh.co is None,
        read == co,
        inside <==> co is Some,
        prev == before,
        read_again == before,
{
}

} // verus!
