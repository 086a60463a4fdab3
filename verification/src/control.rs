//! Control of single coroutines, as schedulers see it.

use crate::coroutine::UserData;
use std::collections::VecDeque;
use vstd::prelude::*;

verus! {

/// Coroutine control block
///
/// Through this interface Coroutine can be resumed and migrated in the scheduler. There is no
/// second control for the same coroutine while this one exists, and every control ends in
/// `resume()`, `migrate()` or `drop()`. That a control goes out of scope is not noticed here: a
/// runtime whose schedulers may let that happen keeps the controls for them, and calls `drop()`.
#[derive(Debug)]
#[must_use]
pub struct CoroutineControl {
    is_yielding: bool,
    rc: u64,
    user_data: Option<UserData>,
}

/// What a scheduler asks the handler of its thread to do with a coroutine.
#[derive(Debug)]
pub enum Command {
    /// Let the coroutine run.
    Resume(CoroutineControl),
    /// Move the coroutine to the thread with this number.
    Migrate(CoroutineControl, usize),
    /// Force the coroutine to unwind.
    Kill(CoroutineControl),
}

impl Command {
    /// The control that the command is about.
    pub open spec fn control(self) -> CoroutineControl {
        match self {
            Command::Resume(ctrl) => ctrl,
            Command::Migrate(ctrl, _) => ctrl,
            Command::Kill(ctrl) => ctrl,
        }
    }

    /// Key of the coroutine that the command is about.
    pub open spec fn key(self) -> u64 {
        self.control().key()
    }
}

/// The event loop of a thread, as far as schedulers see it.
///
/// Collects what a scheduler asks for; the handler does it, in this order, as soon as the
/// scheduler returns.
#[derive(Debug)]
pub struct EventLoop {
    asked: VecDeque<Command>,
}

impl View for EventLoop {
    type V = Seq<Command>;

    closed spec fn view(&self) -> Seq<Command> {
        self.asked@
    }
}

impl EventLoop {
    /// Nothing has been asked for.
    pub(crate) fn new() -> (made: Self)
        ensures
            made@ == Seq::<Command>::empty(),
    {
        EventLoop { asked: VecDeque::new() }
    }

    /// Everything that has been asked for.
    pub(crate) fn into_commands(self) -> (asked: VecDeque<Command>)
        ensures
            asked@ == self@,
    {
        self.asked
    }
}

impl CoroutineControl {
    /// Key of the coroutine.
    pub closed spec fn key(self) -> u64 {
        self.rc
    }

    /// Is the coroutine ready after `yield_now()`?
    pub closed spec fn yielding(self) -> bool {
        self.is_yielding
    }

    /// User data of the coroutine.
    pub closed spec fn data(self) -> Option<UserData> {
        self.user_data
    }

    /// A control for a coroutine that did not yield.
    pub(crate) fn new(rc: u64, user_data: Option<UserData>) -> (made: Self)
        ensures
            made.key() == rc,
            !made.yielding(),
            made.data() == user_data,
    {
        CoroutineControl { is_yielding: false, rc, user_data }
    }

    /// The key of the coroutine.
    pub fn rc(&self) -> (rc: u64)
        ensures
            rc == self.key(),
    {
        self.rc
    }

    /// Resume Coroutine
    ///
    /// Panics if Coroutine is not in Ready state.
    pub fn resume(self, event_loop: &mut EventLoop)
        ensures
            final(event_loop)@ == old(event_loop)@.push(Command::Resume(self)),
    {
        event_loop.asked.push_back(Command::Resume(self));
    }

    /// Migrate to a different thread
    ///
    /// Move this Coroutine to be executed on a `SchedulerThread` for a given `thread_id`.
    ///
    /// Will panic if `thread_id` is not valid.
    pub fn migrate(self, event_loop: &mut EventLoop, thread_id: usize)
        ensures
            final(event_loop)@ == old(event_loop)@.push(Command::Migrate(self, thread_id)),
    {
        event_loop.asked.push_back(Command::Migrate(self, thread_id));
    }

    /// Give the coroutine up
    ///
    /// The coroutine will be killed.
    pub fn drop(self, event_loop: &mut EventLoop)
        ensures
            final(event_loop)@ == old(event_loop)@.push(Command::Kill(self)),
    {
        event_loop.asked.push_back(Command::Kill(self));
    }

    pub(crate) fn set_is_yielding(&mut self)
        ensures
            final(self).key() == old(self).key(),
            final(self).yielding(),
            final(self).data() == old(self).data(),
    {
        self.is_yielding = true;
    }

    /// Is this Coroutine ready after `yield_now()`?
    pub fn is_yielding(&self) -> (yes: bool)
        ensures
            yes == self.yielding(),
    {
        self.is_yielding
    }

    /// Gets the user data set through `set_userdata`. Returns `None` if the type does not match or
    /// if no data was set
    pub fn get_userdata(&self, type_id: u64) -> (value: Option<u64>)
        ensures
            value == UserData::value_of(self.data(), type_id),
    {
        UserData::get(&self.user_data, type_id)
    }
}

/// What a scheduler asks for is done with the coroutine whose control it gives away, after what it has
/// asked for before: the coroutine is resumed, sent to the thread that was named, or killed.
pub proof fn law_controls_ask_for_their_coroutine(
    ctrl: CoroutineControl,
    resuming: &mut EventLoop,
    migrating: &mut EventLoop,
    thread_id: usize,
    dropping: &mut EventLoop,
    yielding: bool,
    key: u64,
)
    requires
        call_ensures(CoroutineControl::resume, (ctrl, resuming), ()),
        call_ensures(CoroutineControl::migrate, (ctrl, migrating, thread_id), ()),
        call_ensures(CoroutineControl::drop, (ctrl, dropping), ()),
        call_ensures(CoroutineControl::is_yielding, (&ctrl,), yielding),
        call_ensures(CoroutineControl::rc, (&ctrl,), key),
    ensures
        final(resuming)@ == old(resuming)@.push(Command::Resume(ctrl)),
        final(migrating)@ == old(migrating)@.push(Command::Migrate(ctrl, thread_id)),
        final(dropping)@ == old(dropping)@.push(Command::Kill(ctrl)),
        yielding == ctrl.yielding(),
        key == ctrl.key(),
{
}

} // verus!
