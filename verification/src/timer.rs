//! Timers.
//!
//! The time comes from outside: an operation that depends on it takes the present moment as an
//! argument.

use crate::event::{Token, RW};
use crate::evented::{EventedImpl, RcEventSource};
use vstd::prelude::*;

verus! {

/// Nanoseconds in a second.
pub const NANOS_PER_SEC: u32 = 1_000_000_000;

/// Nanoseconds in a millisecond.
pub const NANOS_PER_MILLI: u32 = 1_000_000;

/// A moment, counted from an arbitrary fixed one.
#[derive(Copy, Clone, Debug, Eq, PartialEq, Structural)]
pub struct Instant {
    /// Whole seconds.
    pub secs: u64,
    /// Nanoseconds behind them.
    pub nanos: u32,
}

impl Instant {
    /// The nanoseconds are less than a second.
    pub open spec fn wf(self) -> bool {
        self.nanos < NANOS_PER_SEC
    }

    /// Nanoseconds since the fixed moment.
    pub open spec fn ns(self) -> int {
        self.secs * 1_000_000_000 + self.nanos
    }

    /// Is this moment not after the other one?
    pub fn not_after(&self, other: &Instant) -> (yes: bool)
        requires
            self.wf(),
            other.wf(),
        ensures
            yes == (self.ns() <= other.ns()),
    {
        self.secs < other.secs || (self.secs == other.secs && self.nanos <= other.nanos)
    }

    /// The moment `delay_ms` milliseconds later.
    pub fn after_millis(&self, delay_ms: u64) -> (later: Instant)
        requires
            self.wf(),
            self.secs + delay_ms / 1000 + 1 <= u64::MAX,
        ensures
            later.wf(),
            later.ns() == self.ns() + delay_ms * 1_000_000,
    {
        let secs: u64 = self.secs + delay_ms / 1000;
        let nanos: u32 = self.nanos + (delay_ms % 1000) as u32 * NANOS_PER_MILLI;
        if nanos >= NANOS_PER_SEC {
            Instant { secs: secs + 1, nanos: nanos - NANOS_PER_SEC }
        } else {
            Instant { secs, nanos }
        }
    }

    /// Whole milliseconds from this moment to a later one.
    pub fn millis_to(&self, later: &Instant) -> (millis: u64)
        requires
            self.wf(),
            later.wf(),
            self.ns() <= later.ns(),
            (later.secs - self.secs) * 1000 + 999 <= u64::MAX,
        ensures
            millis == (later.ns() - self.ns()) / 1_000_000,
    {
        let mut secs: u64 = later.secs - self.secs;
        let nanos: u32 = if later.nanos >= self.nanos {
            later.nanos - self.nanos
        } else {
            secs = secs - 1;
            NANOS_PER_SEC - (self.nanos - later.nanos)
        };
        assert(later.ns() - self.ns() == secs * 1_000_000_000 + nanos);
        secs * 1000 + (nanos / NANOS_PER_MILLI) as u64
    }
}

/// The raw part of a timer.
#[derive(Copy, Clone, Debug)]
pub struct TimerCore {
    /// The moment at which the timer is done.
    pub timeout: Instant,
    /// Number of the event loop's timeout that was set for it last.
    pub mio_timeout: Option<u64>,
}

/// What registering a timer calls for.
#[derive(Copy, Clone, Debug, Eq, PartialEq, Structural)]
pub enum TimerStep {
    /// The timer is done: there is no reason to block.
    Ready,
    /// Let the event loop time out.
    Timeout {
        /// The token to time out with.
        token: Token,
        /// The delay in milliseconds.
        delay_ms: u64,
    },
}

/// What reading a timer comes to.
#[derive(Copy, Clone, Debug)]
pub enum ReadStep {
    /// The timer is done; this is the present moment.
    Done(Instant),
    /// Block the coroutine until the timer is ready in these directions, then try again.
    Block(RW),
}

/// A Timer generating event after a given time
///
/// Note the timer effective resolution is limited by the underlying timer of the event loop.
#[derive(Debug)]
pub struct Timer {
    /// The event source.
    pub rc: RcEventSource<TimerCore>,
}

impl TimerCore {
    /// The timer is done at the moment `now`.
    pub open spec fn done(self, now: Instant) -> bool {
        self.timeout.ns() <= now.ns()
    }

    /// What registering at the moment `now` calls for: the delay is in whole milliseconds.
    pub open spec fn step(self, now: Instant, token: Token) -> TimerStep {
        if self.done(now) {
            TimerStep::Ready
        } else {
            TimerStep::Timeout {
                token,
                delay_ms: ((self.timeout.ns() - now.ns()) / 1_000_000) as u64,
            }
        }
    }

    /// The delay from `now` to the timeout can be expressed.
    pub open spec fn in_range(self, now: Instant) -> bool {
        &&& self.timeout.wf()
        &&& now.wf()
        &&& (self.timeout.secs - now.secs) * 1000 + 999 <= u64::MAX
    }

    /// Is the timer done?
    pub fn should_resume(&self, now: &Instant) -> (yes: bool)
        requires
            self.timeout.wf(),
            now.wf(),
        ensures
            yes == self.done(*now),
    {
        self.timeout.not_after(now)
    }

    /// Registers the timer.
    ///
    /// The number of the event loop's timeout, if one is set, is to be reported with
    /// `timeout_set()`.
    pub fn register(&self, now: &Instant, token: Token) -> (step: TimerStep)
        requires
            self.in_range(*now),
        ensures
            step == self.step(*now, token),
    {
        if self.timeout.not_after(now) {
            return TimerStep::Ready;
        }
        let delay_ms: u64 = now.millis_to(&self.timeout);
        TimerStep::Timeout { token, delay_ms }
    }

    /// The event loop has set the timeout with this number.
    pub fn timeout_set(&mut self, mio_timeout: u64)
        ensures
            *final(self) == (TimerCore { mio_timeout: Some(mio_timeout), ..*old(self) }),
    {
        self.mio_timeout = Some(mio_timeout);
    }

    /// Registers the timer again.
    ///
    /// Returns the number of the event loop's timeout that is to be cleared before.
    pub fn reregister(&self, now: &Instant, token: Token) -> (cleared_step: (
        Option<u64>,
        TimerStep,
    ))
        requires
            self.in_range(*now),
        ensures
            cleared_step == (self.mio_timeout, self.step(*now, token)),
    {
        (self.mio_timeout, self.register(now, token))
    }

    /// Ends the registration of the timer.
    ///
    /// Returns the number of the event loop's timeout that is to be cleared.
    pub fn deregister(&self) -> (cleared: Option<u64>)
        ensures
            cleared == self.mio_timeout,
    {
        self.mio_timeout
    }
}

impl Timer {
    /// The raw part of the timer.
    pub open spec fn raw(self) -> TimerCore {
        self.rc.0.io
    }

    /// Create a new timer
    ///
    /// It is done right away.
    pub fn new(now: Instant) -> (made: Timer)
        ensures
            made.raw() == (TimerCore { timeout: now, mio_timeout: None }),
            made.rc.common() == crate::evented::fresh_common(),
    {
        Timer { rc: RcEventSource::new(TimerCore { timeout: now, mio_timeout: None }) }
    }

    fn is_done(&self, now: &Instant) -> (done: bool)
        requires
            self.raw().timeout.wf(),
            now.wf(),
        ensures
            done == self.raw().done(*now),
    {
        self.rc.io_ref().should_resume(now)
    }

    /// Read a timer to block on it until it is done.
    ///
    /// Returns current time
    pub fn read(&self, now: Instant) -> (step: ReadStep)
        requires
            self.raw().timeout.wf(),
            now.wf(),
        ensures
            step == if self.raw().done(now) {
                ReadStep::Done(now)
            } else {
                ReadStep::Block(RW { read: true, write: false })
            },
    {
        match self.try_read(now) {
            Some(t) => ReadStep::Done(t),
            None => ReadStep::Block(RW::read()),
        }
    }

    /// Try reading current time (if the timer is done)
    pub fn try_read(&self, now: Instant) -> (time: Option<Instant>)
        requires
            self.raw().timeout.wf(),
            now.wf(),
        ensures
            time == if self.raw().done(now) {
                Some(now)
            } else {
                None
            },
    {
        if self.is_done(&now) {
            Some(now)
        } else {
            None
        }
    }

    /// Set timeout for the timer
    ///
    /// The timeout counts from the time `set_timeout` is called.
    pub fn set_timeout(&mut self, now: Instant, delay_ms: u64)
        requires
            now.wf(),
            now.secs + delay_ms / 1000 + 1 <= u64::MAX,
        ensures
            final(self).raw().timeout.wf(),
            final(self).raw().timeout.ns() == now.ns() + delay_ms * 1_000_000,
            final(self).raw().mio_timeout == old(self).raw().mio_timeout,
            final(self).rc.common() == old(self).rc.common(),
    {
        let timeout: Instant = now.after_millis(delay_ms);
        self.rc.0.io.timeout = timeout;
    }

    /// Set timeout for the timer using absolute time.
    pub fn set_timeout_absolute(&mut self, timeout: Instant)
        ensures
            final(self).raw() == (TimerCore { timeout, ..old(self).raw() }),
            final(self).rc.common() == old(self).rc.common(),
    {
        self.rc.0.io.timeout = timeout;
    }

    /// Get absolute value of the timer timeout.
    pub fn get_timeout_absolute(&self) -> (timeout: Instant)
        ensures
            timeout == self.raw().timeout,
    {
        self.rc.io_ref().timeout
    }
}

impl EventedImpl for Timer {
    type Raw = TimerCore;

    open spec fn source(&self) -> RcEventSource<TimerCore> {
        self.rc
    }

    fn shared(&self) -> (source: &RcEventSource<TimerCore>) {
        &self.rc
    }

    fn shared_mut(&mut self) -> (source: &mut RcEventSource<TimerCore>) {
        &mut self.rc
    }
}

/// Block coroutine for a given time
///
/// Returns the timer to be read, which is done `time_ms` milliseconds from now; it is done right
/// away if that is not in the future.
///
/// Warning: The precision is limited by the settings of the event loop. Any small value of
/// `time_ms` will effectively be rounded up to the event loop's tick.
pub fn sleep(now: Instant, time_ms: i64) -> (timer: Timer)
    requires
        now.wf(),
        now.secs + time_ms / 1000 + 1 <= u64::MAX,
    ensures
        timer.raw().timeout.wf(),
        timer.raw().timeout.ns() == now.ns() + if time_ms > 0 {
            time_ms * 1_000_000
        } else {
            0
        },
        timer.raw().mio_timeout is None,
        timer.rc.common() == crate::evented::fresh_common(),
{
    let mut timer: Timer = Timer::new(now);
    if time_ms > 0 {
        timer.set_timeout(now, time_ms as u64);
    }
    timer
}

/// A timer is not done before its timeout and is done from then on: once done, it stays done.
pub proof fn law_timer_is_done_from_its_timeout_on(raw: TimerCore, now: Instant, later: Instant)
    requires
        now.ns() <= later.ns(),
    ensures
        raw.done(now) <==> raw.timeout.ns() <= now.ns(),
        raw.done(now) ==> raw.done(later),
{
}

/// A registered timer is never left waiting for more than the time that is left, and for less than
/// that by no more than a millisecond.
pub proof fn law_timer_delay(raw: TimerCore, now: Instant, token: Token)
    requires
        raw.in_range(now),
        !raw.done(now),
    ensures
        raw.step(now, token) matches TimerStep::Timeout { delay_ms, .. } && delay_ms * 1_000_000
            <= raw.timeout.ns() - now.ns() < (delay_ms + 1) * 1_000_000,
{
    let ns = raw.timeout.ns() - now.ns();
    assert(ns / 1_000_000 <= u64::MAX);
}

/// A timer that is set is done from its delay on, and not before: reading it gives the present moment
/// if that is so, and blocks otherwise. Trying does the same without blocking. A moment that was set
/// absolutely is the one that is got.
pub proof fn law_timer_is_done_after_its_delay(
    timer: &mut Timer,
    set_at: Instant,
    delay_ms: u64,
    now: Instant,
    step: ReadStep,
    time: Option<Instant>,
    absolute: &mut Timer,
    timeout: Instant,
    got: Instant,
)
    requires
        call_ensures(Timer::set_timeout, (timer, set_at, delay_ms), ()),
        call_ensures(Timer::read, (&*final(timer), now), step),
        call_ensures(Timer::try_read, (&*final(timer), now), time),
        call_ensures(Timer::set_timeout_absolute, (absolute, timeout), ()),
        call_ensures(Timer::get_timeout_absolute, (&*final(absolute),), got),
    ensures
        ({
            let done = now.secs * 1_000_000_000 + now.nanos >= set_at.secs * 1_000_000_000
                + set_at.nanos + delay_ms * 1_000_000;
            &&& done ==> step == ReadStep::Done(now) && time == Some(now)
            &&& !done ==> step == ReadStep::Block(RW { read: true, write: false }) && time is None
        }),
        final(timer).rc.0.io.mio_timeout == old(timer).rc.0.io.mio_timeout,
        final(timer).rc.0.common == old(timer).rc.0.common,
        got == timeout,
        final(absolute).rc.0.io.mio_timeout == old(absolute).rc.0.io.mio_timeout,
        final(absolute).rc.0.common == old(absolute).rc.0.common,
{
}

/// A new timer is done right away, and sleeping takes as long as was asked for: no time at all if that
/// is not positive.
pub proof fn law_sleeping_takes_its_time(
    started: Instant,
    fresh: Timer,
    fresh_time: Option<Instant>,
    time_ms: i64,
    timer: Timer,
    now: Instant,
    time: Option<Instant>,
)
    requires
        call_ensures(Timer::new, (started,), fresh),
        call_ensures(Timer::try_read, (&fresh, started), fresh_time),
        call_ensures(sleep, (started, time_ms), timer),
        call_ensures(Timer::try_read, (&timer, now), time),
    ensures
        fresh_time == Some(started),
        time is Some ==> time == Some(now),
        time is Some <==> now.secs * 1_000_000_000 + now.nanos >= started.secs * 1_000_000_000
            + started.nanos + if time_ms > 0 {
            time_ms * 1_000_000
        } else {
            0
        },
        timer.rc.0.io.mio_timeout is None,
        fresh.rc.0.io.mio_timeout is None,
{
}

/// A timer that is registered is ready if it is done; otherwise the event loop times out under its
/// token, not after the moment that it is set to and less than a millisecond before. Registering it
/// again clears the timeout that was set last and does the same, and deregistering clears it.
pub proof fn law_registered_timer_times_out(
    raw: TimerCore,
    now: Instant,
    token: Token,
    step: TimerStep,
    again: (Option<u64>, TimerStep),
    set: &mut TimerCore,
    number: u64,
    cleared: Option<u64>,
    yes: bool,
)
    requires
        raw.in_range(now),
        call_ensures(TimerCore::register, (&raw, &now, token), step),
        call_ensures(TimerCore::reregister, (&raw, &now, token), again),
        call_ensures(TimerCore::timeout_set, (set, number), ()),
        call_ensures(TimerCore::deregister, (&*final(set),), cleared),
        call_ensures(TimerCore::should_resume, (&raw, &now), yes),
    ensures
        ({
            let left = raw.timeout.secs * 1_000_000_000 + raw.timeout.nanos - (now.secs
                * 1_000_000_000 + now.nanos);
            &&& yes <==> left <= 0
            &&& left <= 0 ==> step is Ready
            &&& left > 0 ==> {
                &&& step matches TimerStep::Timeout { token: under, delay_ms }
                &&& under == token
                &&& delay_ms * 1_000_000 <= left < (delay_ms + 1) * 1_000_000
            }
        }),
        again.0 == raw.mio_timeout,
        again.1 == step,
        cleared == Some(number),
        final(set).timeout == old(set).timeout,
{
    if !raw.done(now) {
        law_timer_delay(raw, now, token);
    }
}

/// Moments are ordered, and a delay leads from one to a later one: a moment is not after another
/// exactly if it is no more nanoseconds from the fixed one, `delay_ms` milliseconds later is that many
/// million nanoseconds more, and the milliseconds in between are those that fit in whole.
pub proof fn law_moments_and_delays(
    now: Instant,
    other: Instant,
    not_after: bool,
    delay_ms: u64,
    later: Instant,
    millis: u64,
    back: u64,
)
    requires
        now.nanos < 1_000_000_000,
        other.nanos < 1_000_000_000,
        call_ensures(Instant::not_after, (&now, &other), not_after),
        call_ensures(Instant::after_millis, (&now, delay_ms), later),
        call_ensures(Instant::millis_to, (&now, &other), millis),
        call_ensures(Instant::millis_to, (&now, &later), back),
    ensures
        not_after <==> now.secs < other.secs || (now.secs == other.secs && now.nanos <= other.nanos),
        later.nanos < 1_000_000_000,
        later.secs * 1_000_000_000 + later.nanos == now.secs * 1_000_000_000 + now.nanos + delay_ms
            * 1_000_000,
        not_after ==> millis * 1_000_000 <= (other.secs * 1_000_000_000 + other.nanos) - (now.secs
            * 1_000_000_000 + now.nanos) < (millis + 1) * 1_000_000,
        back == delay_ms,
{
}

} // verus!
