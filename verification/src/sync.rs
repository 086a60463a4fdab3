//! Useful synchronization primitives
//!
//! The locks are those of `std::sync`. Where a coroutine finds a lock held, it yields and tries
//! again; yielding happens outside, so the blocking operations say what is to be done.

use crate::event::{EventSet, Token, RW};
use crate::evented::{EventedImpl, RcEventSource};
use crate::message::{in_coroutine, CurrentCoroutine, MioSender, Wakeup};
use std::collections::VecDeque;
use vstd::prelude::*;

pub mod mpsc;

verus! {

/// `std::sync::Mutex`.
#[verifier::external_type_specification]
#[verifier::external_body]
#[verifier::reject_recursive_types(T)]
pub struct ExMutex<T: ?Sized>(std::sync::Mutex<T>);

/// `std::sync::MutexGuard`.
#[verifier::external_type_specification]
#[verifier::external_body]
#[verifier::reject_recursive_types(T)]
pub struct ExMutexGuard<'a, T: ?Sized + 'a>(std::sync::MutexGuard<'a, T>);

/// `std::sync::RwLock`.
#[verifier::external_type_specification]
#[verifier::external_body]
#[verifier::reject_recursive_types(T)]
pub struct ExRwLock<T: ?Sized>(std::sync::RwLock<T>);

/// `std::sync::RwLockReadGuard`.
#[verifier::external_type_specification]
#[verifier::external_body]
#[verifier::reject_recursive_types(T)]
pub struct ExRwLockReadGuard<'rwlock, T: ?Sized>(std::sync::RwLockReadGuard<'rwlock, T>);

/// `std::sync::RwLockWriteGuard`.
#[verifier::external_type_specification]
#[verifier::external_body]
#[verifier::reject_recursive_types(T)]
pub struct ExRwLockWriteGuard<'a, T: ?Sized + 'a>(std::sync::RwLockWriteGuard<'a, T>);

/// A lock whose holder has panicked; what the lock guards comes with it all the same.
#[derive(Debug)]
pub struct PoisonError<G>(pub G);

/// Why a lock was not acquired.
#[derive(Debug)]
pub enum TryLockError<G> {
    /// A holder of the lock has panicked.
    Poisoned(PoisonError<G>),
    /// The lock is held.
    WouldBlock,
}

/// What a blocking operation on a lock does.
#[derive(Debug)]
pub enum LockStep<G> {
    /// Return to the caller.
    Return(Result<G, PoisonError<G>>),
    /// Yield the coroutine, then try again.
    Yield,
    /// There is no coroutine to yield: use the native lock, which blocks.
    Native,
}

/// The step that the outcome of one attempt in a coroutine calls for.
pub open spec fn lock_step_spec<G>(outcome: Result<G, TryLockError<G>>) -> LockStep<G> {
    match outcome {
        Ok(guard) => LockStep::Return(Ok(guard)),
        Err(TryLockError::Poisoned(p_err)) => LockStep::Return(Err(p_err)),
        Err(TryLockError::WouldBlock) => LockStep::Yield,
    }
}

/// Decides what follows one attempt of a coroutine to acquire a lock.
///
/// A lock that is held makes the coroutine yield; a poisoned one is handed out with its error.
pub fn lock_step<G>(outcome: Result<G, TryLockError<G>>) -> (step: LockStep<G>)
    ensures
        step == lock_step_spec(outcome),
{
    match outcome {
        Ok(guard) => LockStep::Return(Ok(guard)),
        Err(try_error) => {
            match try_error {
                TryLockError::Poisoned(p_err) => LockStep::Return(Err(p_err)),
                TryLockError::WouldBlock => LockStep::Yield,
            }
        },
    }
}

/// `std::sync::Mutex::new`: an unlocked mutex that guards `t`. What it guards is behind interior
/// mutability, so nothing is claimed of it here; callers can say that a mutex is one that this
/// function made of `t`.
pub assume_specification<T>[ std::sync::Mutex::<T>::new ](t: T) -> (lock: std::sync::Mutex<T>);

/// `std::sync::RwLock::new`: an unlocked lock that guards `t`. What it guards is behind interior
/// mutability, so nothing is claimed of it here; callers can say that a lock is one that this
/// function made of `t`.
pub assume_specification<T>[ std::sync::RwLock::<T>::new ](t: T) -> (lock: std::sync::RwLock<T>);

/// `std::sync::RwLock::is_poisoned`: whether a holder with write access has panicked. That can
/// change at any moment, so nothing is claimed of the answer here; callers can say that it is one
/// that this function gave for the lock.
pub assume_specification<T: ?Sized>[ std::sync::RwLock::<T>::is_poisoned ](
    lock: &std::sync::RwLock<T>,
) -> (poisoned: bool);

/// `std::sync::Mutex::try_lock`: the guard, or why there is none. That depends on who holds the
/// mutex at the moment, so nothing is claimed of the answer here; callers can say that it is one that
/// this function gave for the mutex.
#[verifier::external_body]
fn native_try_lock<T>(lock: &std::sync::Mutex<T>) -> (outcome: Result<
    std::sync::MutexGuard<'_, T>,
    TryLockError<std::sync::MutexGuard<'_, T>>,
>) {
    match lock.try_lock() {
        Ok(guard) => Ok(guard),
        Err(std::sync::TryLockError::Poisoned(p_err)) => {
            Err(TryLockError::Poisoned(PoisonError(p_err.into_inner())))
        },
        Err(std::sync::TryLockError::WouldBlock) => Err(TryLockError::WouldBlock),
    }
}

/// `std::sync::RwLock::try_read`: the guard, or why there is none. That depends on who holds the
/// lock at the moment, so nothing is claimed of the answer here; callers can say that it is one that
/// this function gave for the lock.
#[verifier::external_body]
fn native_try_read<T>(lock: &std::sync::RwLock<T>) -> (outcome: Result<
    std::sync::RwLockReadGuard<'_, T>,
    TryLockError<std::sync::RwLockReadGuard<'_, T>>,
>) {
    match lock.try_read() {
        Ok(guard) => Ok(guard),
        Err(std::sync::TryLockError::Poisoned(p_err)) => {
            Err(TryLockError::Poisoned(PoisonError(p_err.into_inner())))
        },
        Err(std::sync::TryLockError::WouldBlock) => Err(TryLockError::WouldBlock),
    }
}

/// `std::sync::RwLock::try_write`: the guard, or why there is none. That depends on who holds the
/// lock at the moment, so nothing is claimed of the answer here; callers can say that it is one that
/// this function gave for the lock.
#[verifier::external_body]
fn native_try_write<T>(lock: &std::sync::RwLock<T>) -> (outcome: Result<
    std::sync::RwLockWriteGuard<'_, T>,
    TryLockError<std::sync::RwLockWriteGuard<'_, T>>,
>) {
    match lock.try_write() {
        Ok(guard) => Ok(guard),
        Err(std::sync::TryLockError::Poisoned(p_err)) => {
            Err(TryLockError::Poisoned(PoisonError(p_err.into_inner())))
        },
        Err(std::sync::TryLockError::WouldBlock) => Err(TryLockError::WouldBlock),
    }
}

/// A reader-writer lock
///
/// Based on `std::sync::RwLock`. Yields on contention.
///
/// Works both inside and outside of coroutines.
#[verifier::reject_recursive_types(T)]
#[derive(Debug)]
pub struct RwLock<T> {
    lock: std::sync::RwLock<T>,
}

impl<T> RwLock<T> {
    /// The lock that this one is based on.
    pub closed spec fn native(&self) -> std::sync::RwLock<T> {
        self.lock
    }

    /// `try_read()` can have returned this.
    pub open spec fn tried_to_read<'a>(
        &self,
        outcome: Result<std::sync::RwLockReadGuard<'a, T>, TryLockError<std::sync::RwLockReadGuard<'a, T>>>,
    ) -> bool {
        call_ensures(RwLock::<T>::try_read, (self,), outcome)
    }

    /// The native lock can have answered an attempt to acquire shared read access like this.
    pub closed spec fn read_outcome<'a>(
        &self,
        outcome: Result<std::sync::RwLockReadGuard<'a, T>, TryLockError<std::sync::RwLockReadGuard<'a, T>>>,
    ) -> bool {
        call_ensures(native_try_read::<T>, (&self.lock,), outcome)
    }

    /// `try_write()` can have returned this.
    pub open spec fn tried_to_write<'a>(
        &self,
        outcome: Result<std::sync::RwLockWriteGuard<'a, T>, TryLockError<std::sync::RwLockWriteGuard<'a, T>>>,
    ) -> bool {
        call_ensures(RwLock::<T>::try_write, (self,), outcome)
    }

    /// The native lock can have answered an attempt to acquire exclusive write access like this.
    pub closed spec fn write_outcome<'a>(
        &self,
        outcome: Result<std::sync::RwLockWriteGuard<'a, T>, TryLockError<std::sync::RwLockWriteGuard<'a, T>>>,
    ) -> bool {
        call_ensures(native_try_write::<T>, (&self.lock,), outcome)
    }

    /// Creates a new instance of an RwLock<T> which is unlocked.
    ///
    /// The native lock is one that `std::sync::RwLock::new` makes of `t`.
    pub fn new(t: T) -> (made: Self)
        ensures
            call_ensures(std::sync::RwLock::<T>::new, (t,), made.native()),
    {
        RwLock { lock: std::sync::RwLock::new(t) }
    }

    /// Get a reference to raw `std::sync::RwLock`.
    ///
    /// Use it to perform operations outside of coroutines.
    pub fn native_lock(&self) -> (lock: &std::sync::RwLock<T>)
        ensures
            *lock == self.native(),
    {
        &self.lock
    }

    /// Locks this rwlock with shared read access, blocking the current coroutine until it can be
    /// acquired.
    ///
    /// In a coroutine this is one attempt like `try_read()` or `try_write()`. Whether it succeeds is up
    /// to the holders of the lock; `lock_step()` says what follows.
    pub fn read(&self, current: &CurrentCoroutine) -> (step: LockStep<
        std::sync::RwLockReadGuard<'_, T>,
    >)
        ensures
            step is Native <==> current.co is None,
            current.co is Some ==> exists|outcome: Result<
                std::sync::RwLockReadGuard<'_, T>,
                TryLockError<std::sync::RwLockReadGuard<'_, T>>,
            >| #[trigger]
                self.read_outcome(outcome) && self.tried_to_read(outcome) && step == lock_step_spec(
                    outcome,
                ),
    {
        if in_coroutine(current) {
            self.read_in_mioco()
        } else {
            LockStep::Native
        }
    }

    fn read_in_mioco(&self) -> (step: LockStep<std::sync::RwLockReadGuard<'_, T>>)
        ensures
            exists|outcome: Result<
                std::sync::RwLockReadGuard<'_, T>,
                TryLockError<std::sync::RwLockReadGuard<'_, T>>,
            >| #[trigger]
                self.read_outcome(outcome) && self.tried_to_read(outcome) && step == lock_step_spec(
                    outcome,
                ),
    {
        lock_step(self.try_read())
    }

    /// Attempts to acquire this rwlock with shared read access.
    pub fn try_read(&self) -> (outcome: Result<
        std::sync::RwLockReadGuard<'_, T>,
        TryLockError<std::sync::RwLockReadGuard<'_, T>>,
    >)
        ensures
            self.read_outcome(outcome),
    {
        native_try_read(&self.lock)
    }

    /// Locks this rwlock with exclusive write access, blocking the current coroutine until it can
    /// be acquired.
    ///
    /// In a coroutine this is one attempt like `try_read()` or `try_write()`. Whether it succeeds is up
    /// to the holders of the lock; `lock_step()` says what follows.
    pub fn write(&self, current: &CurrentCoroutine) -> (step: LockStep<
        std::sync::RwLockWriteGuard<'_, T>,
    >)
        ensures
            step is Native <==> current.co is None,
            current.co is Some ==> exists|outcome: Result<
                std::sync::RwLockWriteGuard<'_, T>,
                TryLockError<std::sync::RwLockWriteGuard<'_, T>>,
            >| #[trigger]
                self.write_outcome(outcome) && self.tried_to_write(outcome) && step == lock_step_spec(
                    outcome,
                ),
    {
        if in_coroutine(current) {
            self.write_in_mioco()
        } else {
            LockStep::Native
        }
    }

    fn write_in_mioco(&self) -> (step: LockStep<std::sync::RwLockWriteGuard<'_, T>>)
        ensures
            exists|outcome: Result<
                std::sync::RwLockWriteGuard<'_, T>,
                TryLockError<std::sync::RwLockWriteGuard<'_, T>>,
            >| #[trigger]
                self.write_outcome(outcome) && self.tried_to_write(outcome) && step == lock_step_spec(
                    outcome,
                ),
    {
        lock_step(self.try_write())
    }

    /// Attempts to lock this rwlock with exclusive write access.
    pub fn try_write(&self) -> (outcome: Result<
        std::sync::RwLockWriteGuard<'_, T>,
        TryLockError<std::sync::RwLockWriteGuard<'_, T>>,
    >)
        ensures
            self.write_outcome(outcome),
    {
        native_try_write(&self.lock)
    }

    /// Determines whether the lock is poisoned.
    ///
    /// The answer is one that the native lock gives.
    pub fn is_poisoned(&self) -> (poisoned: bool)
        ensures
            call_ensures(std::sync::RwLock::<T>::is_poisoned, (&self.native(),), poisoned),
    {
        self.lock.is_poisoned()
    }
}

/// A Mutex
///
/// Based on `std::sync::Mutex`.
///
/// Yields on contention. (NOTE: Subject to potential change).
///
/// Works both inside and outside of coroutines.
#[verifier::reject_recursive_types(T)]
#[derive(Debug)]
pub struct Mutex<T> {
    lock: std::sync::Mutex<T>,
}

impl<T> Mutex<T> {
    /// The lock that this one is based on.
    pub closed spec fn native(&self) -> std::sync::Mutex<T> {
        self.lock
    }

    /// `try_lock()` can have returned this.
    pub open spec fn tried_to_lock<'a>(
        &self,
        outcome: Result<std::sync::MutexGuard<'a, T>, TryLockError<std::sync::MutexGuard<'a, T>>>,
    ) -> bool {
        call_ensures(Mutex::<T>::try_lock, (self,), outcome)
    }

    /// The native lock can have answered an attempt to acquire it like this.
    pub closed spec fn lock_outcome<'a>(
        &self,
        outcome: Result<std::sync::MutexGuard<'a, T>, TryLockError<std::sync::MutexGuard<'a, T>>>,
    ) -> bool {
        call_ensures(native_try_lock::<T>, (&self.lock,), outcome)
    }

    /// Creates a new instance of an Mutex<T> which is unlocked.
    ///
    /// The native lock is one that `std::sync::Mutex::new` makes of `t`.
    pub fn new(t: T) -> (made: Self)
        ensures
            call_ensures(std::sync::Mutex::<T>::new, (t,), made.native()),
    {
        Mutex { lock: std::sync::Mutex::new(t) }
    }

    /// Get a reference to raw `std::sync::Mutex`.
    ///
    /// Use it to perform operations outside of coroutines.
    pub fn native_lock(&self) -> (lock: &std::sync::Mutex<T>)
        ensures
            *lock == self.native(),
    {
        &self.lock
    }

    /// Acquire a mutex, blocking the current coroutine until it is able to do so.
    ///
    /// In a coroutine this is one attempt like `try_lock()`. Whether it succeeds is up to the holder of
    /// the lock; `lock_step()` says what follows.
    pub fn lock(&self, current: &CurrentCoroutine) -> (step: LockStep<
        std::sync::MutexGuard<'_, T>,
    >)
        ensures
            step is Native <==> current.co is None,
            current.co is Some ==> exists|outcome: Result<
                std::sync::MutexGuard<'_, T>,
                TryLockError<std::sync::MutexGuard<'_, T>>,
            >| #[trigger]
                self.lock_outcome(outcome) && self.tried_to_lock(outcome) && step == lock_step_spec(
                    outcome,
                ),
    {
        if in_coroutine(current) {
            self.lock_in_mioco()
        } else {
            LockStep::Native
        }
    }

    fn lock_in_mioco(&self) -> (step: LockStep<std::sync::MutexGuard<'_, T>>)
        ensures
            exists|outcome: Result<
                std::sync::MutexGuard<'_, T>,
                TryLockError<std::sync::MutexGuard<'_, T>>,
            >| #[trigger]
                self.lock_outcome(outcome) && self.tried_to_lock(outcome) && step == lock_step_spec(
                    outcome,
                ),
    {
        lock_step(self.try_lock())
    }

    /// Attempt to acquire this lock.
    pub fn try_lock(&self) -> (outcome: Result<
        std::sync::MutexGuard<'_, T>,
        TryLockError<std::sync::MutexGuard<'_, T>>,
    >)
        ensures
            self.lock_outcome(outcome),
    {
        native_try_lock(&self.lock)
    }
}

/// Shared between all clones on Condvar
#[derive(Debug)]
pub struct CondvarShared {
    sleeping_coroutines: VecDeque<Wakeup>,
    counter: usize,
}

/// What clones of a `Condvar` share, as contracts describe it.
#[verifier::ext_equal]
pub struct CondvarView {
    /// The notifications that wake the sleeping coroutines up; who sleeps longest comes first.
    pub sleeping_coroutines: Seq<Wakeup>,
    /// Number of registrations.
    pub counter: usize,
}

impl View for CondvarShared {
    type V = CondvarView;

    closed spec fn view(&self) -> CondvarView {
        CondvarView { sleeping_coroutines: self.sleeping_coroutines@, counter: self.counter }
    }
}

/// Who is woken up.
#[derive(Copy, Clone, Debug, Eq, PartialEq, Structural)]
pub enum WakeOne {
    /// A coroutine, by this notification.
    Coroutine(Wakeup),
    /// A native thread, if any waits.
    Native,
}

impl CondvarView {
    /// Who is woken up next.
    pub open spec fn first(self) -> WakeOne {
        if self.sleeping_coroutines.len() > 0 {
            WakeOne::Coroutine(self.sleeping_coroutines[0])
        } else {
            WakeOne::Native
        }
    }

    /// After one has been woken up.
    pub open spec fn woken(self) -> CondvarView {
        if self.sleeping_coroutines.len() > 0 {
            CondvarView { sleeping_coroutines: self.sleeping_coroutines.skip(1), ..self }
        } else {
            self
        }
    }

    /// After a coroutine has gone to sleep.
    pub open spec fn asleep(self, wakeup: Wakeup) -> CondvarView {
        CondvarView {
            sleeping_coroutines: self.sleeping_coroutines.push(wakeup),
            counter: if self.counter < usize::MAX {
                (self.counter + 1) as usize
            } else {
                0
            },
        }
    }
}

impl CondvarShared {
    /// Nobody sleeps.
    pub fn new() -> (made: Self)
        ensures
            made@ == (CondvarView { sleeping_coroutines: Seq::empty(), counter: 0 }),
    {
        let made = CondvarShared { sleeping_coroutines: VecDeque::new(), counter: 0 };
        assert(made@ =~= CondvarView { sleeping_coroutines: Seq::empty(), counter: 0 });
        made
    }
}

/// The raw part of a `Condvar`.
#[derive(Copy, Clone, Debug)]
pub struct CondvarCore {
    /// The counter when the coroutine started to wait.
    pub last_counter: usize,
}

impl CondvarCore {
    /// Wakes up the coroutine that sleeps longest, or a native thread if no coroutine does.
    pub fn wake_one(&self, shared: &mut CondvarShared) -> (woken: WakeOne)
        ensures
            woken == old(shared)@.first(),
            final(shared)@ == old(shared)@.woken(),
    {
        match shared.sleeping_coroutines.pop_front() {
            Some(wakeup) => {
                assert(shared@ =~= old(shared)@.woken());
                WakeOne::Coroutine(wakeup)
            },
            None => {
                assert(shared@ =~= old(shared)@.woken());
                WakeOne::Native
            },
        }
    }

    /// Puts the coroutine that waits to sleep.
    ///
    /// If something has happened since it started to wait, one sleeper is woken up.
    pub fn register(
        &self,
        shared: &mut CondvarShared,
        sender: MioSender,
        token: Token,
        interest: EventSet,
    ) -> (woken: Option<WakeOne>)
        requires
            interest.readable,
        ensures
            ({
                let asleep = old(shared)@.asleep(Wakeup { to: sender, token });
                if old(shared)@.counter != self.last_counter {
                    woken == Some(asleep.first()) && final(shared)@ == asleep.woken()
                } else {
                    woken is None && final(shared)@ == asleep
                }
            }),
    {
        shared.sleeping_coroutines.push_back(Wakeup { to: sender, token });
        let prev: usize = shared.counter;
        shared.counter = if prev < usize::MAX {
            prev + 1
        } else {
            0
        };
        assert(shared@ =~= old(shared)@.asleep(Wakeup { to: sender, token }));
        if prev != self.last_counter {
            Some(self.wake_one(shared))
        } else {
            None
        }
    }

    /// Puts the coroutine that waits to sleep again.
    pub fn reregister(
        &self,
        shared: &mut CondvarShared,
        sender: MioSender,
        token: Token,
        interest: EventSet,
    ) -> (woken: Option<WakeOne>)
        requires
            interest.readable,
        ensures
            ({
                let asleep = old(shared)@.asleep(Wakeup { to: sender, token });
                if old(shared)@.counter != self.last_counter {
                    woken == Some(asleep.first()) && final(shared)@ == asleep.woken()
                } else {
                    woken is None && final(shared)@ == asleep
                }
            }),
    {
        self.register(shared, sender, token, interest)
    }
}

/// A condition variable
#[derive(Debug)]
pub struct Condvar(pub RcEventSource<CondvarCore>);

impl Condvar {
    /// A condition variable that nobody has waited on.
    pub fn new() -> (made: Self)
        ensures
            made.0.0.io == (CondvarCore { last_counter: 0 }),
            made.0.common() == crate::evented::fresh_common(),
    {
        Condvar(RcEventSource::new(CondvarCore { last_counter: 0 }))
    }

    /// Starts to wait.
    ///
    /// The caller gives its lock up, blocks the coroutine in these directions, and acquires the
    /// lock again.
    pub fn wait(&mut self, shared: &CondvarShared) -> (rw: RW)
        ensures
            rw == (RW { read: true, write: false }),
            final(self).0.0.io.last_counter == shared@.counter,
            final(self).0.common() == old(self).0.common(),
    {
        self.0.0.io.last_counter = shared.counter;
        RW::read()
    }
}

impl EventedImpl for Condvar {
    type Raw = CondvarCore;

    open spec fn source(&self) -> RcEventSource<CondvarCore> {
        self.0
    }

    fn shared(&self) -> (source: &RcEventSource<CondvarCore>) {
        &self.0
    }

    fn shared_mut(&mut self) -> (source: &mut RcEventSource<CondvarCore>) {
        &mut self.0
    }
}

/// Sleepers are woken up in the order in which they went to sleep: one more sleeper lies down
/// behind all others, and changes nothing about who is woken up before it.
pub proof fn law_condvar_is_fair(condvar: CondvarView, wakeup: Wakeup)
    ensures
        condvar.asleep(wakeup).sleeping_coroutines == condvar.sleeping_coroutines.push(wakeup),
        condvar.asleep(wakeup).first() == if condvar.sleeping_coroutines.len() > 0 {
            condvar.first()
        } else {
            WakeOne::Coroutine(wakeup)
        },
        condvar.sleeping_coroutines.len() > 0 ==> condvar.asleep(wakeup).woken()
            == condvar.woken().asleep(wakeup),
{
    if condvar.sleeping_coroutines.len() > 0 {
        assert(condvar.sleeping_coroutines.push(wakeup).skip(1)
            =~= condvar.sleeping_coroutines.skip(1).push(wakeup));
    }
}

/// What follows an attempt to acquire a lock: a guard is handed out, with the error of a holder that
/// has panicked if there was one, and a lock that is held makes the coroutine yield. Nothing else is
/// handed out, and a coroutine never waits natively.
pub proof fn law_attempts_are_reported<G>(outcome: Result<G, TryLockError<G>>, step: LockStep<G>)
    requires
        call_ensures(lock_step::<G>, (outcome,), step),
    ensures
        outcome matches Ok(guard) ==> step == LockStep::Return(Ok::<G, PoisonError<G>>(guard)),
        outcome matches Err(TryLockError::Poisoned(poisoned)) ==> step == LockStep::Return(
            Err::<G, PoisonError<G>>(poisoned),
        ),
        outcome matches Err(TryLockError::WouldBlock) ==> step is Yield,
        !(step is Native),
{
}

/// Locking a mutex in a coroutine is to try to lock it: a coroutine gets what `try_lock()` gives, and
/// yields exactly if that finds the mutex held. Outside of coroutines the native lock is used.
pub proof fn law_locking_is_trying<T>(
    mutex: Mutex<T>,
    current: CurrentCoroutine,
    step: LockStep<std::sync::MutexGuard<'_, T>>,
)
    requires
        call_ensures(Mutex::<T>::lock, (&mutex, &current), step),
    ensures
        step is Native <==> current.co is None,
        current.co is Some ==> exists|
            outcome: Result<
                std::sync::MutexGuard<'_, T>,
                TryLockError<std::sync::MutexGuard<'_, T>>,
            >,
        | #[trigger]
            call_ensures(Mutex::<T>::try_lock, (&mutex,), outcome) && match outcome {
                Ok(guard) => step == LockStep::Return(Ok(guard)),
                Err(TryLockError::Poisoned(poisoned)) => step == LockStep::Return(Err(poisoned)),
                Err(TryLockError::WouldBlock) => step is Yield,
            },
{
}

/// Locking for shared read access in a coroutine is to try to do so: a coroutine gets what
/// `try_read()` gives, and yields exactly if that finds the lock held. Outside of coroutines the
/// native lock is used.
pub proof fn law_reading_is_trying<T>(
    lock: RwLock<T>,
    current: CurrentCoroutine,
    step: LockStep<std::sync::RwLockReadGuard<'_, T>>,
)
    requires
        call_ensures(RwLock::<T>::read, (&lock, &current), step),
    ensures
        step is Native <==> current.co is None,
        current.co is Some ==> exists|
            outcome: Result<
                std::sync::RwLockReadGuard<'_, T>,
                TryLockError<std::sync::RwLockReadGuard<'_, T>>,
            >,
        | #[trigger]
            call_ensures(RwLock::<T>::try_read, (&lock,), outcome) && match outcome {
                Ok(guard) => step == LockStep::Return(Ok(guard)),
                Err(TryLockError::Poisoned(poisoned)) => step == LockStep::Return(Err(poisoned)),
                Err(TryLockError::WouldBlock) => step is Yield,
            },
{
}

/// Locking for exclusive write access in a coroutine is to try to do so: a coroutine gets what
/// `try_write()` gives, and yields exactly if that finds the lock held. Outside of coroutines the
/// native lock is used.
pub proof fn law_writing_is_trying<T>(
    lock: RwLock<T>,
    current: CurrentCoroutine,
    step: LockStep<std::sync::RwLockWriteGuard<'_, T>>,
)
    requires
        call_ensures(RwLock::<T>::write, (&lock, &current), step),
    ensures
        step is Native <==> current.co is None,
        current.co is Some ==> exists|
            outcome: Result<
                std::sync::RwLockWriteGuard<'_, T>,
                TryLockError<std::sync::RwLockWriteGuard<'_, T>>,
            >,
        | #[trigger]
            call_ensures(RwLock::<T>::try_write, (&lock,), outcome) && match outcome {
                Ok(guard) => step == LockStep::Return(Ok(guard)),
                Err(TryLockError::Poisoned(poisoned)) => step == LockStep::Return(Err(poisoned)),
                Err(TryLockError::WouldBlock) => step is Yield,
            },
{
}

/// The native lock of a new lock is one that was made of the value to be guarded, and it is the one
/// that is handed out; it is also the one that tells whether it is poisoned.
pub proof fn law_locks_guard_what_they_were_made_of<T>(
    t: T,
    mutex: Mutex<T>,
    native_mutex: &std::sync::Mutex<T>,
    lock: RwLock<T>,
    native_lock: &std::sync::RwLock<T>,
    poisoned: bool,
)
    requires
        call_ensures(RwLock::<T>::is_poisoned, (&lock,), poisoned),
        call_ensures(Mutex::<T>::new, (t,), mutex),
        call_ensures(Mutex::<T>::native_lock, (&mutex,), native_mutex),
        call_ensures(RwLock::<T>::new, (t,), lock),
        call_ensures(RwLock::<T>::native_lock, (&lock,), native_lock),
    ensures
        call_ensures(std::sync::Mutex::<T>::new, (t,), *native_mutex),
        call_ensures(std::sync::RwLock::<T>::new, (t,), *native_lock),
        call_ensures(std::sync::RwLock::<T>::is_poisoned, (native_lock,), poisoned),
{
}

/// A coroutine that goes to sleep on a condition variable sleeps until it is woken up: it lies down
/// behind all others. If another one has lain down since it started to wait, the one that has slept
/// longest is woken up instead of it being left to sleep unnoticed.
pub proof fn law_sleepers_lie_down_in_order(
    condvar: &mut Condvar,
    at_start: CondvarShared,
    rw: RW,
    shared: &mut CondvarShared,
    own: MioSender,
    token: Token,
    interest: EventSet,
    woken: Option<WakeOne>,
)
    requires
        call_ensures(Condvar::wait, (condvar, &at_start), rw),
        call_ensures(
            CondvarCore::register,
            (&final(condvar).0.0.io, shared, own, token, interest),
            woken,
        ),
    ensures
        rw == (RW { read: true, write: false }),
        final(condvar).0.0.common == old(condvar).0.0.common,
        ({
            let sleeping = old(shared)@.sleeping_coroutines.push(Wakeup { to: own, token });
            let nobody_came = old(shared)@.counter == at_start@.counter;
            &&& nobody_came ==> woken is None && final(shared)@.sleeping_coroutines == sleeping
            &&& !nobody_came ==> {
                &&& woken == Some(WakeOne::Coroutine(sleeping[0]))
                &&& final(shared)@.sleeping_coroutines == sleeping.skip(1)
            }
            &&& final(shared)@.counter == if old(shared)@.counter < usize::MAX {
                old(shared)@.counter + 1
            } else {
                0
            }
        }),
{
}

/// Waking one up wakes the coroutine that has slept longest, and that one only; a native thread is
/// woken up only if no coroutine sleeps. Nobody sleeps on a new condition variable.
pub proof fn law_longest_sleeper_is_woken_up(
    core_of: CondvarCore,
    shared: &mut CondvarShared,
    woken: WakeOne,
    fresh: CondvarShared,
    made: Condvar,
    again: &mut CondvarShared,
    own: MioSender,
    token: Token,
    interest: EventSet,
    asleep: Option<WakeOne>,
    first: &mut CondvarShared,
    asleep_first: Option<WakeOne>,
)
    requires
        call_ensures(CondvarCore::wake_one, (&core_of, shared), woken),
        call_ensures(CondvarShared::new, (), fresh),
        call_ensures(Condvar::new, (), made),
        old(again)@ == old(first)@,
        call_ensures(CondvarCore::reregister, (&core_of, again, own, token, interest), asleep),
        call_ensures(CondvarCore::register, (&core_of, first, own, token, interest), asleep_first),
    ensures
        old(shared)@.sleeping_coroutines.len() > 0 ==> {
            &&& woken == WakeOne::Coroutine(old(shared)@.sleeping_coroutines[0])
            &&& final(shared)@.sleeping_coroutines == old(shared)@.sleeping_coroutines.skip(1)
        },
        old(shared)@.sleeping_coroutines.len() == 0 ==> {
            &&& woken is Native
            &&& final(shared)@.sleeping_coroutines.len() == 0
        },
        final(shared)@.counter == old(shared)@.counter,
        fresh@.sleeping_coroutines.len() == 0,
        made.0.0.io.last_counter == fresh@.counter,
        made.0.0.common.id is None,
        asleep == asleep_first,
        final(again)@ == final(first)@,
{
}

} // verus!
