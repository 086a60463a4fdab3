//! Schedulers: in which order, and on which threads, coroutines run.

use crate::control::{Command, CoroutineControl, EventLoop};
use std::collections::VecDeque;
use std::sync::atomic::{AtomicUsize, Ordering};
use std::sync::Arc;
use vstd::multiset::Multiset;
use vstd::prelude::*;

verus! {

/// Keys of the coroutines that the controls are for.
pub open spec fn control_keys(controls: Seq<CoroutineControl>) -> Multiset<u64> {
    controls.map_values(|ctrl: CoroutineControl| ctrl.key()).to_multiset()
}

/// Keys of the coroutines that the commands are about.
pub open spec fn command_keys(commands: Seq<Command>) -> Multiset<u64> {
    commands.map_values(|command: Command| command.key()).to_multiset()
}

/// Coroutine Scheduler
///
/// Custom implementations of this trait allow users to change the order in which Coroutines are
/// being scheduled.
pub trait Scheduler {
    /// What it spawns for each thread.
    type Thread: SchedulerThread;

    /// What a call of `spawn_thread` may come to.
    ///
    /// A scheduler that does not say so may spawn anything.
    open spec fn spawn_step(&self, thread: Self::Thread) -> bool {
        true
    }

    /// Spawn per-thread Scheduler
    fn spawn_thread(&self) -> (thread: Self::Thread)
        ensures
            self.spawn_step(thread),
            thread.held() == Multiset::<u64>::empty(),
    ;
}

/// Per-thread Scheduler
///
/// A scheduler is handed a control for every coroutine that can run. It asks the event loop to
/// resume, migrate or kill the coroutine, or keeps the control to do so later; it never loses one.
pub trait SchedulerThread: Sized {
    /// Keys of the coroutines whose controls the scheduler keeps.
    ///
    /// A scheduler that does not say so keeps none.
    open spec fn held(&self) -> Multiset<u64> {
        Multiset::empty()
    }

    /// What a call of `spawned` may come to.
    ///
    /// A scheduler that does not say so may do anything.
    open spec fn spawned_step(
        pre: Self,
        coroutine_ctrl: CoroutineControl,
        post: Self,
        asked: Seq<Command>,
    ) -> bool {
        true
    }

    /// What a call of `ready` may come to.
    ///
    /// A scheduler that does not say so may do anything.
    open spec fn ready_step(
        pre: Self,
        coroutine_ctrl: CoroutineControl,
        post: Self,
        asked: Seq<Command>,
    ) -> bool {
        true
    }

    /// What a call of `tick` may come to.
    ///
    /// A scheduler that does not say so may do anything.
    open spec fn tick_step(pre: Self, post: Self, asked: Seq<Command>) -> bool {
        true
    }

    /// What a call of `timeout` may come to.
    ///
    /// A scheduler that does not say so may do anything.
    open spec fn timeout_step(pre: Self, post: Self, timeout: Option<u64>) -> bool {
        true
    }

    /// New coroutine was spawned.
    ///
    /// This can be used to run it immediately (see `CoroutineControl::resume()`), save it to be
    /// started later, or migrate it to different thread immediately (see
    /// `CoroutineControl::migrate()`).
    fn spawned(&mut self, event_loop: &mut EventLoop, coroutine_ctrl: CoroutineControl)
        requires
            old(event_loop)@.len() == 0,
        ensures
            Self::spawned_step(*old(self), coroutine_ctrl, *final(self), final(event_loop)@),
            command_keys(final(event_loop)@).add(final(self).held()) == old(self).held().insert(
                coroutine_ctrl.key(),
            ),
    ;

    /// A Coroutine became ready.
    ///
    /// `coroutine_ctrl` is a control reference to the Coroutine that became ready (to be resumed).
    /// It can be resumed immediately, or stored somewhere to be resumed later.
    fn ready(&mut self, event_loop: &mut EventLoop, coroutine_ctrl: CoroutineControl)
        requires
            old(event_loop)@.len() == 0,
        ensures
            Self::ready_step(*old(self), coroutine_ctrl, *final(self), final(event_loop)@),
            command_keys(final(event_loop)@).add(final(self).held()) == old(self).held().insert(
                coroutine_ctrl.key(),
            ),
    ;

    /// The event loop's tick have completed.
    ///
    /// Events are signaled in batches, after which a `tick` is signaled.
    ///
    /// All events events have been processed and all unblocked coroutines signaled with
    /// `SchedulerThread::ready()`.
    ///
    /// After returning from this function, a new batch of events will be processed.
    fn tick(&mut self, event_loop: &mut EventLoop)
        requires
            old(event_loop)@.len() == 0,
        ensures
            Self::tick_step(*old(self), *final(self), final(event_loop)@),
            command_keys(final(event_loop)@).add(final(self).held()) == old(self).held(),
    ;

    /// Set the maximum time till the next tick.
    ///
    /// `timeout` will be called after each `tick` when all `ready` and `spawned` coroutines have
    /// been delivered to the scheduler. It can be used to force maximum time before next `tick` in
    /// case of no earlier events.
    ///
    /// Returning `None` means no timeout. `Some(time)` is a time in ms.
    fn timeout(&mut self) -> (timeout: Option<u64>)
        ensures
            Self::timeout_step(*old(self), *final(self), timeout),
            final(self).held() == old(self).held(),
    ;
}

/// Default, simple first-in-first-out Scheduler.
///
/// Newly spawned coroutines will be spread in round-robbin fashion between threads.
#[derive(Debug)]
pub struct FifoScheduler {
    thread_num: Arc<AtomicUsize>,
}

/// The part of a `FifoScheduler` on one thread.
#[derive(Debug)]
pub struct FifoSchedulerThread {
    thread_id: usize,
    thread_i: usize,
    thread_num: Arc<AtomicUsize>,
    delayed: VecDeque<CoroutineControl>,
}

/// What the part of a `FifoScheduler` on one thread is, as its contracts describe it.
#[verifier::ext_equal]
pub struct FifoView {
    /// Number of the thread among those of the scheduler.
    pub thread_id: usize,
    /// Number of the thread that the next new coroutine goes to.
    pub thread_i: usize,
    /// Controls of coroutines that have yielded, in the order in which they did.
    pub delayed: Seq<CoroutineControl>,
    /// The number of threads of the scheduler, shared between them.
    pub counter: AtomicUsize,
}

/// The number of the thread after `thread_i`, when there are `thread_num` of them.
pub open spec fn next_thread(thread_i: usize, thread_num: usize) -> usize {
    if thread_i + 1 < thread_num {
        (thread_i + 1) as usize
    } else {
        0
    }
}

/// Where the `k`-th coroutine after a given moment goes, if there are `thread_num` threads and
/// the next one goes to `thread_i`.
pub open spec fn nth_thread(thread_i: usize, thread_num: usize, k: nat) -> usize
    decreases k,
{
    if k == 0 {
        thread_i
    } else {
        next_thread(nth_thread(thread_i, thread_num, (k - 1) as nat), thread_num)
    }
}

/// The command to resume.
pub open spec fn resume_command(ctrl: CoroutineControl) -> Command {
    Command::Resume(ctrl)
}

/// It is the turn of the thread after the one whose turn it was, for a number of threads that the
/// counter was read as. Nothing else has changed.
pub open spec fn turn_passed(pre: FifoView, post: FifoView) -> bool {
    exists|n: usize| #[trigger]
        read_as(pre.counter, n) && post == (FifoView {
            thread_i: next_thread(pre.thread_i, n),
            ..pre
        })
}

impl FifoScheduler {
    /// The number of threads that have been spawned, which those threads share.
    pub closed spec fn counter(&self) -> AtomicUsize {
        *self.thread_num
    }

    /// A scheduler without threads: it counts them from zero.
    pub fn new() -> (made: Self)
        ensures
            from_zero(made.counter()),
    {
        FifoScheduler { thread_num: Arc::new(AtomicUsize::new(0)) }
    }
}

/// The counter was made to start at zero.
pub open spec fn from_zero(counter: AtomicUsize) -> bool {
    call_ensures(AtomicUsize::new, (0usize,), counter)
}

/// The counter can have been `n` when one was added to it.
pub open spec fn counted_from(counter: AtomicUsize, n: usize) -> bool {
    call_ensures(AtomicUsize::fetch_add, (&counter, 1usize, Ordering::Relaxed), n)
}

/// The counter can have been read as `n`.
pub open spec fn read_as(counter: AtomicUsize, n: usize) -> bool {
    call_ensures(AtomicUsize::load, (&counter, Ordering::Relaxed), n)
}

impl Scheduler for FifoScheduler {
    type Thread = FifoSchedulerThread;

    /// The thread is counted; its number is the number of those that were counted before it. New
    /// coroutines go to the thread itself first.
    open spec fn spawn_step(&self, thread: FifoSchedulerThread) -> bool {
        &&& counted_from(self.counter(), thread@.thread_id)
        &&& thread@ == (FifoView {
            thread_id: thread@.thread_id,
            thread_i: thread@.thread_id,
            delayed: Seq::empty(),
            counter: self.counter(),
        })
    }

    fn spawn_thread(&self) -> (thread: FifoSchedulerThread) {
        let prev: usize = self.thread_num.fetch_add(1, Ordering::Relaxed);
        FifoSchedulerThread::new(prev, self.thread_num.clone())
    }
}

impl View for FifoSchedulerThread {
    type V = FifoView;

    closed spec fn view(&self) -> FifoView {
        FifoView {
            thread_id: self.thread_id,
            thread_i: self.thread_i,
            delayed: self.delayed@,
            counter: *self.thread_num,
        }
    }
}

/// Picks the thread of the next new coroutine, and moves on to the one after it.
///
/// Takes the number of threads that there are.
pub fn round_robin(thread_i: &mut usize, thread_num: usize) -> (picked: usize)
    ensures
        picked == *old(thread_i),
        *final(thread_i) == next_thread(*old(thread_i), thread_num),
{
    let ret: usize = *thread_i;
    if ret < usize::MAX && ret + 1 < thread_num {
        *thread_i = ret + 1;
    } else {
        *thread_i = 0;
    }
    ret
}

impl FifoSchedulerThread {
    fn new(thread_id: usize, thread_num: Arc<AtomicUsize>) -> (made: Self)
        ensures
            made@ == (FifoView {
                thread_id,
                thread_i: thread_id,
                delayed: Seq::empty(),
                counter: *thread_num,
            }),
            made.held() == Multiset::<u64>::empty(),
    {
        let made = FifoSchedulerThread {
            thread_id,
            thread_i: thread_id,
            thread_num,
            delayed: VecDeque::new(),
        };
        assert(made@ =~= FifoView {
            thread_id,
            thread_i: thread_id,
            delayed: Seq::empty(),
            counter: *thread_num,
        });
        proof {
            lemma_no_controls();
        }
        made
    }

    /// Picks the thread of the next new coroutine, and moves on to the one after it among those
    /// that there are at the moment.
    fn thread_next_i(&mut self) -> (picked: usize)
        ensures
            picked == old(self)@.thread_i,
            turn_passed(old(self)@, final(self)@),
    {
        let n: usize = self.thread_num();
        let picked: usize = round_robin(&mut self.thread_i, n);
        assert(self@ =~= FifoView { thread_i: next_thread(old(self)@.thread_i, n), ..old(self)@ });
        picked
    }

    /// How many threads the scheduler has at the moment.
    fn thread_num(&self) -> (n: usize)
        ensures
            read_as(self@.counter, n),
    {
        self.thread_num.load(Ordering::Relaxed)
    }
}

impl SchedulerThread for FifoSchedulerThread {
    open spec fn held(&self) -> Multiset<u64> {
        control_keys(self@.delayed)
    }

    /// The coroutine is resumed here, or migrated to the thread whose turn it is; which thread is
    /// next depends on how many there are at the time of the call.
    open spec fn spawned_step(
        pre: Self,
        coroutine_ctrl: CoroutineControl,
        post: Self,
        asked: Seq<Command>,
    ) -> bool {
        &&& asked == seq![
            if pre@.thread_i == pre@.thread_id {
                Command::Resume(coroutine_ctrl)
            } else {
                Command::Migrate(coroutine_ctrl, pre@.thread_i)
            },
        ]
        &&& turn_passed(pre@, post@)
    }

    /// The coroutine is resumed, unless it has yielded: then it waits for the next tick.
    open spec fn ready_step(
        pre: Self,
        coroutine_ctrl: CoroutineControl,
        post: Self,
        asked: Seq<Command>,
    ) -> bool {
        if coroutine_ctrl.yielding() {
            &&& asked == Seq::<Command>::empty()
            &&& post@ == (FifoView { delayed: pre@.delayed.push(coroutine_ctrl), ..pre@ })
        } else {
            &&& asked == seq![Command::Resume(coroutine_ctrl)]
            &&& post@ == pre@
        }
    }

    /// All coroutines that wait for a tick are resumed, in the order in which they yielded.
    open spec fn tick_step(pre: Self, post: Self, asked: Seq<Command>) -> bool {
        &&& asked == pre@.delayed.map_values(|ctrl: CoroutineControl| resume_command(ctrl))
        &&& post@ == (FifoView { delayed: Seq::empty(), ..pre@ })
    }

    /// The next tick is at most a second away while a coroutine waits for it.
    open spec fn timeout_step(pre: Self, post: Self, timeout: Option<u64>) -> bool {
        &&& post@ == pre@
        &&& timeout == if pre@.delayed.len() == 0 {
            None
        } else {
            Some(1000u64)
        }
    }

    fn spawned(&mut self, event_loop: &mut EventLoop, coroutine_ctrl: CoroutineControl) {
        let thread_i: usize = self.thread_next_i();
        if thread_i == self.thread_id {
            coroutine_ctrl.resume(event_loop);
        } else {
            coroutine_ctrl.migrate(event_loop, thread_i);
        }
        proof {
            assert(event_loop@ =~= seq![event_loop@[0]]);
            lemma_one_command(event_loop@, event_loop@[0]);
        }
    }

    fn ready(&mut self, event_loop: &mut EventLoop, coroutine_ctrl: CoroutineControl) {
        let ghost before = self@;
        if coroutine_ctrl.is_yielding() {
            self.delayed.push_back(coroutine_ctrl);
            assert(self@ =~= FifoView { delayed: before.delayed.push(coroutine_ctrl), ..before });
            proof {
                lemma_push_control(before.delayed, coroutine_ctrl);
                lemma_no_commands();
                assert(event_loop@ =~= Seq::<Command>::empty());
            }
        } else {
            coroutine_ctrl.resume(event_loop);
            proof {
                assert(event_loop@ =~= seq![event_loop@[0]]);
                lemma_one_command(event_loop@, event_loop@[0]);
            }
        }
    }

    fn tick(&mut self, event_loop: &mut EventLoop) {
        let ghost before = self@;
        let ghost all = before.delayed.map_values(|ctrl: CoroutineControl| resume_command(ctrl));
        let len: usize = self.delayed.len();
        for i in 0..len
            invariant
                len == before.delayed.len(),
                all == before.delayed.map_values(|ctrl: CoroutineControl| resume_command(ctrl)),
                self@ == (FifoView { delayed: before.delayed.skip(i as int), ..before }),
                event_loop@ == all.take(i as int),
        {
            let coroutine_ctrl: CoroutineControl = self.delayed.pop_front().unwrap();
            coroutine_ctrl.resume(event_loop);
            assert(before.delayed.skip(i as int).skip(1) =~= before.delayed.skip(i + 1));
            assert(self@ =~= FifoView { delayed: before.delayed.skip(i + 1), ..before });
            assert(event_loop@ =~= all.take(i + 1));
        }
        assert(event_loop@ =~= all);
        assert(self@ =~= FifoView { delayed: Seq::empty(), ..before });
        proof {
            lemma_no_controls();
            assert(all.map_values(|command: Command| command.key()) =~= before.delayed.map_values(
                |ctrl: CoroutineControl| ctrl.key(),
            ));
        }
    }

    fn timeout(&mut self) -> (timeout: Option<u64>) {
        if self.delayed.len() == 0 {
            None
        } else {
            Some(1000)
        }
    }
}

/// No controls, no keys.
pub proof fn lemma_no_controls()
    ensures
        control_keys(Seq::empty()) == Multiset::<u64>::empty(),
{
    let keys = Seq::<CoroutineControl>::empty().map_values(|ctrl: CoroutineControl| ctrl.key());
    assert(keys =~= Seq::<u64>::empty());
    broadcast use vstd::seq_lib::group_to_multiset_ensures;

    assert(keys.to_multiset() =~= Multiset::<u64>::empty());
}

/// No commands, no keys.
pub proof fn lemma_no_commands()
    ensures
        command_keys(Seq::empty()) == Multiset::<u64>::empty(),
{
    let keys = Seq::<Command>::empty().map_values(|command: Command| command.key());
    assert(keys =~= Seq::<u64>::empty());
    broadcast use vstd::seq_lib::group_to_multiset_ensures;

    assert(keys.to_multiset() =~= Multiset::<u64>::empty());
}

/// One more control, one more key.
pub proof fn lemma_push_control(controls: Seq<CoroutineControl>, ctrl: CoroutineControl)
    ensures
        control_keys(controls.push(ctrl)) == control_keys(controls).insert(ctrl.key()),
{
    broadcast use vstd::seq_lib::group_to_multiset_ensures;

    let keys = controls.map_values(|ctrl: CoroutineControl| ctrl.key());
    assert(controls.push(ctrl).map_values(|ctrl: CoroutineControl| ctrl.key()) =~= keys.push(
        ctrl.key(),
    ));
}

/// One command has one key.
pub proof fn lemma_one_command(commands: Seq<Command>, command: Command)
    requires
        commands == seq![command],
    ensures
        command_keys(commands) == Multiset::<u64>::empty().insert(command.key()),
{
    broadcast use vstd::seq_lib::group_to_multiset_ensures;

    let keys = commands.map_values(|command: Command| command.key());
    assert(keys =~= Seq::<u64>::empty().push(command.key()));
}

/// New coroutines are spread between the threads in round-robin fashion: with `thread_num` threads
/// and a thread among them to start with, the coroutines go to one thread after the other, and
/// start over behind the last.
pub proof fn law_round_robin(thread_i: usize, thread_num: usize, k: nat)
    requires
        thread_i < thread_num,
    ensures
        nth_thread(thread_i, thread_num, k) == (thread_i + k) % thread_num as int,
    decreases k,
{
    let n = thread_num as int;
    if k == 0 {
        vstd::arithmetic::div_mod::lemma_small_mod(thread_i as nat, thread_num as nat);
    } else {
        law_round_robin(thread_i, thread_num, (k - 1) as nat);
        let before = thread_i + (k - 1);
        vstd::arithmetic::div_mod::lemma_fundamental_div_mod(before, n);
        vstd::arithmetic::div_mod::lemma_mod_bound(before, n);
        let q = before / n;
        let r = before % n;
        if r + 1 < n {
            vstd::arithmetic::div_mod::lemma_fundamental_div_mod_converse(before + 1, n, q, r + 1);
        } else {
            assert(before + 1 == n * (q + 1)) by (nonlinear_arith)
                requires
                    before == n * q + r,
                    r + 1 == n,
            ;
            vstd::arithmetic::div_mod::lemma_fundamental_div_mod_converse(before + 1, n, q + 1, 0);
        }
    }
}

/// New coroutines go to the threads that `law_round_robin` is about: while the number of threads
/// reads `n`, the `k`-th coroutine that is spawned after a given moment goes to the `k`-th thread
/// from the one whose turn it is at that moment. It is resumed if that is the thread it was spawned
/// on, and migrated there otherwise. What else the scheduler does in between does not matter, as
/// long as it leaves the turn, the number of the thread and the counter alone.
pub proof fn law_new_coroutines_are_spread(
    pres: Seq<FifoSchedulerThread>,
    ctrls: Seq<CoroutineControl>,
    posts: Seq<FifoSchedulerThread>,
    asked: Seq<Seq<Command>>,
    n: usize,
    k: int,
)
    requires
        pres.len() == ctrls.len() == posts.len() == asked.len(),
        0 <= k < ctrls.len(),
        forall|i: int|
            0 <= i < ctrls.len() ==> FifoSchedulerThread::spawned_step(
                #[trigger] pres[i],
                ctrls[i],
                posts[i],
                asked[i],
            ),
        forall|i: int|
            0 < i < ctrls.len() ==> (#[trigger] pres[i])@ == (FifoView {
                delayed: pres[i]@.delayed,
                ..posts[i - 1]@
            }),
        forall|m: usize| #[trigger] read_as(pres[0]@.counter, m) ==> m == n,
    ensures
        pres[k]@.counter == pres[0]@.counter,
        pres[k]@.thread_id == pres[0]@.thread_id,
        pres[k]@.thread_i == nth_thread(pres[0]@.thread_i, n, k as nat),
        asked[k] == seq![
            if pres[k]@.thread_i == pres[0]@.thread_id {
                Command::Resume(ctrls[k])
            } else {
                Command::Migrate(ctrls[k], nth_thread(pres[0]@.thread_i, n, k as nat))
            },
        ],
    decreases k,
{
    assert(FifoSchedulerThread::spawned_step(pres[k], ctrls[k], posts[k], asked[k]));
    if k > 0 {
        law_new_coroutines_are_spread(pres, ctrls, posts, asked, n, k - 1);
        assert(FifoSchedulerThread::spawned_step(
            pres[k - 1],
            ctrls[k - 1],
            posts[k - 1],
            asked[k - 1],
        ));
    }
}

/// Making coroutines ready, ticks and the question for a timeout leave alone what decides where new
/// coroutines go.
pub proof fn law_only_spawning_passes_the_turn(
    pre: FifoSchedulerThread,
    ctrl: CoroutineControl,
    asked: Seq<Command>,
    timeout: Option<u64>,
    post: FifoSchedulerThread,
)
    requires
        FifoSchedulerThread::ready_step(pre, ctrl, post, asked)
            || FifoSchedulerThread::tick_step(pre, post, asked)
            || FifoSchedulerThread::timeout_step(pre, post, timeout),
    ensures
        post@ == (FifoView { delayed: post@.delayed, ..pre@ }),
{
}

/// A `FifoScheduler` runs coroutines in FIFO manner: one that has yielded is not resumed before
/// the next tick, and at that tick those that have yielded are resumed in the order in which they
/// did, each once.
pub proof fn law_yielded_coroutines_run_in_order(
    pre: FifoSchedulerThread,
    first: CoroutineControl,
    asked1: Seq<Command>,
    mid: FifoSchedulerThread,
    second: CoroutineControl,
    asked2: Seq<Command>,
    post: FifoSchedulerThread,
    at_tick: Seq<Command>,
    after_tick: FifoSchedulerThread,
)
    requires
        first.yielding(),
        second.yielding(),
        FifoSchedulerThread::ready_step(pre, first, mid, asked1),
        FifoSchedulerThread::ready_step(mid, second, post, asked2),
        FifoSchedulerThread::tick_step(post, after_tick, at_tick),
    ensures
        asked1.len() == 0,
        asked2.len() == 0,
        at_tick.len() == pre@.delayed.len() + 2,
        forall|i: int|
            0 <= i < pre@.delayed.len() ==> #[trigger] at_tick[i] == Command::Resume(
                pre@.delayed[i],
            ),
        at_tick[pre@.delayed.len() as int] == Command::Resume(first),
        at_tick[pre@.delayed.len() as int + 1] == Command::Resume(second),
        after_tick@.delayed.len() == 0,
{
}

/// While a coroutine waits for the next tick of a `FifoScheduler`, the thread does not wait for
/// events longer than a second.
pub proof fn law_yielded_coroutines_are_not_left_waiting(
    pre: FifoSchedulerThread,
    post: FifoSchedulerThread,
    timeout: Option<u64>,
)
    requires
        FifoSchedulerThread::timeout_step(pre, post, timeout),
    ensures
        pre.held().len() > 0 ==> timeout == Some(1000u64),
        pre@.delayed.len() == 0 <==> timeout is None,
{
    if pre@.delayed.len() == 0 {
        assert(pre@.delayed =~= Seq::empty());
        lemma_no_controls();
    }
}

/// A `FifoScheduler` sends a new coroutine to the thread whose turn it is, and resumes it at once if
/// that is the thread it was spawned on; then it is the turn of the next thread, and after the last
/// one of the first. It keeps nothing.
pub proof fn law_new_coroutine_goes_where_the_turn_is(
    sched: &mut FifoSchedulerThread,
    event_loop: &mut EventLoop,
    ctrl: CoroutineControl,
)
    requires
        old(event_loop)@.len() == 0,
        call_ensures(
            <FifoSchedulerThread as SchedulerThread>::spawned,
            (sched, event_loop, ctrl),
            (),
        ),
    ensures
        final(event_loop)@.len() == 1,
        old(sched)@.thread_i == old(sched)@.thread_id ==> final(event_loop)@[0] == Command::Resume(
            ctrl,
        ),
        old(sched)@.thread_i != old(sched)@.thread_id ==> final(event_loop)@[0]
            == Command::Migrate(ctrl, old(sched)@.thread_i),
        exists|n: usize| #[trigger]
            read_as(old(sched)@.counter, n) && final(sched)@.thread_i == if old(sched)@.thread_i + 1
                < n {
                old(sched)@.thread_i + 1
            } else {
                0
            },
        final(sched)@.thread_id == old(sched)@.thread_id,
        final(sched)@.delayed == old(sched)@.delayed,
        final(sched)@.counter == old(sched)@.counter,
{
}

/// A `FifoScheduler` resumes a coroutine that became ready at once, unless it has yielded: then it
/// waits behind the others that have. At a tick all those that wait are resumed, in the order in
/// which they came, and nobody waits any more; while somebody waits, the next tick is a second away
/// at most.
pub proof fn law_yielded_coroutines_wait_for_the_tick(
    sched: &mut FifoSchedulerThread,
    event_loop: &mut EventLoop,
    ctrl: CoroutineControl,
    ticking: &mut FifoSchedulerThread,
    at_tick: &mut EventLoop,
    asked: &mut FifoSchedulerThread,
    timeout: Option<u64>,
    i: int,
)
    requires
        old(event_loop)@.len() == 0,
        call_ensures(
            <FifoSchedulerThread as SchedulerThread>::ready,
            (sched, event_loop, ctrl),
            (),
        ),
        old(at_tick)@.len() == 0,
        call_ensures(<FifoSchedulerThread as SchedulerThread>::tick, (ticking, at_tick), ()),
        call_ensures(<FifoSchedulerThread as SchedulerThread>::timeout, (asked,), timeout),
    ensures
        ctrl.yielding() ==> {
            &&& final(event_loop)@.len() == 0
            &&& final(sched)@.delayed == old(sched)@.delayed.push(ctrl)
        },
        !ctrl.yielding() ==> {
            &&& final(event_loop)@ == seq![Command::Resume(ctrl)]
            &&& final(sched)@.delayed == old(sched)@.delayed
        },
        same_turn(old(sched)@, final(sched)@),
        final(at_tick)@.len() == old(ticking)@.delayed.len(),
        0 <= i < old(ticking)@.delayed.len() ==> final(at_tick)@[i] == Command::Resume(
            old(ticking)@.delayed[i],
        ),
        final(ticking)@.delayed.len() == 0,
        same_turn(old(ticking)@, final(ticking)@),
        timeout == if old(asked)@.delayed.len() > 0 {
            Some(1000u64)
        } else {
            None
        },
        final(asked)@.delayed == old(asked)@.delayed,
        same_turn(old(asked)@, final(asked)@),
{
}

/// The same thread has its turn in both.
pub open spec fn same_turn(pre: FifoView, post: FifoView) -> bool {
    &&& post.thread_id == pre.thread_id
    &&& post.thread_i == pre.thread_i
    &&& post.counter == pre.counter
}

/// Each thread of a `FifoScheduler` starts with its own turn and with nobody waiting, has as number
/// the number of those that were there before, and counts with the others.
pub proof fn law_threads_of_a_scheduler_start_with_their_own_turn(
    scheduler: FifoScheduler,
    thread: FifoSchedulerThread,
    turn: &mut usize,
    thread_num: usize,
    picked: usize,
)
    requires
        call_ensures(<FifoScheduler as Scheduler>::spawn_thread, (&scheduler,), thread),
        call_ensures(round_robin, (turn, thread_num), picked),
    ensures
        thread@.thread_i == thread@.thread_id,
        thread@.delayed.len() == 0,
        thread@.counter == scheduler.counter(),
        counted_from(scheduler.counter(), thread@.thread_id),
        picked == *old(turn),
        *old(turn) < thread_num ==> *final(turn) == (*old(turn) + 1) % (thread_num as int),
        *old(turn) >= thread_num ==> *final(turn) == 0,
{
    if *old(turn) + 1 < thread_num {
        vstd::arithmetic::div_mod::lemma_small_mod((*old(turn) + 1) as nat, thread_num as nat);
    } else if *old(turn) + 1 == thread_num {
        vstd::arithmetic::div_mod::lemma_mod_self_0(thread_num as int);
    }
}

} // verus!
