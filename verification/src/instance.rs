//! Instances: their configuration, and what each of their threads starts with.
//!
//! Starting native threads and event loops happens outside.

use crate::control::{Command, CoroutineControl};
use crate::coroutine::{CoroutineView, UserData};
use crate::handler::{next_step, Action, Handler, HandlerView, Phase};
use crate::message::MioSender;
use crate::sched::{
    from_zero, FifoScheduler, FifoSchedulerThread, Scheduler, SchedulerThread,
};
use crate::table::CoroutineTable;
use crate::thread::{HandlerShared, HandlerThreadShared, SharedView, STARTING_SLOTS};
use vstd::multiset::Multiset;
use vstd::prelude::*;

verus! {

broadcast use crate::thread::HandlerShared::lemma_wf;

/// `mio::EventLoopConfig`: settings of an event loop, carried to where event loops are made.
#[verifier::external_type_specification]
#[verifier::external_body]
pub struct ExEventLoopConfig(mio::EventLoopConfig);

/// `mio::EventLoopConfig::default`: the event loop's own defaults. The settings cannot be read
/// back, so nothing is claimed of them here; callers can say that settings are those that this
/// function gave.
#[verifier::external_body]
fn default_event_loop_config() -> mio::EventLoopConfig {
    mio::EventLoopConfig::default()
}

/// `num_cpus::get`: the number of CPUs that are available to the process, which is at least 1. It
/// depends on the machine, so nothing more is claimed of it here; callers can say that a number is
/// one that this function gave.
#[verifier::external_body]
fn available_cpus() -> (n: usize)
    ensures
        n >= 1,
{
    num_cpus::get()
}

/// The event loop's own defaults.
pub closed spec fn default_event_loop(config: mio::EventLoopConfig) -> bool {
    call_ensures(default_event_loop_config, (), config)
}

/// A number of CPUs that can have been available to the process.
pub closed spec fn cpus(n: usize) -> bool {
    call_ensures(available_cpus, (), n)
}

/// The default settings, apart from the number of threads.
pub open spec fn default_config(config: ConfigView<FifoScheduler>) -> bool {
    &&& from_zero(config.scheduler.counter())
    &&& default_event_loop(config.event_loop_config)
    &&& config.user_data is None
    &&& config.coroutine_config == default_coroutine_config()
}

/// Stacks of 2MB with a guard page; panics are caught.
pub open spec fn default_coroutine_config() -> crate::coroutine::Config {
    crate::coroutine::Config {
        stack_size: 2097152,
        stack_protection: true,
        catch_panics: true,
    }
}

/// Instance builder.
pub struct Config<S> {
    thread_num: usize,
    scheduler: S,
    event_loop_config: mio::EventLoopConfig,
    user_data: Option<UserData>,
    coroutine_config: crate::coroutine::Config,
}

/// What a `Config` is, as contracts describe it.
pub struct ConfigView<S> {
    /// Number of threads.
    pub thread_num: usize,
    /// The scheduler.
    pub scheduler: S,
    /// Settings of the event loops.
    pub event_loop_config: mio::EventLoopConfig,
    /// User data of the first coroutine.
    pub user_data: Option<UserData>,
    /// Configuration of coroutines.
    pub coroutine_config: crate::coroutine::Config,
}

impl<S> View for Config<S> {
    type V = ConfigView<S>;

    closed spec fn view(&self) -> ConfigView<S> {
        ConfigView {
            thread_num: self.thread_num,
            scheduler: self.scheduler,
            event_loop_config: self.event_loop_config,
            user_data: self.user_data,
            coroutine_config: self.coroutine_config,
        }
    }
}

impl Config<FifoScheduler> {
    /// Create `Config`
    ///
    /// Use it to configure an instance
    ///
    /// See `start` and `start_threads` for convenience wrappers.
    pub fn new() -> (config: Self)
        ensures
            config@.thread_num >= 1,
            cpus(config@.thread_num),
            default_config(config@),
    {
        Config {
            thread_num: available_cpus(),
            scheduler: FifoScheduler::new(),
            event_loop_config: default_event_loop_config(),
            user_data: None,
            coroutine_config: Default::default(),
        }
    }
}

impl<S> Config<S> {
    /// Number of threads.
    pub fn thread_num(&self) -> (n: usize)
        ensures
            n == self@.thread_num,
    {
        self.thread_num
    }

    /// Set numer of threads to run the instance with
    ///
    /// Default is equal to a numer of CPUs in the system.
    pub fn set_thread_num(&mut self, thread_num: usize) -> (same: &mut Self)
        ensures
            same@ == (ConfigView { thread_num, ..old(self)@ }),
            *final(self) == *final(same),
    {
        self.thread_num = thread_num;
        self
    }

    /// Set custom scheduler.
    ///
    /// See `Scheduler` trait.
    ///
    /// Default is a simple FIFO-scheduler that spreads all the new coroutines between all threads
    /// in round-robin fashion, and runs them in FIFO manner.
    pub fn set_scheduler<N>(self, scheduler: N) -> (other: Config<N>)
        ensures
            other@ == (ConfigView {
                thread_num: self@.thread_num,
                scheduler,
                event_loop_config: self@.event_loop_config,
                user_data: self@.user_data,
                coroutine_config: self@.coroutine_config,
            }),
    {
        Config {
            thread_num: self.thread_num,
            scheduler,
            event_loop_config: self.event_loop_config,
            user_data: self.user_data,
            coroutine_config: self.coroutine_config,
        }
    }

    /// Set stack size in bytes.
    ///
    /// Default is 2MB.
    ///
    /// Should be a power of 2.
    ///
    /// Stack size includes a protection page. The sane minimum seems to be 128KiB, which is two
    /// 64KB pages.
    pub fn set_stack_size(&mut self, stack_size: usize) -> (same: &mut Self)
        ensures
            same@ == (ConfigView {
                coroutine_config: crate::coroutine::Config {
                    stack_size,
                    ..old(self)@.coroutine_config
                },
                ..old(self)@
            }),
            *final(self) == *final(same),
    {
        self.coroutine_config.stack_size = stack_size;
        self
    }

    /// Set the user data of the first spawned coroutine
    ///
    /// Default is no user data
    pub fn set_userdata(&mut self, data: UserData) -> (same: &mut Self)
        ensures
            same@ == (ConfigView { user_data: Some(data), ..old(self)@ }),
            *final(self) == *final(same),
    {
        self.user_data = Some(data);
        self
    }

    /// Configure the event loops of all the threads
    pub fn event_loop(&mut self) -> (event_loop_config: &mut mio::EventLoopConfig)
        ensures
            *event_loop_config == old(self)@.event_loop_config,
            final(self)@ == (ConfigView {
                event_loop_config: *final(event_loop_config),
                ..old(self)@
            }),
    {
        &mut self.event_loop_config
    }

    /// The configuration of the event loops of all the threads
    pub fn event_loop_config(&self) -> (event_loop_config: &mio::EventLoopConfig)
        ensures
            *event_loop_config == self@.event_loop_config,
    {
        &self.event_loop_config
    }

    /// Set if this Instance will be catching panics, that occure within the coroutines
    pub fn set_catch_panics(&mut self, catch_panics: bool) -> (same: &mut Self)
        ensures
            same@ == (ConfigView {
                coroutine_config: crate::coroutine::Config {
                    catch_panics,
                    ..old(self)@.coroutine_config
                },
                ..old(self)@
            }),
            *final(self) == *final(same),
    {
        self.coroutine_config.catch_panics = catch_panics;
        self
    }

    /// Set if this Instance should use protected stacks (default).
    ///
    /// Unprotected stacks can be used to skip creation of stack guard page. This is useful when
    /// hitting OS limits regarding process mappings.
    pub fn set_stack_protection(&mut self, stack_protection: bool) -> (same: &mut Self)
        ensures
            same@ == (ConfigView {
                coroutine_config: crate::coroutine::Config {
                    stack_protection,
                    ..old(self)@.coroutine_config
                },
                ..old(self)@
            }),
            *final(self) == *final(same),
    {
        self.coroutine_config.stack_protection = stack_protection;
        self
    }
}

/// What the threads of an instance start with.
///
/// The first of them, with number 0, is the thread that starts the instance; it gets the scheduler
/// and the user data in here, and runs the first coroutine. Every other one gets its part of the
/// scheduler with `Mioco::spawn_thread()`, and no user data.
pub struct Start<Th> {
    /// Shared between the threads.
    pub thread_shared: HandlerThreadShared,
    /// Senders to the event loops of all threads.
    pub senders: Vec<MioSender>,
    /// Scheduler of the first thread.
    pub sched: Th,
    /// User data of the first coroutine.
    pub user_data: Option<UserData>,
    /// Configuration of coroutines.
    pub coroutine_config: crate::coroutine::Config,
}

/// Senders to the event loops of `n` threads.
pub open spec fn all_senders(n: nat) -> Seq<MioSender> {
    Seq::new(n, |i: int| MioSender { thread_id: i as usize })
}

/// Instance
///
/// Main structure.
pub struct Mioco<S> {
    config: Config<S>,
}

impl Mioco<FifoScheduler> {
    /// Create new instance
    pub fn new() -> (made: Self)
        ensures
            made.config()@.thread_num >= 1,
            cpus(made.config()@.thread_num),
            default_config(made.config()@),
    {
        Mioco::new_configured(Config::new())
    }
}

impl<S: Scheduler> Mioco<S> {
    /// How the instance is configured.
    pub closed spec fn config(&self) -> Config<S> {
        self.config
    }

    /// Create new instance
    pub fn new_configured(config: Config<S>) -> (made: Self)
        ensures
            made.config() == config,
    {
        Mioco { config }
    }

    /// How the instance is configured.
    pub fn configured(&self) -> (config: &Config<S>)
        ensures
            *config == self.config(),
    {
        &self.config
    }

    /// The part of the scheduler on one more thread.
    pub fn spawn_thread(&self) -> (thread: S::Thread)
        ensures
            self.config()@.scheduler.spawn_step(thread),
            thread.held() == Multiset::<u64>::empty(),
    {
        self.config.scheduler.spawn_thread()
    }

    /// Start handling
    ///
    /// Returns what the threads of the instance start with. The user data goes to the first
    /// coroutine, and is not there for a second start.
    pub fn start(&mut self) -> (started: Start<S::Thread>)
        requires
            old(self).config()@.thread_num >= 1,
        ensures
            started.thread_shared == (HandlerThreadShared {
                mioco_started: 0,
                coroutines_num: 0,
                thread_num: old(self).config()@.thread_num,
            }),
            started.senders@ == all_senders(old(self).config()@.thread_num as nat),
            old(self).config()@.scheduler.spawn_step(started.sched),
            started.sched.held() == Multiset::<u64>::empty(),
            started.user_data == old(self).config()@.user_data,
            started.coroutine_config == old(self).config()@.coroutine_config,
            final(self).config()@ == (ConfigView { user_data: None, ..old(self).config()@ }),
    {
        let thread_num: usize = self.config.thread_num;
        let thread_shared: HandlerThreadShared = HandlerThreadShared::new(thread_num);

        let mut senders: Vec<MioSender> = Vec::new();
        for i in 0..thread_num
            invariant
                senders@ == all_senders(i as nat),
        {
            senders.push(MioSender { thread_id: i });
            assert(senders@ =~= all_senders((i + 1) as nat));
        }

        let sched: S::Thread = self.config.scheduler.spawn_thread();
        let user_data: Option<UserData> = self.config.user_data;
        self.config.user_data = None;
        Start {
            thread_shared,
            senders,
            sched,
            user_data,
            coroutine_config: self.config.coroutine_config,
        }
    }
}

/// A thread at its start, before its first tick.
pub open spec fn starting<Th: SchedulerThread>(
    shared: SharedView,
    scheduler: Th,
) -> HandlerView<Th> {
    HandlerView {
        shared,
        scheduler,
        is_shutting_down: false,
        todo: Seq::empty(),
        phase: Phase::Idle,
        ticking: false,
        running: None,
    }
}

/// The data of a thread without coroutines.
pub open spec fn no_coroutines(
    senders: Seq<MioSender>,
    coroutine_config: crate::coroutine::Config,
    thread_id: usize,
) -> SharedView {
    SharedView {
        items: Map::empty(),
        slots: STARTING_SLOTS as nat,
        senders,
        coroutine_config,
        spawned: Seq::empty(),
        ready: Seq::empty(),
        children_to_start: Seq::empty(),
        thread_id,
    }
}

/// Sets up one thread of an instance.
///
/// With `f`, the thread gets the first coroutine of the instance. All threads may start once it
/// is there, so that they don't start, detect no coroutines, and exit prematurely. The caller
/// waits for that (see `HandlerShared::wait_for_start_all()`), calls `tick()` and then handles
/// events until it is told to stop.
pub fn thread_loop<Th: SchedulerThread>(
    f: bool,
    scheduler: Th,
    thread_id: usize,
    senders: Vec<MioSender>,
    thread_shared: &mut HandlerThreadShared,
    userdata: Option<UserData>,
    coroutine_config: crate::coroutine::Config,
    table: &mut CoroutineTable,
) -> (handler: Handler<Th>)
    requires
        thread_id < senders.len(),
        scheduler.held() == Multiset::<u64>::empty(),
        old(table).wf(),
        f ==> old(table).next_key() < u64::MAX && old(thread_shared).coroutines_num < usize::MAX,
    ensures
        handler.wf(final(table)),
        !f ==> {
            &&& handler@ == starting(
                no_coroutines(senders@, coroutine_config, thread_id),
                scheduler,
            )
            &&& final(table)@ == old(table)@
            &&& final(table).next_key() == old(table).next_key()
            &&& *final(thread_shared) == *old(thread_shared)
        },
        f ==> {
            let key = old(table).next_key();
            let id = final(table)@[key].id;
            let ctrl = handler@.shared.spawned[0];
            &&& ctrl.key() == key
            &&& !ctrl.yielding()
            &&& ctrl.data() == userdata
            &&& handler@ == starting(
                SharedView {
                    items: Map::<usize, u64>::empty().insert(id, key),
                    spawned: seq![ctrl],
                    ..no_coroutines(senders@, coroutine_config, thread_id)
                },
                scheduler,
            )
            &&& final(table)@ == old(table)@.insert(
                key,
                crate::thread::spawned_coroutine(id, thread_id, userdata),
            )
            &&& final(table).next_key() == key + 1
            &&& *final(thread_shared) == (HandlerThreadShared {
                mioco_started: 1,
                coroutines_num: (old(thread_shared).coroutines_num + 1) as usize,
                ..*old(thread_shared)
            })
        },
{
    let mut shared: HandlerShared = HandlerShared::new(senders, coroutine_config, thread_id);
    proof {
        crate::sched::lemma_no_controls();
        crate::sched::lemma_no_commands();
    }
    if f {
        let coroutine_rc: u64 = shared.spawn(table, thread_shared, userdata);
        shared.signal_start_all(thread_shared);
        let ctrl = CoroutineControl::new(coroutine_rc, userdata);
        shared.add_spawned(ctrl);
        proof {
            assert(shared@.spawned =~= seq![ctrl]);
            crate::sched::lemma_push_control(Seq::empty(), ctrl);
        }
    }
    let handler: Handler<Th> = Handler::new(shared, scheduler);
    proof {
        assert forall|key: u64| #[trigger] handler@.pending(key) == if handler@.resumable(
            table@,
            key,
        ) {
            1nat
        } else {
            0nat
        } by {
            if f {
                assert(handler@.shared.spawned =~= Seq::empty().push(handler@.shared.spawned[0]));
            }
        }
        assert(handler@.inv(table@));
    }
    handler
}

/// Start instance.
///
/// Shorthand for creating new instance with default settings and starting it right away.
pub fn start() -> (started: (Mioco<FifoScheduler>, Start<FifoSchedulerThread>))
    ensures
        started.1.thread_shared.thread_num >= 1,
        started.1.thread_shared.mioco_started == 0,
        started.1.thread_shared.coroutines_num == 0,
        started.1.senders@ == all_senders(started.1.thread_shared.thread_num as nat),
        started.0.config()@.scheduler.spawn_step(started.1.sched),
        started.1.sched.held() == Multiset::<u64>::empty(),
        started.1.user_data is None,
        started.1.coroutine_config == default_coroutine_config(),
        cpus(started.1.thread_shared.thread_num),
        started.0.config()@.thread_num == started.1.thread_shared.thread_num,
        default_config(started.0.config()@),
{
    let mut mioco: Mioco<FifoScheduler> = Mioco::new();
    let started = mioco.start();
    (mioco, started)
}

/// Start instance using a given number of threads.
///
/// Shorthand for `start()` running given number of threads.
pub fn start_threads(thread_num: usize) -> (started: (
    Mioco<FifoScheduler>,
    Start<FifoSchedulerThread>,
))
    requires
        thread_num >= 1,
    ensures
        started.1.thread_shared == (HandlerThreadShared {
            mioco_started: 0,
            coroutines_num: 0,
            thread_num,
        }),
        started.1.senders@ == all_senders(thread_num as nat),
        started.0.config()@.scheduler.spawn_step(started.1.sched),
        started.1.sched.held() == Multiset::<u64>::empty(),
        started.1.user_data is None,
        started.1.coroutine_config == default_coroutine_config(),
        started.0.config()@.thread_num == thread_num,
        default_config(started.0.config()@),
{
    let mut config: Config<FifoScheduler> = Config::new();
    let _ = config.set_thread_num(thread_num);
    let mut mioco: Mioco<FifoScheduler> = Mioco::new_configured(config);
    let started = mioco.start();
    (mioco, started)
}

/// The function that an instance is started with runs as its first coroutine: on a thread that is
/// set up with it and with the default scheduler, it is delivered to the scheduler at the first
/// tick, and then it is the first one to be resumed.
pub proof fn law_first_coroutine_is_executed(
    shared: SharedView,
    sched: FifoSchedulerThread,
    scheduler: FifoScheduler,
    cos: Map<u64, CoroutineView>,
    h1: HandlerView<FifoSchedulerThread>,
    a1: Action,
    h2: HandlerView<FifoSchedulerThread>,
    cos2: Map<u64, CoroutineView>,
    a2: Action,
    h3: HandlerView<FifoSchedulerThread>,
    cos3: Map<u64, CoroutineView>,
)
    requires
        scheduler.spawn_step(sched),
        starting(shared, sched).inv(cos),
        shared.spawned.len() == 1,
        FifoSchedulerThread::tick_step(sched, h1.scheduler, h1.todo),
        h1 == (HandlerView {
            scheduler: h1.scheduler,
            todo: h1.todo,
            phase: Phase::Spawned,
            ticking: true,
            ..starting(shared, sched)
        }),
        next_step(h1, cos, a1, h2, cos2),
        next_step(h2, cos2, a2, h3, cos3),
    ensures
        a1 is Continue,
        a2 == Action::Resume(shared.spawned[0].key()),
{
    let h0 = starting(shared, sched);
    let key = shared.spawned[0].key();
    assert(h0.pending(key) >= 1) by {
        assert(shared.spawned =~= Seq::empty().push(shared.spawned[0]));
        crate::sched::lemma_push_control(Seq::empty(), shared.spawned[0]);
    }
    assert(h0.resumable(cos, key));
    assert(h2.todo =~= seq![Command::Resume(shared.spawned[0])]);
    assert(h2.resumable(cos2, key));
}

/// Each setting changes what it is for, and nothing else; what was set last is what the instance is
/// started with.
pub proof fn law_settings_change_what_they_are_for<S>(
    threads: &mut Config<S>,
    thread_num: usize,
    threads_set: &mut Config<S>,
    stack: &mut Config<S>,
    stack_size: usize,
    stack_set: &mut Config<S>,
    data: &mut Config<S>,
    user_data: UserData,
    data_set: &mut Config<S>,
    catching: &mut Config<S>,
    catch_panics: bool,
    catching_set: &mut Config<S>,
    protecting: &mut Config<S>,
    stack_protection: bool,
    protecting_set: &mut Config<S>,
)
    requires
        call_ensures(Config::<S>::set_thread_num, (threads, thread_num), threads_set),
        call_ensures(Config::<S>::set_stack_size, (stack, stack_size), stack_set),
        call_ensures(Config::<S>::set_userdata, (data, user_data), data_set),
        call_ensures(Config::<S>::set_catch_panics, (catching, catch_panics), catching_set),
        call_ensures(
            Config::<S>::set_stack_protection,
            (protecting, stack_protection),
            protecting_set,
        ),
    ensures
        old(threads_set)@.thread_num == thread_num,
        old(threads_set)@.coroutine_config == old(threads)@.coroutine_config,
        old(threads_set)@.user_data == old(threads)@.user_data,
        old(threads_set)@.scheduler == old(threads)@.scheduler,
        old(threads_set)@.event_loop_config == old(threads)@.event_loop_config,
        *final(threads) == *final(threads_set),
        old(stack_set)@.coroutine_config.stack_size == stack_size,
        old(stack_set)@.coroutine_config.stack_protection == old(
            stack,
        )@.coroutine_config.stack_protection,
        old(stack_set)@.coroutine_config.catch_panics == old(stack)@.coroutine_config.catch_panics,
        same_but_coroutines(old(stack)@, old(stack_set)@),
        *final(stack) == *final(stack_set),
        old(data_set)@.user_data == Some(user_data),
        old(data_set)@.thread_num == old(data)@.thread_num,
        old(data_set)@.coroutine_config == old(data)@.coroutine_config,
        old(data_set)@.scheduler == old(data)@.scheduler,
        old(data_set)@.event_loop_config == old(data)@.event_loop_config,
        *final(data) == *final(data_set),
        old(catching_set)@.coroutine_config.catch_panics == catch_panics,
        old(catching_set)@.coroutine_config.stack_size == old(catching)@.coroutine_config.stack_size,
        old(catching_set)@.coroutine_config.stack_protection == old(
            catching,
        )@.coroutine_config.stack_protection,
        same_but_coroutines(old(catching)@, old(catching_set)@),
        *final(catching) == *final(catching_set),
        old(protecting_set)@.coroutine_config.stack_protection == stack_protection,
        old(protecting_set)@.coroutine_config.stack_size == old(
            protecting,
        )@.coroutine_config.stack_size,
        old(protecting_set)@.coroutine_config.catch_panics == old(
            protecting,
        )@.coroutine_config.catch_panics,
        same_but_coroutines(old(protecting)@, old(protecting_set)@),
        *final(protecting) == *final(protecting_set),
{
}

/// Both agree in everything but the configuration of coroutines.
pub open spec fn same_but_coroutines<S>(pre: ConfigView<S>, post: ConfigView<S>) -> bool {
    &&& post.thread_num == pre.thread_num
    &&& post.scheduler == pre.scheduler
    &&& post.event_loop_config == pre.event_loop_config
    &&& post.user_data == pre.user_data
}

/// Another scheduler replaces the one that was set, and leaves the other settings alone.
pub proof fn law_scheduler_is_replaced<S, N>(
    config: Config<S>,
    scheduler: N,
    other: Config<N>,
    n: usize,
)
    requires
        call_ensures(Config::<S>::set_scheduler::<N>, (config, scheduler), other),
        call_ensures(Config::<N>::thread_num, (&other,), n),
    ensures
        other@.scheduler == scheduler,
        other@.thread_num == config@.thread_num,
        other@.event_loop_config == config@.event_loop_config,
        other@.user_data == config@.user_data,
        other@.coroutine_config == config@.coroutine_config,
        n == config@.thread_num,
{
}

/// By default an instance has a thread for each CPU, stacks of 2MB with a guard page, catches panics
/// and has no user data.
pub proof fn law_defaults(config: Config<FifoScheduler>, instance: Mioco<FifoScheduler>)
    requires
        call_ensures(Config::<FifoScheduler>::new, (), config),
        call_ensures(Mioco::<FifoScheduler>::new, (), instance),
    ensures
        cpus(config@.thread_num),
        config@.thread_num >= 1,
        config@.coroutine_config.stack_size == 2 * 1024 * 1024,
        config@.coroutine_config.stack_protection,
        config@.coroutine_config.catch_panics,
        config@.user_data is None,
        cpus(instance.config()@.thread_num),
        instance.config()@.coroutine_config == config@.coroutine_config,
        instance.config()@.user_data is None,
{
}

/// An instance starts as it was configured: with its number of threads, each of which can be reached
/// under its own number, and with its user data, which is there for the first start only. There are
/// no coroutines yet, and the threads wait.
pub proof fn law_instances_start_as_configured<S: Scheduler>(
    config: Config<S>,
    made: Mioco<S>,
    first: &mut Mioco<S>,
    started: Start<S::Thread>,
    second: &mut Mioco<S>,
    started_again: Start<S::Thread>,
    i: int,
)
    requires
        call_ensures(Mioco::<S>::new_configured, (config,), made),
        *old(first) == made,
        call_ensures(Mioco::<S>::start, (first,), started),
        *old(second) == *final(first),
        call_ensures(Mioco::<S>::start, (second,), started_again),
        0 <= i < config@.thread_num,
    ensures
        started.thread_shared.thread_num == config@.thread_num,
        started.thread_shared.coroutines_num == 0,
        started.thread_shared.mioco_started == 0,
        started.senders@.len() == config@.thread_num,
        started.senders@[i].thread_id == i,
        config@.scheduler.spawn_step(started.sched),
        started.user_data == config@.user_data,
        started.coroutine_config == config@.coroutine_config,
        started_again.user_data is None,
        started_again.coroutine_config == config@.coroutine_config,
        started_again.thread_shared.thread_num == config@.thread_num,
{
}

/// The first thread of an instance has the first coroutine, which is ready, has the user data of the
/// instance and is the only one that is queued; with it, all threads may start. Every other thread has
/// no coroutine, and changes nothing.
pub proof fn law_first_thread_has_the_first_coroutine<Th: SchedulerThread>(
    scheduler: Th,
    thread_id: usize,
    senders: Vec<MioSender>,
    threads: &mut HandlerThreadShared,
    user_data: Option<UserData>,
    config: crate::coroutine::Config,
    table: &mut CoroutineTable,
    first: Handler<Th>,
    other_threads: &mut HandlerThreadShared,
    other_table: &mut CoroutineTable,
    other: Handler<Th>,
)
    requires
        old(threads).coroutines_num < usize::MAX,
        call_ensures(
            thread_loop::<Th>,
            (true, scheduler, thread_id, senders, threads, user_data, config, table),
            first,
        ),
        call_ensures(
            thread_loop::<Th>,
            (
                false,
                scheduler,
                thread_id,
                senders,
                other_threads,
                user_data,
                config,
                other_table,
            ),
            other,
        ),
    ensures
        ({
            let key = old(table).next_key();
            let co = final(table)@[key];
            let queue = first@.shared.spawned;
            &&& co.state is Ready
            &&& co.handler == Some(thread_id)
            &&& co.user_data == user_data
            &&& co.inherited_user_data == user_data
            &&& co.exit_notificators.len() == 0
            &&& co.sync_channel is None
            &&& co.blocked_on.len() == 0
            &&& first@.shared.items.contains_key(co.id)
            &&& first@.shared.items[co.id] == key
            &&& queue.len() == 1
            &&& queue[0].key() == key
            &&& queue[0].data() == user_data
            &&& !queue[0].yielding()
            &&& first@.shared.ready.len() == 0
            &&& final(threads).coroutines_num == old(threads).coroutines_num + 1
            &&& final(threads).mioco_started != 0
            &&& final(threads).thread_num == old(threads).thread_num
        }),
        first@.shared.thread_id == thread_id,
        first@.shared.senders == senders@,
        first@.shared.coroutine_config == config,
        first@.scheduler == scheduler,
        first@.idle(),
        !first@.is_shutting_down,
        other@.shared.thread_id == thread_id,
        other@.shared.senders == senders@,
        other@.shared.coroutine_config == config,
        other@.scheduler == scheduler,
        other@.idle(),
        !other@.is_shutting_down,
        other@.shared.spawned.len() == 0,
        other@.shared.ready.len() == 0,
        final(other_table)@ == old(other_table)@,
        *final(other_threads) == *old(other_threads),
{
}

/// An instance that is started with a given number of threads has that many, and the default settings
/// otherwise.
pub proof fn law_started_threads(
    thread_num: usize,
    with_threads: (Mioco<FifoScheduler>, Start<FifoSchedulerThread>),
    with_defaults: (Mioco<FifoScheduler>, Start<FifoSchedulerThread>),
)
    requires
        call_ensures(start_threads, (thread_num,), with_threads),
        call_ensures(start, (), with_defaults),
    ensures
        with_threads.1.thread_shared.thread_num == thread_num,
        with_threads.1.senders@.len() == thread_num,
        with_threads.1.coroutine_config == with_defaults.1.coroutine_config,
        with_threads.1.user_data is None,
        with_threads.1.thread_shared.coroutines_num == 0,
        with_threads.1.thread_shared.mioco_started == 0,
        cpus(with_defaults.1.thread_shared.thread_num),
        with_defaults.1.senders@.len() == with_defaults.1.thread_shared.thread_num,
        with_defaults.1.coroutine_config.stack_size == 2 * 1024 * 1024,
        with_defaults.1.coroutine_config.stack_protection,
        with_defaults.1.coroutine_config.catch_panics,
        with_defaults.1.user_data is None,
{
}

/// The settings of the event loops can be changed through a configuration, and are read as they were
/// left; nothing else changes with them. Every thread gets a part of the scheduler that was set.
pub proof fn law_event_loops_are_configured<S: Scheduler>(
    config: &mut Config<S>,
    settings: &mut mio::EventLoopConfig,
    read: &mio::EventLoopConfig,
    instance: Mioco<S>,
    configured: &Config<S>,
    thread: S::Thread,
)
    requires
        call_ensures(Config::<S>::event_loop, (config,), settings),
        call_ensures(Config::<S>::event_loop_config, (&*final(config),), read),
        call_ensures(Mioco::<S>::configured, (&instance,), configured),
        call_ensures(Mioco::<S>::spawn_thread, (&instance,), thread),
    ensures
        *old(settings) == old(config)@.event_loop_config,
        *read == *final(settings),
        final(config)@.thread_num == old(config)@.thread_num,
        final(config)@.scheduler == old(config)@.scheduler,
        final(config)@.user_data == old(config)@.user_data,
        final(config)@.coroutine_config == old(config)@.coroutine_config,
        *configured == instance.config(),
        instance.config()@.scheduler.spawn_step(thread),
{
}

} // verus!
