//! One thread, step by step.

use mioco::api::{block_on, exit, select_add, selected};
use mioco::control::EventLoop;
use mioco::coroutine::{Config, State};
use mioco::event::{token_from_ids, EventSet, EventSourceId, Token};
use mioco::handler::{Action, PanicCause};
use mioco::instance::thread_loop;
use mioco::message::{CurrentCoroutine, MioSender};
use mioco::request::{Message, Request};
use mioco::sched::FifoScheduler;
use mioco::table::CoroutineTable;
use mioco::thread::HandlerThreadShared;
use mioco::{
    select_wait, yield_now, CoroutineControl, Evented, ExitStatus, Handler, MioAdapter, Scheduler,
    SchedulerThread, RW,
};

/// What a `Puppet` does with a coroutine.
#[derive(Copy, Clone)]
enum Order {
    Resume,
    Migrate(usize),
    Keep,
    /// Resume what was kept before.
    ResumeKept,
    /// Migrate what was kept before.
    MigrateKept(usize),
}

/// Does with spawned coroutines what it is told to, one order after the other, and resumes those
/// that were made ready.
struct Puppet {
    orders: Vec<Order>,
    kept: Vec<CoroutineControl>,
}

impl SchedulerThread for Puppet {
    fn spawned(&mut self, event_loop: &mut EventLoop, coroutine_ctrl: CoroutineControl) {
        match self.orders.remove(0) {
            Order::Resume => coroutine_ctrl.resume(event_loop),
            Order::Migrate(thread_id) => coroutine_ctrl.migrate(event_loop, thread_id),
            Order::Keep => self.kept.push(coroutine_ctrl),
            Order::ResumeKept => {
                self.kept.remove(0).resume(event_loop);
                self.kept.push(coroutine_ctrl);
            }
            Order::MigrateKept(thread_id) => {
                self.kept.remove(0).migrate(event_loop, thread_id);
                self.kept.push(coroutine_ctrl);
            }
        }
    }

    fn ready(&mut self, event_loop: &mut EventLoop, coroutine_ctrl: CoroutineControl) {
        coroutine_ctrl.resume(event_loop);
    }

    fn tick(&mut self, _event_loop: &mut EventLoop) {}

    fn timeout(&mut self) -> Option<u64> {
        None
    }
}

struct Bench<S> {
    handler: Handler<S>,
    table: CoroutineTable,
    threads: HandlerThreadShared,
}

impl<S: SchedulerThread> Bench<S> {
    fn new(scheduler: S, thread_num: usize, config: Config) -> Self {
        let mut table = CoroutineTable::new();
        let mut threads = HandlerThreadShared::new(thread_num);
        let senders = (0..thread_num).map(|thread_id| MioSender { thread_id }).collect();
        let handler =
            thread_loop(true, scheduler, 0, senders, &mut threads, None, config, &mut table);
        Bench { handler, table, threads }
    }

    /// The next action that is worth something.
    fn next(&mut self) -> Action {
        loop {
            let action = self.handler.next(&mut self.table);
            if !matches!(action, Action::Continue) {
                return action;
            }
        }
    }

    fn current(&self) -> CurrentCoroutine {
        CurrentCoroutine { co: self.handler.running() }
    }

    fn after_resume(&mut self) -> Vec<Request> {
        self.handler.after_resume(&mut self.table, &mut self.threads)
    }

    fn exit(&mut self, status: ExitStatus) -> Vec<Request> {
        let mut requests = exit(&self.current(), &mut self.table, status);
        requests.append(&mut self.after_resume());
        requests
    }

    fn notify(&mut self, message: Message) -> Vec<Request> {
        self.handler.notify(&mut self.table, &self.threads, message)
    }

    fn id(&self, key: u64) -> usize {
        self.table.get(key).unwrap().id()
    }
}

fn puppet(orders: Vec<Order>) -> Bench<Puppet> {
    Bench::new(Puppet { orders, kept: Vec::new() }, 2, Config::default())
}

fn fifo(config: Config) -> Bench<<FifoScheduler as Scheduler>::Thread> {
    Bench::new(FifoScheduler::new().spawn_thread(), 1, config)
}

#[test]
fn first_coroutine_runs_at_the_first_tick() {
    let mut bench = fifo(Config::default());
    assert!(bench.handler.is_idle());
    bench.handler.tick();
    assert!(matches!(bench.next(), Action::Resume(0)));
    assert_eq!(bench.handler.running(), Some(0));
    assert_eq!(bench.table.get(0).unwrap().state(), State::Running);
    let requests = bench.exit(ExitStatus::Exit);
    assert_eq!(requests.len(), 1);
    assert!(matches!(
        requests[0],
        Request::Send { to: MioSender { thread_id: 0 }, message: Message::Terminate }
    ));
    assert!(matches!(bench.next(), Action::Poll));
    assert!(bench.handler.is_idle());
    let requests = bench.notify(Message::Terminate);
    assert!(matches!(requests[0], Request::Stop));
    assert_eq!(bench.table.get(0).unwrap().handler(), None);
    bench.table.release(0);
    assert!(bench.table.get(0).is_none());
}

#[test]
fn yielded_coroutine_waits_for_the_next_tick() {
    let mut bench = fifo(Config::default());
    bench.handler.tick();
    assert!(matches!(bench.next(), Action::Resume(0)));
    yield_now(&bench.current(), &mut bench.table);
    assert!(bench.after_resume().is_empty());
    // the scheduler keeps it, and does not want to wait for long
    match bench.next() {
        Action::Request(Request::Timeout { token, delay_ms }) => {
            assert_eq!(token, Token(0));
            assert_eq!(delay_ms, 1000);
        }
        _ => unreachable!(),
    }
    assert!(matches!(bench.next(), Action::Poll));
    assert!(bench.handler.timeout(&mut bench.table, Token(0)).is_empty());
    assert!(matches!(bench.next(), Action::Poll));
    bench.handler.tick();
    assert!(matches!(bench.next(), Action::Resume(0)));
    bench.exit(ExitStatus::Exit);
    assert!(matches!(bench.next(), Action::Poll));
}

#[test]
fn yielded_coroutines_run_in_order() {
    let mut bench = fifo(Config::default());
    bench.handler.tick();
    assert!(matches!(bench.next(), Action::Resume(0)));
    bench.handler.spawn_child(&mut bench.table, &mut bench.threads);
    bench.handler.spawn_child(&mut bench.table, &mut bench.threads);
    yield_now(&bench.current(), &mut bench.table);
    bench.after_resume();
    for key in 1..3 {
        match bench.next() {
            Action::Resume(resumed) => assert_eq!(resumed, key),
            _ => unreachable!(),
        }
        yield_now(&bench.current(), &mut bench.table);
        bench.after_resume();
    }
    assert!(matches!(bench.next(), Action::Request(Request::Timeout { .. })));
    assert!(matches!(bench.next(), Action::Poll));
    bench.handler.tick();
    let mut order = Vec::new();
    while let Action::Resume(key) = bench.next() {
        order.push(key);
        bench.exit(ExitStatus::Exit);
    }
    assert_eq!(order, vec![0, 1, 2]);
}

#[test]
fn children_start_when_their_parent_switches_back() {
    let mut bench = fifo(Config::default());
    bench.handler.tick();
    assert!(matches!(bench.next(), Action::Resume(0)));
    assert_eq!(bench.handler.spawn_child(&mut bench.table, &mut bench.threads), 1);
    assert_eq!(bench.handler.spawn_child(&mut bench.table, &mut bench.threads), 2);
    assert_eq!(bench.threads.coroutines_num, 3);
    bench.exit(ExitStatus::Exit);
    assert!(matches!(bench.next(), Action::Resume(1)));
    assert!(bench.exit(ExitStatus::Exit).is_empty());
    assert!(matches!(bench.next(), Action::Resume(2)));
    assert_eq!(bench.exit(ExitStatus::Exit).len(), 1);
    assert!(matches!(bench.next(), Action::Poll));
}

#[test]
fn events_wake_who_waits_for_them() {
    let mut bench = fifo(Config::default());
    bench.handler.tick();
    assert!(matches!(bench.next(), Action::Resume(0)));
    let mut reader = MioAdapter::new(());
    block_on(&bench.current(), &mut bench.table, &mut reader, 55, RW::read());
    let token = token_from_ids(bench.id(0), EventSourceId::new(0));
    let requests = bench.after_resume();
    assert_eq!(requests.len(), 1);
    let interest_wanted = EventSet { readable: true, writable: false, hup: true };
    match &requests[0] {
        Request::Register { io, token: at, interest } => {
            assert_eq!((*io, *at, *interest), (55, token, interest_wanted));
        }
        _ => unreachable!(),
    }
    assert!(matches!(bench.next(), Action::Poll));

    // not what is waited for
    let writable = EventSet { readable: false, writable: true, hup: false };
    let requests = bench.handler.ready(&mut bench.table, token, writable);
    assert!(matches!(requests[0], Request::Reregister { io: 55, .. }));
    assert!(matches!(bench.next(), Action::Poll));
    // nobody is there
    let nobody = token_from_ids(200, EventSourceId::new(0));
    assert!(bench.handler.ready(&mut bench.table, nobody, EventSet::readable()).is_empty());
    // nothing is there
    let nothing = token_from_ids(bench.id(0), EventSourceId::new(1));
    assert!(bench.handler.ready(&mut bench.table, nothing, EventSet::readable()).is_empty());
    assert!(matches!(bench.next(), Action::Poll));

    let hup = EventSet { readable: false, writable: false, hup: true };
    let requests = bench.handler.ready(&mut bench.table, token, hup);
    assert_eq!(requests.len(), 1);
    assert!(matches!(requests[0], Request::Deregister { io: 55, .. }));
    assert!(matches!(bench.next(), Action::Resume(0)));
    let event = selected(&bench.current(), &bench.table);
    assert!(event.has_read() && !event.has_write());
    assert!(event.id() == reader.id());
    reader.resumed(bench.table.get(0).unwrap());
    assert!(reader.0.common_ref().peer_hup);
    // the peer is gone, so only writing is left to wait for
    block_on(&bench.current(), &mut bench.table, &mut reader, 55, RW::both());
    let write_only = EventSet { readable: false, writable: true, hup: false };
    match &bench.after_resume()[0] {
        Request::Register { interest, .. } => assert_eq!(*interest, write_only),
        _ => unreachable!(),
    }
}

#[test]
fn source_added_twice_is_one_source() {
    let mut bench = fifo(Config::default());
    bench.handler.tick();
    assert!(matches!(bench.next(), Action::Resume(0)));
    let mut twice = MioAdapter::new(());
    let mut once = MioAdapter::new(());
    select_add(&bench.current(), &mut bench.table, &mut twice, 7, RW::read());
    select_add(&bench.current(), &mut bench.table, &mut once, 8, RW::read());
    select_add(&bench.current(), &mut bench.table, &mut twice, 7, RW::write());
    assert_eq!(twice.id(), EventSourceId::new(2));
    assert_eq!(once.id(), EventSourceId::new(1));
    select_wait(&bench.current(), &mut bench.table);
    let token = token_from_ids(bench.id(0), EventSourceId::new(2));
    let write = EventSet { readable: false, writable: true, hup: true };
    let requests = bench.after_resume();
    assert_eq!(requests.len(), 3);
    for i in [0, 2] {
        match &requests[i] {
            Request::Register { io, token: at, interest } => {
                assert_eq!((*io, *at, *interest), (7, token, write));
            }
            _ => unreachable!(),
        }
    }
    assert!(matches!(requests[1], Request::Register { io: 8, .. }));

    // what was asked for first is not waited for any more, but a hang-up is noticed
    let gone = EventSet { readable: true, writable: false, hup: true };
    let requests = bench.handler.ready(&mut bench.table, token, gone);
    assert_eq!(requests.len(), 1);
    match &requests[0] {
        Request::Reregister { io, token: at, interest } => {
            let write_only = EventSet { readable: false, writable: true, hup: false };
            assert_eq!((*io, *at, *interest), (7, token, write_only));
        }
        _ => unreachable!(),
    }
    let writable = EventSet { readable: false, writable: true, hup: false };
    let requests = bench.handler.ready(&mut bench.table, token, writable);
    assert_eq!(requests.len(), 3);
    for i in [0, 2] {
        match &requests[i] {
            Request::Deregister { io, token: at } => assert_eq!((*io, *at), (7, token)),
            _ => unreachable!(),
        }
    }
    assert!(matches!(bench.next(), Action::Resume(0)));
    let event = selected(&bench.current(), &bench.table);
    assert!(event.has_write() && !event.has_read());
    assert!(event.id() == twice.id());
    assert!(event.id() != once.id());
    let co = bench.table.get(0).unwrap();
    let first = co.released(EventSourceId::new(0)).unwrap();
    assert!(first.peer_hup);
    assert_eq!(first.id, Some(twice.id()));
    twice.resumed(co);
    once.resumed(co);
    assert!(twice.0.common_ref().peer_hup);
    assert!(!once.0.common_ref().peer_hup);
}

#[test]
fn channel_messages_and_timeouts_are_events() {
    let mut bench = fifo(Config::default());
    bench.handler.tick();
    assert!(matches!(bench.next(), Action::Resume(0)));
    let mut source = MioAdapter::new(());
    block_on(&bench.current(), &mut bench.table, &mut source, 1, RW::read());
    bench.after_resume();
    assert!(matches!(bench.next(), Action::Poll));
    let token = token_from_ids(bench.id(0), EventSourceId::new(0));
    assert_eq!(bench.notify(Message::ChannelMsg(token)).len(), 1);
    assert!(matches!(bench.next(), Action::Resume(0)));
    block_on(&bench.current(), &mut bench.table, &mut source, 1, RW::read());
    bench.after_resume();
    assert!(matches!(bench.next(), Action::Poll));
    assert_eq!(bench.handler.timeout(&mut bench.table, token).len(), 1);
    assert!(matches!(bench.next(), Action::Resume(0)));
}

#[test]
fn new_coroutines_are_spread_between_threads() {
    let scheduler = FifoScheduler::new();
    let first = scheduler.spawn_thread();
    let _second = scheduler.spawn_thread();
    let _third = scheduler.spawn_thread();
    let mut bench = Bench::new(first, 3, Config::default());
    bench.handler.tick();
    // the first coroutine stays on the first thread
    assert!(matches!(bench.next(), Action::Resume(0)));
    for _ in 0..6 {
        bench.handler.spawn_child(&mut bench.table, &mut bench.threads);
    }
    bench.exit(ExitStatus::Exit);
    let mut threads = Vec::new();
    loop {
        match bench.next() {
            Action::Resume(_) => {
                threads.push(0);
                bench.exit(ExitStatus::Exit);
            }
            Action::Request(Request::Send { to, message: Message::Migration(_) }) => {
                threads.push(to.thread_id);
            }
            action => {
                assert!(matches!(action, Action::Poll));
                break;
            }
        }
    }
    assert_eq!(threads, vec![1, 2, 0, 1, 2, 0]);
}

#[test]
fn migration_keeps_the_coroutine() {
    let mut from = puppet(vec![Order::Migrate(1)]);
    from.handler.tick();
    let message = match from.next() {
        Action::Request(Request::Send { to, message }) => {
            assert_eq!(to, MioSender { thread_id: 1 });
            message
        }
        _ => unreachable!(),
    };
    assert_eq!(from.table.get(0).unwrap().handler(), None);
    assert!(matches!(from.next(), Action::Poll));
    let scheduler = Puppet { orders: Vec::new(), kept: Vec::new() };
    let senders = vec![MioSender { thread_id: 0 }, MioSender { thread_id: 1 }];
    let mut to = thread_loop(
        false,
        scheduler,
        1,
        senders,
        &mut from.threads,
        None,
        Config::default(),
        &mut from.table,
    );
    assert!(to.notify(&mut from.table, &from.threads, message).is_empty());
    assert_eq!(from.table.get(0).unwrap().handler(), Some(1));
    loop {
        match to.next(&mut from.table) {
            Action::Continue => {}
            action => {
                assert!(matches!(action, Action::Resume(0)));
                break;
            }
        }
    }
}

#[test]
fn migration_to_an_invalid_thread_panics() {
    let mut bench = puppet(vec![Order::Migrate(2)]);
    bench.handler.tick();
    assert!(matches!(bench.next(), Action::Panic(PanicCause::InvalidThread)));
}

#[test]
fn uncaught_panics_are_propagated() {
    let config = Config { catch_panics: false, ..Config::default() };
    let mut bench = fifo(config);
    bench.handler.tick();
    assert!(matches!(bench.next(), Action::Resume(0)));
    let requests = bench.exit(ExitStatus::Panic);
    assert_eq!(requests.len(), 2);
    assert!(matches!(requests[0], Request::Send { message: Message::PropagatePanic(0), .. }));
    assert!(matches!(requests[1], Request::Send { message: Message::Terminate, .. }));
    assert!(matches!(bench.next(), Action::Poll));
    let requests = bench.notify(Message::PropagatePanic(0));
    assert!(matches!(requests[0], Request::Unwind(0)));
}

#[test]
fn shutdown_kills_all() {
    let mut bench = puppet(vec![Order::Resume, Order::Keep, Order::Resume]);
    bench.handler.tick();
    assert!(matches!(bench.next(), Action::Resume(0)));
    bench.handler.spawn_child(&mut bench.table, &mut bench.threads);
    bench.handler.spawn_child(&mut bench.table, &mut bench.threads);
    select_wait(&bench.current(), &mut bench.table);
    bench.after_resume();
    assert!(matches!(bench.next(), Action::Resume(2)));
    select_wait(&bench.current(), &mut bench.table);
    bench.after_resume();
    assert!(matches!(bench.next(), Action::Poll));
    assert!(bench.notify(Message::Shutdown).is_empty());
    let mut killed = Vec::new();
    while let Action::Kill(key) = bench.next() {
        killed.push(key);
        bench.exit(ExitStatus::Panic);
    }
    killed.sort();
    assert_eq!(killed, vec![0, 1, 2]);
    assert_eq!(bench.threads.coroutines_num, 0);
    assert!(bench.handler.is_idle());
    // nothing is scheduled any more
    bench.handler.tick();
    assert!(bench.handler.is_idle());
}

#[test]
fn late_coroutines_are_killed_by_a_shutdown() {
    let mut from = puppet(vec![Order::Migrate(0)]);
    from.handler.tick();
    let message = match from.next() {
        Action::Request(Request::Send { message, .. }) => message,
        _ => unreachable!(),
    };
    assert!(matches!(from.next(), Action::Poll));
    from.notify(Message::Shutdown);
    assert!(matches!(from.next(), Action::Poll));
    from.notify(message);
    assert!(matches!(from.next(), Action::Kill(0)));
    assert_eq!(from.exit(ExitStatus::Panic).len(), 2);
}

/// Lets a coroutine survive a shutdown, in a slot that has been passed already, and has it
/// delivered to the scheduler, which keeps the control of a coroutine that was killed.
fn after_survivor(order: Order) -> Action {
    let mut bench = puppet(vec![Order::Resume, Order::Keep, order]);
    bench.handler.tick();
    assert!(matches!(bench.next(), Action::Resume(0)));
    bench.handler.spawn_child(&mut bench.table, &mut bench.threads);
    select_wait(&bench.current(), &mut bench.table);
    bench.after_resume();
    assert!(matches!(bench.next(), Action::Poll));
    bench.notify(Message::Shutdown);
    assert!(matches!(bench.next(), Action::Kill(0)));
    bench.exit(ExitStatus::Panic);
    assert!(matches!(bench.next(), Action::Kill(1)));
    assert_eq!(bench.handler.spawn_child(&mut bench.table, &mut bench.threads), 2);
    bench.exit(ExitStatus::Panic);
    assert!(matches!(bench.next(), Action::Poll));
    let token = token_from_ids(bench.id(2), EventSourceId::new(0));
    assert!(bench.handler.ready(&mut bench.table, token, EventSet::readable()).is_empty());
    bench.next()
}

#[test]
fn killed_coroutines_are_not_resumed() {
    assert!(matches!(after_survivor(Order::ResumeKept), Action::Panic(PanicCause::NotReady)));
}

#[test]
fn killed_coroutines_are_not_migrated() {
    let action = after_survivor(Order::MigrateKept(1));
    assert!(matches!(action, Action::Panic(PanicCause::NotAttached)));
}
