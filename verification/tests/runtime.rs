//! Whole instances, run on a simulated event loop with a clock of its own.
//!
//! A coroutine is a function that is called whenever it is resumed, and that returns when it
//! switches back; it keeps its own place.

use mioco::api::{block_on, exit, resumed, select_add, selected, sync, SpawnIn};
use mioco::control::EventLoop;
use mioco::coroutine::UserData;
use mioco::event::{EventSet, Token};
use mioco::evented::EventedImpl;
use mioco::handler::Action;
use mioco::instance::{thread_loop, Start};
use mioco::message::{CurrentCoroutine, MioSender, Wakeup};
use mioco::request::{Message, Request};
use mioco::sched::FifoScheduler;
use mioco::sync::mpsc::{Channel, Receiver, ReceiverCore, RecvError, RecvStep, Sender};
use mioco::sync::LockStep;
use mioco::table::CoroutineTable;
use mioco::thread::HandlerThreadShared;
use mioco::timer::{Instant, ReadStep, Timer, TimerCore, TimerStep};
use mioco::{
    get_userdata, in_coroutine, select_wait, set_children_userdata, set_userdata, shutdown, sleep,
    spawn, spawn_ext, thread_num, yield_now, Config, CoroutineControl, CoroutineHandle, Evented,
    ExitStatus, Handler, MioAdapter, Mioco, Scheduler, SchedulerThread, RW,
};
use std::cell::Cell;
use std::collections::{BTreeMap, HashMap, VecDeque};
use std::rc::Rc;
use std::sync::Arc;

const THREADS_N: [usize; 4] = [1, 2, 5, 21];

/// Number of the type `u32` as user data.
const U32: u64 = 1;
/// Number of the type `i32` as user data.
const I32: u64 = 2;

fn u32_data(value: u64) -> UserData {
    UserData { type_id: U32, value }
}

/// How a coroutine switches back.
enum Flow {
    /// It has yielded, or blocked.
    Switch,
    /// Its function has returned.
    Done,
    /// It has panicked.
    Panicked,
}

type Body<S> = Box<dyn FnMut(&mut World<S>, usize) -> Flow>;

struct Thread<S> {
    handler: Handler<S>,
    current: CurrentCoroutine,
    inbox: VecDeque<Message>,
    events: VecDeque<(Token, EventSet)>,
    stopped: bool,
}

/// A raw event source.
#[derive(Copy, Clone)]
enum Io {
    Numbers(ReceiverCore),
    Exits(ReceiverCore),
    Units(ReceiverCore),
    Timer(TimerCore),
    Pipe(u64),
}

#[derive(Default)]
struct Pipe {
    bytes: VecDeque<u8>,
    closed: bool,
    watched: Option<(usize, Token)>,
}

struct PipeReader(MioAdapter<u64>);

struct PipeWriter(u64);

struct World<S> {
    table: CoroutineTable,
    thread_shared: HandlerThreadShared,
    threads: Vec<Thread<S>>,
    bodies: HashMap<u64, Body<S>>,
    ios: HashMap<u64, Io>,
    numbers: HashMap<u64, Channel<u64>>,
    exits: HashMap<u64, Channel<ExitStatus>>,
    units: HashMap<u64, Channel<()>>,
    sync_ends: HashMap<u64, (Sender, Receiver)>,
    jobs: VecDeque<Box<dyn FnOnce(&mut World<S>)>>,
    pipes: HashMap<u64, Pipe>,
    timeouts: BTreeMap<(u128, u64), (usize, Token)>,
    due: HashMap<u64, u128>,
    now: u128,
    fresh: u64,
    killed: usize,
}

fn instant(ns: u128) -> Instant {
    Instant { secs: (ns / 1_000_000_000) as u64, nanos: (ns % 1_000_000_000) as u32 }
}

impl<S: SchedulerThread + 'static> World<S> {
    fn fresh(&mut self) -> u64 {
        self.fresh += 1;
        self.fresh
    }

    fn now(&self) -> Instant {
        instant(self.now)
    }

    fn current(&self, tid: usize) -> &CurrentCoroutine {
        &self.threads[tid].current
    }

    fn spawn_ext(&mut self, tid: usize, body: Body<S>) -> CoroutineHandle {
        let thread = &mut self.threads[tid];
        assert_eq!(spawn(&thread.current), SpawnIn::SameInstance);
        let handle = spawn_ext(
            &thread.current,
            &mut thread.handler,
            &mut self.table,
            &mut self.thread_shared,
        );
        self.bodies.insert(handle.coroutine(), body);
        handle
    }

    fn spawn(&mut self, tid: usize, body: Body<S>) {
        let _ = self.spawn_ext(tid, body);
    }

    fn yield_now(&mut self, tid: usize) -> Flow {
        yield_now(&self.threads[tid].current, &mut self.table);
        Flow::Switch
    }

    fn wake(&mut self, wakeup: Option<Wakeup>) {
        if let Some(wakeup) = wakeup {
            self.threads[wakeup.to.thread_id].inbox.push_back(Message::ChannelMsg(wakeup.token));
        }
    }

    fn channel(&mut self) -> (Sender, Receiver) {
        let key = self.fresh();
        let (sender, receiver, channel) = mioco::sync::mpsc::channel(key);
        self.numbers.insert(key, channel);
        (sender, receiver)
    }

    fn send(&mut self, sender: &Sender, item: u64) -> Result<(), u64> {
        match sender.send(self.numbers.get_mut(&sender.key()).unwrap(), item) {
            Ok(wakeup) => {
                self.wake(wakeup);
                Ok(())
            }
            Err(err) => Err(err.0),
        }
    }

    fn clone_sender(&mut self, sender: &Sender) -> Sender {
        sender.clone(self.numbers.get_mut(&sender.key()).unwrap())
    }

    fn drop_sender(&mut self, sender: Sender) {
        let key = sender.key();
        let wakeup = sender.drop(self.numbers.get_mut(&key).unwrap());
        self.wake(wakeup);
    }

    /// The coroutine goes on after it was blocked on the source, if it was.
    fn back<E: EventedImpl>(&mut self, tid: usize, evented: &mut E) {
        let co = self.table.get(self.threads[tid].current.co.unwrap()).unwrap();
        if let Some(id) = evented.shared().common_ref().id {
            if co.released(id).is_some() {
                resumed(&self.threads[tid].current, &self.table, evented);
            }
        }
    }

    fn block<E: EventedImpl>(&mut self, tid: usize, evented: &mut E, raw: Io, rw: RW) {
        let io = self.fresh();
        self.ios.insert(io, raw);
        block_on(&self.threads[tid].current, &mut self.table, evented, io, rw);
    }

    /// Returns the number that stands for the raw source.
    fn select<E: EventedImpl>(&mut self, tid: usize, evented: &mut E, raw: Io, rw: RW) -> u64 {
        let io = self.fresh();
        self.ios.insert(io, raw);
        self.select_again(tid, evented, io, rw);
        io
    }

    fn select_again<E: EventedImpl>(&mut self, tid: usize, evented: &mut E, io: u64, rw: RW) {
        select_add(&self.threads[tid].current, &mut self.table, evented, io, rw);
    }

    /// Nothing means that the coroutine is blocked.
    fn recv(&mut self, tid: usize, receiver: &mut Receiver) -> Option<Result<u64, RecvError>> {
        self.back(tid, receiver);
        let channel = self.numbers.get_mut(&receiver.key()).unwrap();
        match receiver.recv(&self.threads[tid].current, channel) {
            RecvStep::Return(res) => Some(res),
            RecvStep::Block(rw) => {
                let raw = Io::Numbers(*receiver.shared().io_ref());
                self.block(tid, receiver, raw, rw);
                None
            }
            RecvStep::Wait => unreachable!(),
        }
    }

    fn exit_notificator(&mut self, handle: &CoroutineHandle) -> Receiver {
        let key = self.fresh();
        let (receiver, channel) = handle.exit_notificator(&mut self.table, key);
        self.exits.insert(key, channel);
        receiver
    }

    fn recv_exit(
        &mut self,
        tid: usize,
        receiver: &mut Receiver,
    ) -> Option<Result<ExitStatus, RecvError>> {
        self.back(tid, receiver);
        let channel = self.exits.get_mut(&receiver.key()).unwrap();
        match receiver.recv(&self.threads[tid].current, channel) {
            RecvStep::Return(res) => Some(res),
            RecvStep::Block(rw) => {
                let raw = Io::Exits(*receiver.shared().io_ref());
                self.block(tid, receiver, raw, rw);
                None
            }
            RecvStep::Wait => unreachable!(),
        }
    }

    /// Nothing means that the coroutine is blocked.
    fn read_timer(&mut self, tid: usize, timer: &mut Timer) -> Option<Instant> {
        self.back(tid, timer);
        match timer.read(self.now()) {
            ReadStep::Done(now) => Some(now),
            ReadStep::Block(rw) => {
                let raw = Io::Timer(*timer.shared().io_ref());
                self.block(tid, timer, raw, rw);
                None
            }
        }
    }

    /// Starts a sleep if none was started; true when it is over.
    fn sleep(&mut self, tid: usize, asleep: &mut Option<Timer>, time_ms: i64) -> bool {
        if asleep.is_none() {
            *asleep = Some(sleep(self.now(), time_ms));
        }
        if self.read_timer(tid, asleep.as_mut().unwrap()).is_some() {
            *asleep = None;
            true
        } else {
            false
        }
    }

    /// Starts `job` on a thread of its own, and blocks until it is done.
    fn sync(&mut self, tid: usize, job: Box<dyn FnOnce(&mut World<S>)>) -> u64 {
        let fresh = self.fresh();
        let (key, made) = sync(&self.threads[tid].current, &mut self.table, fresh);
        if let Some((sender, receiver, channel)) = made {
            self.units.insert(key, channel);
            self.sync_ends.insert(key, (sender, receiver));
        }
        self.jobs.push_back(Box::new(move |world| {
            job(world);
            let sender = {
                let (sender, _) = world.sync_ends.get(&key).unwrap();
                sender.clone(world.units.get_mut(&key).unwrap())
            };
            let sent = sender.send(world.units.get_mut(&key).unwrap(), ());
            world.wake(sent.unwrap());
            let wakeup = sender.drop(world.units.get_mut(&key).unwrap());
            world.wake(wakeup);
        }));
        key
    }

    fn sync_done(&mut self, tid: usize, key: u64) -> bool {
        let (sender, mut receiver) = self.sync_ends.remove(&key).unwrap();
        self.back(tid, &mut receiver);
        let channel = self.units.get_mut(&key).unwrap();
        let done = match receiver.recv(&self.threads[tid].current, channel) {
            RecvStep::Return(res) => {
                assert!(res.is_ok());
                true
            }
            RecvStep::Block(rw) => {
                let raw = Io::Units(*receiver.shared().io_ref());
                self.block(tid, &mut receiver, raw, rw);
                false
            }
            RecvStep::Wait => unreachable!(),
        };
        self.sync_ends.insert(key, (sender, receiver));
        done
    }

    fn pipe(&mut self) -> (PipeReader, PipeWriter) {
        let key = self.fresh();
        self.pipes.insert(key, Pipe::default());
        (PipeReader(MioAdapter::new(key)), PipeWriter(key))
    }

    fn write(&mut self, writer: &PipeWriter, bytes: &[u8]) {
        let pipe = self.pipes.get_mut(&writer.0).unwrap();
        pipe.bytes.extend(bytes.iter());
        if let Some((tid, token)) = pipe.watched {
            self.threads[tid].events.push_back((token, EventSet::readable()));
        }
    }

    fn close(&mut self, writer: PipeWriter) {
        let pipe = self.pipes.get_mut(&writer.0).unwrap();
        pipe.closed = true;
        if let Some((tid, token)) = pipe.watched {
            self.threads[tid].events.push_back((token, HUP));
        }
    }

    /// Nothing means that the coroutine is blocked.
    fn read(&mut self, tid: usize, reader: &mut PipeReader) -> Option<Result<Vec<u8>, ()>> {
        self.back(tid, &mut reader.0);
        let key = *reader.0.shared().io_ref();
        let pipe = self.pipes.get_mut(&key).unwrap();
        let attempt: Result<Option<Vec<u8>>, ()> = if !pipe.bytes.is_empty() {
            Ok(Some(pipe.bytes.drain(..).collect()))
        } else if pipe.closed {
            Ok(Some(Vec::new()))
        } else {
            Ok(None)
        };
        match reader.0.read(attempt) {
            mioco::evented::IoStep::Return(res) => Some(res),
            mioco::evented::IoStep::Block(rw) => {
                self.block(tid, &mut reader.0, Io::Pipe(key), rw);
                None
            }
        }
    }

    fn set_timeout(&mut self, tid: usize, token: Token, delay_ms: u64) -> u64 {
        let id = self.fresh();
        // the event loop rounds up to its next tick
        let due = self.now + (u128::from(delay_ms) + 1) * 1_000_000;
        self.timeouts.insert((due, id), (tid, token));
        self.due.insert(id, due);
        id
    }

    fn clear_timeout(&mut self, id: Option<u64>) {
        if let Some(id) = id {
            if let Some(due) = self.due.remove(&id) {
                self.timeouts.remove(&(due, id));
            }
        }
    }

    fn register(&mut self, tid: usize, io: u64, token: Token, interest: EventSet) {
        let own = MioSender { thread_id: tid };
        let ready = match *self.ios.get(&io).unwrap() {
            Io::Numbers(core) => {
                core.register(self.numbers.get_mut(&core.key()).unwrap(), own, token, interest)
            }
            Io::Exits(core) => {
                core.register(self.exits.get_mut(&core.key()).unwrap(), own, token, interest)
            }
            Io::Units(core) => {
                core.register(self.units.get_mut(&core.key()).unwrap(), own, token, interest)
            }
            Io::Timer(core) => {
                let step = core.register(&self.now(), token);
                self.timer_step(tid, io, core, step)
            }
            Io::Pipe(key) => {
                let pipe = self.pipes.get_mut(&key).unwrap();
                pipe.watched = Some((tid, token));
                if !pipe.bytes.is_empty() {
                    self.threads[tid].events.push_back((token, EventSet::readable()));
                } else if pipe.closed {
                    self.threads[tid].events.push_back((token, HUP));
                }
                false
            }
        };
        if ready {
            self.threads[tid].inbox.push_back(Message::ChannelMsg(token));
        }
    }

    fn timer_step(&mut self, tid: usize, io: u64, core: TimerCore, step: TimerStep) -> bool {
        match step {
            TimerStep::Ready => true,
            TimerStep::Timeout { token, delay_ms } => {
                let mut core = core;
                core.timeout_set(self.set_timeout(tid, token, delay_ms));
                self.ios.insert(io, Io::Timer(core));
                false
            }
        }
    }

    fn reregister(&mut self, tid: usize, io: u64, token: Token, interest: EventSet) {
        let ready = match *self.ios.get(&io).unwrap() {
            Io::Numbers(core) => {
                core.reregister(self.numbers.get_mut(&core.key()).unwrap(), interest)
            }
            Io::Exits(core) => core.reregister(self.exits.get_mut(&core.key()).unwrap(), interest),
            Io::Units(core) => core.reregister(self.units.get_mut(&core.key()).unwrap(), interest),
            Io::Timer(core) => {
                let (cleared, step) = core.reregister(&self.now(), token);
                self.clear_timeout(cleared);
                self.timer_step(tid, io, core, step)
            }
            Io::Pipe(_) => false,
        };
        if ready {
            self.threads[tid].inbox.push_back(Message::ChannelMsg(token));
        }
    }

    fn deregister(&mut self, io: u64) {
        match *self.ios.get(&io).unwrap() {
            Io::Numbers(core) => core.deregister(self.numbers.get_mut(&core.key()).unwrap()),
            Io::Exits(core) => core.deregister(self.exits.get_mut(&core.key()).unwrap()),
            Io::Units(core) => core.deregister(self.units.get_mut(&core.key()).unwrap()),
            Io::Timer(core) => self.clear_timeout(core.deregister()),
            Io::Pipe(key) => self.pipes.get_mut(&key).unwrap().watched = None,
        }
    }

    fn request(&mut self, tid: usize, request: Request) {
        match request {
            Request::Register { io, token, interest } => self.register(tid, io, token, interest),
            Request::Reregister { io, token, interest } => {
                self.reregister(tid, io, token, interest)
            }
            Request::Deregister { io, .. } => self.deregister(io),
            Request::Timeout { token, delay_ms } => {
                let _ = self.set_timeout(tid, token, delay_ms);
            }
            Request::Send { to, message } => self.threads[to.thread_id].inbox.push_back(message),
            Request::Exited { over, status } => {
                let key = over.key();
                let channel = self.exits.get_mut(&key).unwrap();
                let sent = over.send(channel, status).unwrap();
                let dropped = over.drop(channel);
                self.wake(sent);
                self.wake(dropped);
            }
            Request::Stop => self.threads[tid].stopped = true,
            Request::Unwind(cause) => panic!("coroutine {} panicked", cause),
        }
    }

    fn requests(&mut self, tid: usize, requests: Vec<Request>) {
        for request in requests {
            self.request(tid, request);
        }
    }

    /// Switches to a coroutine; `body` is gone when it has to unwind.
    fn execute(&mut self, tid: usize, key: u64, body: Option<Body<S>>) {
        let previous = mioco::message::tl_current_coroutine_ptr_save(
            &mut self.threads[tid].current,
            Some(key),
        );
        let status = match body {
            None => Some(ExitStatus::Panic),
            Some(mut body) => match body(self, tid) {
                Flow::Switch => {
                    self.bodies.insert(key, body);
                    None
                }
                Flow::Done => Some(ExitStatus::Exit),
                Flow::Panicked => Some(ExitStatus::Panic),
            },
        };
        if let Some(status) = status {
            let requests = exit(&self.threads[tid].current, &mut self.table, status);
            self.requests(tid, requests);
        }
        mioco::message::tl_current_coroutine_ptr_restore(&mut self.threads[tid].current, previous);
        let requests =
            self.threads[tid].handler.after_resume(&mut self.table, &mut self.thread_shared);
        self.requests(tid, requests);
    }

    fn pump(&mut self, tid: usize) {
        loop {
            match self.threads[tid].handler.next(&mut self.table) {
                Action::Continue => {}
                Action::Poll => break,
                Action::Resume(key) => {
                    let body = self.bodies.remove(&key);
                    assert!(body.is_some());
                    self.execute(tid, key, body);
                }
                Action::Kill(key) => {
                    self.bodies.remove(&key);
                    self.killed += 1;
                    self.execute(tid, key, None);
                }
                Action::Request(request) => self.request(tid, request),
                Action::Panic(cause) => panic!("{:?}", cause),
            }
        }
        assert!(self.threads[tid].handler.is_idle());
    }

    fn tick(&mut self, tid: usize) {
        self.threads[tid].handler.tick();
        self.pump(tid);
    }

    /// Handles everything that has come for a thread; false if there was nothing.
    fn poll(&mut self, tid: usize) -> bool {
        let mut any = false;
        while let Some((token, events)) = self.threads[tid].events.pop_front() {
            any = true;
            let requests = self.threads[tid].handler.ready(&mut self.table, token, events);
            self.requests(tid, requests);
            self.pump(tid);
        }
        let mut batch = self.threads[tid].inbox.len();
        while batch > 0 && !self.threads[tid].stopped {
            batch -= 1;
            any = true;
            let message = self.threads[tid].inbox.pop_front().unwrap();
            let requests = self.threads[tid].handler.notify(
                &mut self.table,
                &self.thread_shared,
                message,
            );
            self.requests(tid, requests);
            self.pump(tid);
        }
        if any && !self.threads[tid].stopped {
            self.tick(tid);
        }
        any
    }

    fn run(&mut self) {
        for tid in 0..self.threads.len() {
            assert!(!self.threads[tid].handler.shared().wait_for_start_all(&self.thread_shared));
            self.tick(tid);
        }
        loop {
            let mut any = false;
            for tid in 0..self.threads.len() {
                if !self.threads[tid].stopped {
                    any = self.poll(tid) || any;
                }
            }
            if self.threads.iter().all(|thread| thread.stopped) {
                break;
            }
            if any {
                continue;
            }
            if let Some(job) = self.jobs.pop_front() {
                job(self);
                continue;
            }
            let (due, id) = *self.timeouts.keys().next().expect("nothing will ever happen");
            let (tid, token) = self.timeouts.remove(&(due, id)).unwrap();
            self.due.remove(&id);
            self.now = self.now.max(due);
            if !self.threads[tid].stopped {
                let requests = self.threads[tid].handler.timeout(&mut self.table, token);
                self.requests(tid, requests);
                self.pump(tid);
                self.tick(tid);
            }
        }
        assert_eq!(self.thread_shared.coroutines_num, 0);
    }
}

const HUP: EventSet = EventSet { readable: false, writable: false, hup: true };

/// The moment at which every run starts.
const START: u128 = 7_000_000_123;

fn start_instance<Sc: Scheduler>(
    mioco: &Mioco<Sc>,
    started: Start<Sc::Thread>,
    body: Body<Sc::Thread>,
) -> World<Sc::Thread>
where
    Sc::Thread: 'static,
{
    let mut world = World {
        table: CoroutineTable::new(),
        thread_shared: started.thread_shared,
        threads: Vec::new(),
        bodies: HashMap::new(),
        ios: HashMap::new(),
        numbers: HashMap::new(),
        exits: HashMap::new(),
        units: HashMap::new(),
        sync_ends: HashMap::new(),
        jobs: VecDeque::new(),
        pipes: HashMap::new(),
        timeouts: BTreeMap::new(),
        due: HashMap::new(),
        now: START,
        fresh: 0,
        killed: 0,
    };
    let mut sched = Some(started.sched);
    for tid in 0..started.senders.len() {
        let first = tid == 0;
        let handler = thread_loop(
            first,
            if first { sched.take().unwrap() } else { mioco.spawn_thread() },
            tid,
            started.senders.clone(),
            &mut world.thread_shared,
            if first { started.user_data } else { None },
            started.coroutine_config,
            &mut world.table,
        );
        world.threads.push(Thread {
            handler,
            current: CurrentCoroutine::new(),
            inbox: VecDeque::new(),
            events: VecDeque::new(),
            stopped: false,
        });
    }
    world.bodies.insert(0, body);
    world.run();
    world
}

fn start<Sc: Scheduler>(mioco: &mut Mioco<Sc>, body: Body<Sc::Thread>) -> World<Sc::Thread>
where
    Sc::Thread: 'static,
{
    let started = mioco.start();
    start_instance(mioco, started, body)
}

type Fifo = <FifoScheduler as Scheduler>::Thread;

fn start_threads(threads: usize, body: Body<Fifo>) -> World<Fifo> {
    let (mioco, started) = mioco::start_threads(threads);
    assert_eq!(started.senders.len(), threads);
    start_instance(&mioco, started, body)
}

fn flag() -> (Rc<Cell<bool>>, Rc<Cell<bool>>) {
    let flag = Rc::new(Cell::new(false));
    (flag.clone(), flag)
}

#[test]
fn empty_handler() {
    for &threads in THREADS_N.iter() {
        let (finished_ok, finished_copy) = flag();
        start_threads(threads, Box::new(move |_, _| {
            finished_copy.set(true);
            Flow::Done
        }));
        assert!(finished_ok.get());
    }
}

#[test]
fn empty_subcoroutines() {
    for &threads in THREADS_N.iter() {
        let counter = Rc::new(Cell::new(0));
        let counter_copy = counter.clone();
        start_threads(threads, Box::new(move |world, tid| {
            for _ in 0..512 {
                let counter_subcopy = counter_copy.clone();
                world.spawn(tid, Box::new(move |_, _| {
                    counter_subcopy.set(counter_subcopy.get() + 1);
                    Flow::Done
                }));
            }
            counter_copy.set(counter_copy.get() + 1);
            Flow::Done
        }));
        assert_eq!(counter.get(), 512 + 1);
    }
}

#[test]
fn contain_panics() {
    for &threads in THREADS_N.iter() {
        let (finished_ok, _) = flag();
        start_threads(threads, Box::new(|_, _| Flow::Panicked));
        assert!(!finished_ok.get());
    }
}

#[test]
fn contain_panics_in_subcoroutines() {
    for &threads in THREADS_N.iter() {
        let (finished_ok, finished_copy) = flag();
        start_threads(threads, Box::new(move |world, tid| {
            for _ in 0..512 {
                world.spawn(tid, Box::new(|_, _| Flow::Panicked));
            }
            finished_copy.set(true);
            Flow::Done
        }));
        assert!(finished_ok.get());
    }
}

#[test]
#[should_panic]
fn propagate_uncatched_panic() {
    let mut config = Config::new();
    config.set_catch_panics(false);
    config.set_thread_num(1);
    start(&mut Mioco::new_configured(config), Box::new(|_, _| Flow::Panicked));
}

#[test]
fn in_coroutine_true() {
    let (mioco, started) = mioco::start();
    let (ran, ran_copy) = flag();
    start_instance(&mioco, started, Box::new(move |world, tid| {
        assert!(in_coroutine(world.current(tid)));
        ran_copy.set(true);
        Flow::Done
    }));
    assert!(ran.get());
}

#[test]
fn in_coroutine_false() {
    let current = CurrentCoroutine::new();
    assert!(!in_coroutine(&current));
}

/// Copies everything from a pipe to another one, and keeps a number of pipes that are not used.
fn copier(reader: PipeReader, writer: PipeWriter, others: usize) -> Body<Fifo> {
    let mut reader = reader;
    let mut writer = Some(writer);
    let mut kept = Vec::new();
    Box::new(move |world, tid| loop {
        while kept.len() < others {
            kept.push(world.pipe());
        }
        match world.read(tid, &mut reader) {
            None => return Flow::Switch,
            Some(bytes) => {
                let bytes = bytes.unwrap();
                if bytes.is_empty() {
                    world.close(writer.take().unwrap());
                    return Flow::Done;
                }
                world.write(writer.as_ref().unwrap(), &bytes);
            }
        }
    })
}

/// Sends through a chain of pipes of the given length, and expects everything at its end.
fn chain(threads: usize, length: usize, others: usize) {
    let (finished_ok, finished_copy) = flag();
    let mut ends: Option<(PipeWriter, PipeReader)> = None;
    let mut i = 0;
    let mut written = false;
    start_threads(threads, Box::new(move |world, tid| {
        if ends.is_none() {
            let (mut prev_reader, first_writer) = world.pipe();
            for _ in 0..length {
                let (reader, writer) = world.pipe();
                world.spawn(tid, copier(prev_reader, writer, others));
                prev_reader = reader;
            }
            ends = Some((first_writer, prev_reader));
        }
        while i < 9 {
            let test_str = format!("TeSt{}", i);
            let (writer, reader) = ends.as_mut().unwrap();
            if !written {
                written = true;
                world.write(writer, test_str.as_bytes());
            }
            match world.read(tid, reader) {
                None => return Flow::Switch,
                Some(bytes) => assert_eq!(bytes.unwrap(), test_str.as_bytes()),
            }
            written = false;
            i += 1;
        }
        world.close(ends.take().unwrap().0);
        finished_copy.set(true);
        Flow::Done
    }));
    assert!(finished_ok.get());
}

#[test]
fn long_chain() {
    for &threads in THREADS_N.iter() {
        chain(threads, 128, 0);
    }
}

#[test]
fn lots_of_event_sources() {
    for &threads in THREADS_N.iter() {
        chain(threads, 4, 100);
    }
}

#[test]
fn destructs_io_on_panic() {
    for &threads in THREADS_N.iter() {
        let (finished_ok, finished_ok_copy) = flag();
        start_threads(threads, Box::new(move |world, tid| {
            let (reader, writer) = world.pipe();
            let finished_ok_copy = finished_ok_copy.clone();
            let mut reader = reader;
            world.spawn(tid, Box::new(move |world, tid| match world.read(tid, &mut reader) {
                None => Flow::Switch,
                Some(ret) => {
                    assert!(ret.is_ok());
                    finished_ok_copy.set(true);
                    Flow::Done
                }
            }));
            let mut writer = Some(writer);
            world.spawn(tid, Box::new(move |world, _| {
                world.close(writer.take().unwrap());
                Flow::Panicked
            }));
            Flow::Done
        }));
        assert!(finished_ok.get());
    }
}

/// Receives `n` items and then the end of the channel.
fn expect_items(receiver: Receiver, n: usize, finished: Rc<Cell<bool>>) -> Body<Fifo> {
    let mut receiver = receiver;
    let mut received = 0;
    Box::new(move |world, tid| loop {
        match world.recv(tid, &mut receiver) {
            None => return Flow::Switch,
            Some(res) => {
                if received < n {
                    assert!(res.is_ok());
                    received += 1;
                } else {
                    assert!(res.is_err());
                    finished.set(true);
                    return Flow::Done;
                }
            }
        }
    })
}

#[test]
fn channel_disconnect_on_sender_drop() {
    for &threads in THREADS_N.iter() {
        let (finished_ok, finished_ok_copy) = flag();
        start_threads(threads, Box::new(move |world, tid| {
            let (sender, receiver) = world.channel();
            world.spawn(tid, expect_items(receiver, 1, finished_ok_copy.clone()));
            let mut sender = Some(sender);
            let mut sent = false;
            let mut asleep = None;
            world.spawn(tid, Box::new(move |world, tid| {
                if !sent {
                    sent = true;
                    world.send(sender.as_ref().unwrap(), 0).unwrap();
                }
                if !world.sleep(tid, &mut asleep, 10) {
                    return Flow::Switch;
                }
                world.drop_sender(sender.take().unwrap());
                Flow::Panicked
            }));
            Flow::Done
        }));
        assert!(finished_ok.get());
    }
}

#[test]
fn channel_disconnect_on_sender_drop_many() {
    const HOW_MANY: usize = 10;
    for &threads in THREADS_N.iter() {
        let (finished_ok, finished_ok_copy) = flag();
        start_threads(threads, Box::new(move |world, tid| {
            let (sender, receiver) = world.channel();
            world.spawn(tid, expect_items(receiver, HOW_MANY, finished_ok_copy.clone()));
            for i in 0..HOW_MANY {
                let mut sender = Some(world.clone_sender(&sender));
                let mut sent = false;
                let mut asleep = None;
                world.spawn(tid, Box::new(move |world, tid| {
                    if !sent {
                        sent = true;
                        world.send(sender.as_ref().unwrap(), 0).unwrap();
                    }
                    if i % 3 == 0 && !world.sleep(tid, &mut asleep, 10) {
                        return Flow::Switch;
                    }
                    world.drop_sender(sender.take().unwrap());
                    if i % 2 == 0 {
                        Flow::Panicked
                    } else {
                        Flow::Done
                    }
                }));
            }
            world.drop_sender(sender);
            Flow::Done
        }));
        assert!(finished_ok.get());
    }
}

#[test]
fn timer_times_out() {
    for &threads in THREADS_N.iter() {
        let (finished_ok_1, finished_ok_1_copy) = flag();
        let (finished_ok_2, finished_ok_2_copy) = flag();
        start_threads(threads, Box::new(move |world, tid| {
            let (mut reader, writer) = world.pipe();
            let finished = finished_ok_1_copy.clone();
            let mut timer: Option<Timer> = None;
            world.spawn(tid, Box::new(move |world, tid| {
                match timer.as_mut() {
                    None => {
                        let mut made = Timer::new(world.now());
                        made.set_timeout(world.now(), 500);
                        let key = *reader.0.shared().io_ref();
                        world.select(tid, &mut reader.0, Io::Pipe(key), RW::read());
                        let raw = Io::Timer(*made.shared().io_ref());
                        world.select(tid, &mut made, raw, RW::read());
                        timer = Some(made);
                        select_wait(&world.threads[tid].current, &mut world.table);
                        Flow::Switch
                    }
                    Some(timer) => {
                        let event = selected(world.current(tid), &world.table);
                        if event.id() == reader.0.id() {
                            panic!("reader fired first!");
                        }
                        assert!(event.id() == timer.id());
                        finished.set(true);
                        Flow::Done
                    }
                }
            }));
            let finished = finished_ok_2_copy.clone();
            let mut writer = Some(writer);
            let mut asleep = None;
            world.spawn(tid, Box::new(move |world, tid| {
                if !world.sleep(tid, &mut asleep, 1000) {
                    return Flow::Switch;
                }
                world.write(writer.as_ref().unwrap(), b"test");
                world.close(writer.take().unwrap());
                finished.set(true);
                Flow::Done
            }));
            Flow::Done
        }));
        assert!(finished_ok_1.get());
        assert!(finished_ok_2.get());
    }
}

/// Selects on one timer only.
fn select_timer(timeout_ms: Option<u64>, finished: Rc<Cell<bool>>) -> Body<Fifo> {
    let mut timer: Option<Timer> = None;
    Box::new(move |world, tid| match timer.as_ref() {
        None => {
            let mut made = Timer::new(world.now());
            if let Some(timeout_ms) = timeout_ms {
                made.set_timeout(world.now(), timeout_ms);
            }
            let raw = Io::Timer(*made.shared().io_ref());
            world.select(tid, &mut made, raw, RW::read());
            timer = Some(made);
            select_wait(&world.threads[tid].current, &mut world.table);
            Flow::Switch
        }
        Some(timer) => {
            let event = selected(world.current(tid), &world.table);
            assert!(event.has_read());
            assert!(!event.has_write());
            assert!(event.id() == timer.id());
            finished.set(true);
            Flow::Done
        }
    })
}

#[test]
fn timer_default_timeout() {
    for &threads in THREADS_N.iter() {
        let (finished_ok, finished_ok_copy) = flag();
        start_threads(threads, Box::new(move |world, tid| {
            world.spawn(tid, select_timer(None, finished_ok_copy.clone()));
            Flow::Done
        }));
        assert!(finished_ok.get());
    }
}

/// Selects on one timer twice, and on a pipe in between.
fn select_timer_twice(timeout_ms: Option<u64>, finished: Rc<Cell<bool>>) -> Body<Fifo> {
    let mut selected_on: Option<(Timer, PipeReader, PipeWriter)> = None;
    Box::new(move |world, tid| match selected_on.as_ref() {
        None => {
            let (mut reader, writer) = world.pipe();
            let mut timer = Timer::new(world.now());
            if let Some(timeout_ms) = timeout_ms {
                timer.set_timeout(world.now(), timeout_ms);
            }
            let raw = Io::Timer(*timer.shared().io_ref());
            let io = world.select(tid, &mut timer, raw, RW::read());
            assert_eq!(timer.id().as_usize(), 0);
            let key = *reader.0.shared().io_ref();
            world.select(tid, &mut reader.0, Io::Pipe(key), RW::read());
            world.select_again(tid, &mut timer, io, RW::read());
            assert_eq!(timer.id().as_usize(), 2);
            selected_on = Some((timer, reader, writer));
            select_wait(&world.threads[tid].current, &mut world.table);
            Flow::Switch
        }
        Some((timer, reader, _)) => {
            let event = selected(world.current(tid), &world.table);
            assert!(event.has_read());
            assert!(event.id() == timer.id());
            assert!(event.id() != reader.0.id());
            finished.set(true);
            Flow::Done
        }
    })
}

#[test]
fn source_selected_twice_matches_its_event() {
    for &threads in THREADS_N.iter() {
        for timeout_ms in [None, Some(500)] {
            let (finished_ok, finished_ok_copy) = flag();
            start_threads(threads, select_timer_twice(timeout_ms, finished_ok_copy));
            assert!(finished_ok.get());
        }
    }
}

#[test]
fn sleep_takes_time() {
    for &threads in THREADS_N.iter() {
        let mut asleep = None;
        let world = start_threads(threads, Box::new(move |world, tid| {
            if world.sleep(tid, &mut asleep, 500) {
                Flow::Done
            } else {
                Flow::Switch
            }
        }));
        assert!(world.now - START >= 500 * 1_000_000);
    }
}

#[test]
fn timer_select_takes_time() {
    for &threads in THREADS_N.iter() {
        let (finished_ok, finished_ok_copy) = flag();
        let world = start_threads(threads, select_timer(Some(500), finished_ok_copy));
        assert!(finished_ok.get());
        assert!(world.now - START >= 500 * 1_000_000);
    }
}

#[test]
fn basic_timer_stress_test() {
    for &threads in THREADS_N.iter() {
        let mut rounds = 0;
        let mut asleep = None;
        start_threads(threads, Box::new(move |world, tid| loop {
            if asleep.is_none() {
                if rounds == 10 {
                    return Flow::Done;
                }
                rounds += 1;
                for t in 0..100 {
                    let mut asleep = None;
                    world.spawn(tid, Box::new(move |world, tid| {
                        if world.sleep(tid, &mut asleep, t) {
                            Flow::Done
                        } else {
                            Flow::Switch
                        }
                    }));
                }
            }
            if !world.sleep(tid, &mut asleep, 1) {
                return Flow::Switch;
            }
        }));
    }
}

/// Spawns a coroutine and expects its exit status.
fn exit_notifier(threads: usize, panics: bool) {
    let (finished_ok, finished_copy) = flag();
    let mut notify: Option<Receiver> = None;
    start_threads(threads, Box::new(move |world, tid| {
        if notify.is_none() {
            let handle = world.spawn_ext(
                tid,
                Box::new(move |_, _| if panics { Flow::Panicked } else { Flow::Done }),
            );
            notify = Some(world.exit_notificator(&handle));
        }
        match world.recv_exit(tid, notify.as_mut().unwrap()) {
            None => Flow::Switch,
            Some(status) => {
                assert_eq!(status.unwrap().is_panic(), panics);
                finished_copy.set(true);
                Flow::Done
            }
        }
    }));
    assert!(finished_ok.get());
}

#[test]
fn exit_notifier_simple() {
    for &threads in THREADS_N.iter() {
        exit_notifier(threads, false);
    }
}

#[test]
fn exit_notifier_simple_panic() {
    for &threads in THREADS_N.iter() {
        exit_notifier(threads, true);
    }
}

#[test]
fn exit_notifier_wrap_after_finish() {
    for &threads in THREADS_N.iter() {
        let (finished_ok, finished_copy) = flag();
        let mut handle1: Option<CoroutineHandle> = None;
        let mut notify2: Option<Receiver> = None;
        let mut asleep = None;
        start_threads(threads, Box::new(move |world, tid| {
            if handle1.is_none() {
                handle1 = Some(world.spawn_ext(tid, Box::new(|_, _| Flow::Panicked)));
            }
            let handle1 = handle1.as_ref().unwrap();
            if notify2.is_none() {
                if !world.sleep(tid, &mut asleep, 1000) {
                    return Flow::Switch;
                }
                let mut notify1 = world.exit_notificator(handle1);
                let handle2 = world.spawn_ext(tid, Box::new(move |world, tid| {
                    match world.recv_exit(tid, &mut notify1) {
                        None => Flow::Switch,
                        Some(status) => {
                            assert!(status.unwrap().is_panic());
                            Flow::Done
                        }
                    }
                }));
                notify2 = Some(world.exit_notificator(&handle2));
            }
            match world.recv_exit(tid, notify2.as_mut().unwrap()) {
                None => return Flow::Switch,
                Some(status) => assert!(!status.unwrap().is_panic()),
            }
            let mut notify1 = world.exit_notificator(handle1);
            assert!(world.recv_exit(tid, &mut notify1).unwrap().unwrap().is_panic());
            assert!(world.recv_exit(tid, &mut notify1).unwrap().is_err());
            finished_copy.set(true);
            Flow::Done
        }));
        assert!(finished_ok.get());
    }
}

#[test]
fn tiny_stacks() {
    for &threads in THREADS_N.iter() {
        let (finished_ok, finished_copy) = flag();
        let mut config = Config::new();
        config.set_thread_num(threads);
        config.set_stack_size(1024 * 128);
        start(&mut Mioco::new_configured(config), Box::new(move |world, tid| {
            let config = world.threads[tid].handler.shared().coroutine_config();
            assert_eq!(config.stack_size, 1024 * 128);
            finished_copy.set(true);
            Flow::Done
        }));
        assert!(finished_ok.get());
    }
}

#[test]
fn basic_sync() {
    for &threads in THREADS_N.iter() {
        let finished_ok = Rc::new(Cell::new(true));
        let finished_copy = finished_ok.clone();
        let res = Rc::new(Cell::new(0u8));
        let mut waits: Option<u64> = None;
        start_threads(threads, Box::new(move |world, tid| {
            if waits.is_none() {
                let finished_copy = finished_copy.clone();
                let res = res.clone();
                waits = Some(world.sync(tid, Box::new(move |world| {
                    world.now += 1_000_000_000;
                    assert_eq!(finished_copy.get(), true);
                    finished_copy.set(false);
                    res.set(3);
                })));
            }
            if !world.sync_done(tid, waits.unwrap()) {
                return Flow::Switch;
            }
            assert_eq!(res.get(), 3u8);
            assert_eq!(finished_copy.get(), false);
            finished_copy.set(true);
            Flow::Done
        }));
        assert!(finished_ok.get());
    }
}

#[test]
fn sync_takes_time() {
    for &threads in THREADS_N.iter() {
        let mut waits: Option<u64> = None;
        let world = start_threads(threads, Box::new(move |world, tid| {
            if waits.is_none() {
                waits = Some(world.sync(tid, Box::new(|world| world.now += 500 * 1_000_000)));
            }
            if world.sync_done(tid, waits.unwrap()) {
                Flow::Done
            } else {
                Flow::Switch
            }
        }));
        assert!(world.now - START >= 500 * 1_000_000);
    }
}

#[test]
fn basic_sync_in_loop() {
    for &threads in THREADS_N.iter() {
        let counter = Rc::new(Cell::new(0i32));
        let counter_copy = counter.clone();
        let res = Rc::new(Cell::new(-1));
        let mut waits: Option<u64> = None;
        let mut i = 0;
        let world = start_threads(threads, Box::new(move |world, tid| loop {
            if waits.is_none() {
                if i == 10000 {
                    return Flow::Done;
                }
                let counter = counter_copy.clone();
                let res = res.clone();
                waits = Some(world.sync(tid, Box::new(move |world| {
                    if i & 0xf == 0 {
                        world.now += 1_000_000;
                    }
                    counter.set(counter.get() + 1);
                    res.set(i);
                })));
            }
            if !world.sync_done(tid, waits.unwrap()) {
                return Flow::Switch;
            }
            waits = None;
            assert_eq!(res.get(), i);
            i += 1;
        }));
        assert_eq!(counter.get(), 10000);
        // all of them went over one channel
        assert_eq!(world.units.len(), 1);
    }
}

/// Kills every coroutine that was spawned.
struct KillSpawned;

struct KillSpawnedThread {
    expected: Option<u64>,
}

impl Scheduler for KillSpawned {
    type Thread = KillSpawnedThread;

    fn spawn_thread(&self) -> KillSpawnedThread {
        KillSpawnedThread { expected: None }
    }
}

impl SchedulerThread for KillSpawnedThread {
    fn spawned(&mut self, event_loop: &mut EventLoop, coroutine_ctrl: CoroutineControl) {
        if self.expected.is_some() {
            assert_eq!(coroutine_ctrl.get_userdata(U32), self.expected);
        }
        coroutine_ctrl.drop(event_loop);
    }

    fn ready(&mut self, event_loop: &mut EventLoop, coroutine_ctrl: CoroutineControl) {
        coroutine_ctrl.drop(event_loop);
    }

    fn tick(&mut self, _event_loop: &mut EventLoop) {}

    fn timeout(&mut self) -> Option<u64> {
        None
    }
}

#[test]
fn scheduler_kill_on_initial_drop() {
    let config = Config::new().set_scheduler(KillSpawned);
    let (finished_ok, finished_copy) = flag();
    let world = start(&mut Mioco::new_configured(config), Box::new(move |_, _| {
        finished_copy.set(true);
        Flow::Done
    }));
    assert!(!finished_ok.get());
    assert_eq!(world.killed, 1);
}

/// Kills every coroutine that was made ready.
struct KillReady;

struct KillReadyThread;

impl Scheduler for KillReady {
    type Thread = KillReadyThread;

    fn spawn_thread(&self) -> KillReadyThread {
        KillReadyThread
    }
}

impl SchedulerThread for KillReadyThread {
    fn spawned(&mut self, event_loop: &mut EventLoop, coroutine_ctrl: CoroutineControl) {
        coroutine_ctrl.resume(event_loop);
    }

    fn ready(&mut self, event_loop: &mut EventLoop, coroutine_ctrl: CoroutineControl) {
        coroutine_ctrl.drop(event_loop);
    }

    fn tick(&mut self, _event_loop: &mut EventLoop) {}

    fn timeout(&mut self) -> Option<u64> {
        None
    }
}

#[test]
fn scheduler_kill_on_drop() {
    let config = Config::new().set_scheduler(KillReady);
    let (started_ok, started_copy) = flag();
    let (finished_ok, finished_copy) = flag();
    let mut asleep = None;
    start(&mut Mioco::new_configured(config), Box::new(move |world, tid| {
        started_copy.set(true);
        if !world.sleep(tid, &mut asleep, 1000) {
            return Flow::Switch;
        }
        finished_copy.set(true);
        Flow::Done
    }));
    assert!(started_ok.get());
    assert!(!finished_ok.get());
}

/// Resumes everything at once, and expects that what is made ready has yielded.
struct Eager;

struct EagerThread;

impl Scheduler for Eager {
    type Thread = EagerThread;

    fn spawn_thread(&self) -> EagerThread {
        EagerThread
    }
}

impl SchedulerThread for EagerThread {
    fn spawned(&mut self, event_loop: &mut EventLoop, coroutine_ctrl: CoroutineControl) {
        assert!(!coroutine_ctrl.is_yielding());
        coroutine_ctrl.resume(event_loop);
    }

    fn ready(&mut self, event_loop: &mut EventLoop, coroutine_ctrl: CoroutineControl) {
        assert!(coroutine_ctrl.is_yielding());
        coroutine_ctrl.resume(event_loop);
    }

    fn tick(&mut self, _event_loop: &mut EventLoop) {}

    fn timeout(&mut self) -> Option<u64> {
        None
    }
}

#[test]
fn simple_yield() {
    for &threads in THREADS_N.iter() {
        let (finished_ok, finished_copy) = flag();
        let mut config = Config::new().set_scheduler(Eager);
        config.set_thread_num(threads);
        let mut yielded = 0;
        start(&mut Mioco::new_configured(config), Box::new(move |world, tid| {
            if yielded < 10000 {
                yielded += 1;
                return world.yield_now(tid);
            }
            finished_copy.set(true);
            Flow::Done
        }));
        assert!(finished_ok.get());
    }
}

#[test]
fn spawn_as_start() {
    let outside = CurrentCoroutine::new();
    assert_eq!(spawn(&outside), SpawnIn::NewInstance);
    let (finished_ok, finished_copy) = flag();
    let (mioco, started) = mioco::start();
    start_instance(&mioco, started, Box::new(move |_, _| {
        finished_copy.set(true);
        Flow::Done
    }));
    assert!(finished_ok.get());
}

#[test]
fn million_coroutines() {
    let mut config = Config::new();
    config.set_stack_size(1024 * 16).set_stack_protection(false);
    config.event_loop().timer_wheel_size(1024 * 256);
    let (finished_ok, finished_copy) = flag();
    let mut rounds = 0;
    start(&mut Mioco::new_configured(config), Box::new(move |world, tid| {
        if rounds < 250 {
            rounds += 1;
            for _ in 0..1000 {
                let mut asleep = None;
                world.spawn(tid, Box::new(move |world, tid| {
                    if world.sleep(tid, &mut asleep, 5000) {
                        Flow::Done
                    } else {
                        Flow::Switch
                    }
                }));
            }
            return world.yield_now(tid);
        }
        finished_copy.set(true);
        Flow::Done
    }));
    assert!(finished_ok.get());
}

#[test]
fn simple_rwlock() {
    for &threads in THREADS_N.iter() {
        let counter = Arc::new(mioco::sync::RwLock::new(0usize));
        let copy_counter = counter.clone();
        let mut spawned = false;
        let mut asleep = None;
        start_threads(threads, Box::new(move |world, tid| {
            if !spawned {
                spawned = true;
                for _ in 0..(threads * 4) {
                    let counter = copy_counter.clone();
                    let mut waits = true;
                    let mut asleep: Option<Timer> = None;
                    world.spawn(tid, Box::new(move |world, tid| {
                        while waits {
                            if asleep.is_none() {
                                match counter.read(world.current(tid)) {
                                    LockStep::Return(counter) => {
                                        if *counter.unwrap() != 0 {
                                            waits = false;
                                            break;
                                        }
                                    }
                                    LockStep::Yield => return world.yield_now(tid),
                                    LockStep::Native => unreachable!(),
                                }
                            }
                            if !world.sleep(tid, &mut asleep, 10) {
                                return Flow::Switch;
                            }
                        }
                        match counter.write(world.current(tid)) {
                            LockStep::Return(counter) => {
                                let mut counter = counter.unwrap();
                                *counter = *counter + 1;
                            }
                            LockStep::Yield => return world.yield_now(tid),
                            LockStep::Native => unreachable!(),
                        }
                        Flow::Done
                    }));
                }
            }
            if !world.sleep(tid, &mut asleep, 200) {
                return Flow::Switch;
            }
            match copy_counter.write(world.current(tid)) {
                LockStep::Return(counter) => *counter.unwrap() = 1,
                LockStep::Yield => panic!("nobody holds the lock across a switch"),
                LockStep::Native => unreachable!(),
            }
            Flow::Done
        }));
        assert_eq!(*counter.native_lock().read().unwrap(), (threads * 4) + 1);
    }
}

#[test]
fn simple_mutex() {
    for &threads in THREADS_N.iter() {
        let counter = Arc::new(mioco::sync::Mutex::new(0usize));
        let copy_counter = counter.clone();
        let mut spawned = false;
        let mut asleep = None;
        start_threads(threads, Box::new(move |world, tid| {
            if !spawned {
                spawned = true;
                for _ in 0..(threads * 4) {
                    let counter = copy_counter.clone();
                    let mut waits = true;
                    let mut asleep: Option<Timer> = None;
                    world.spawn(tid, Box::new(move |world, tid| {
                        while waits {
                            if asleep.is_none() {
                                match counter.lock(world.current(tid)) {
                                    LockStep::Return(counter) => {
                                        if *counter.unwrap() != 0 {
                                            waits = false;
                                            break;
                                        }
                                    }
                                    LockStep::Yield => return world.yield_now(tid),
                                    LockStep::Native => unreachable!(),
                                }
                            }
                            if !world.sleep(tid, &mut asleep, 10) {
                                return Flow::Switch;
                            }
                        }
                        match counter.lock(world.current(tid)) {
                            LockStep::Return(counter) => {
                                let mut counter = counter.unwrap();
                                *counter = *counter + 1;
                            }
                            LockStep::Yield => return world.yield_now(tid),
                            LockStep::Native => unreachable!(),
                        }
                        Flow::Done
                    }));
                }
            }
            if !world.sleep(tid, &mut asleep, 200) {
                return Flow::Switch;
            }
            match copy_counter.lock(world.current(tid)) {
                LockStep::Return(counter) => *counter.unwrap() = 1,
                LockStep::Yield => panic!("nobody holds the lock across a switch"),
                LockStep::Native => unreachable!(),
            }
            Flow::Done
        }));
        assert_eq!(*counter.native_lock().lock().unwrap(), (threads * 4) + 1);
    }
}

/// Runs `body`, which does not block, and makes sure that it was run.
fn once(threads: usize, body: fn(&mut World<Fifo>, usize, Rc<Cell<usize>>)) -> usize {
    let ran = Rc::new(Cell::new(0));
    let ran_copy = ran.clone();
    start_threads(threads, Box::new(move |world, tid| {
        ran_copy.set(ran_copy.get() + 1);
        body(world, tid, ran_copy.clone());
        Flow::Done
    }));
    ran.get()
}

fn got(world: &World<Fifo>, tid: usize, type_id: u64) -> Option<u64> {
    get_userdata(world.current(tid), &world.table, type_id)
}

fn set(world: &mut World<Fifo>, tid: usize, value: u64) {
    set_userdata(&world.threads[tid].current, &mut world.table, u32_data(value));
}

fn set_children(world: &mut World<Fifo>, tid: usize, data: Option<UserData>) {
    set_children_userdata(&world.threads[tid].current, &mut world.table, data);
}

#[test]
fn simple_userdata() {
    for &threads in THREADS_N.iter() {
        let ran = once(threads, |world, tid, _| {
            set(world, tid, 42);
            assert_eq!(got(world, tid, U32), Some(42));
        });
        assert_eq!(ran, 1);
    }
}

#[test]
fn userdata_wrong_type() {
    for &threads in THREADS_N.iter() {
        let ran = once(threads, |world, tid, _| {
            set(world, tid, 42);
            assert_eq!(got(world, tid, I32), None);
        });
        assert_eq!(ran, 1);
    }
}

/// Expects user data of everything that is spawned, and kills it.
struct ExpectData;

impl Scheduler for ExpectData {
    type Thread = KillSpawnedThread;

    fn spawn_thread(&self) -> KillSpawnedThread {
        KillSpawnedThread { expected: Some(42) }
    }
}

#[test]
fn userdata_scheduler() {
    let mut config = Config::new();
    config.set_userdata(u32_data(42));
    let config = config.set_scheduler(ExpectData);
    let (finished_ok, finished_copy) = flag();
    let world = start(&mut Mioco::new_configured(config), Box::new(move |_, _| {
        finished_copy.set(true);
        Flow::Done
    }));
    assert!(!finished_ok.get());
    assert_eq!(world.killed, 1);
}

#[test]
fn simple_userdata_inheritance() {
    for &threads in THREADS_N.iter() {
        let ran = once(threads, |world, tid, ran| {
            set_children(world, tid, Some(u32_data(42)));
            world.spawn(tid, Box::new(move |world, tid| {
                assert_eq!(got(world, tid, U32), Some(42));
                ran.set(ran.get() + 1);
                Flow::Done
            }));
        });
        assert_eq!(ran, 2);
    }
}

#[test]
fn no_userdata_inheritance() {
    for &threads in THREADS_N.iter() {
        let ran = once(threads, |world, tid, ran| {
            world.spawn(tid, Box::new(move |world, tid| {
                assert_eq!(got(world, tid, U32), None);
                ran.set(ran.get() + 1);
                Flow::Done
            }));
        });
        assert_eq!(ran, 2);
    }
}

#[test]
fn userdata_multi_inheritance() {
    for &threads in THREADS_N.iter() {
        let ran = once(threads, |world, tid, ran| {
            set_children(world, tid, Some(u32_data(42)));
            world.spawn(tid, Box::new(move |world, tid| {
                let ran = ran.clone();
                world.spawn(tid, Box::new(move |world, tid| {
                    assert_eq!(got(world, tid, U32), Some(42));
                    ran.set(ran.get() + 1);
                    Flow::Done
                }));
                Flow::Done
            }));
        });
        assert_eq!(ran, 2);
    }
}

#[test]
fn userdata_inheritance_reset() {
    for &threads in THREADS_N.iter() {
        let ran = once(threads, |world, tid, ran| {
            set_children(world, tid, Some(u32_data(42)));
            world.spawn(tid, Box::new(move |world, tid| {
                set_children(world, tid, None);
                let ran = ran.clone();
                world.spawn(tid, Box::new(move |world, tid| {
                    assert_eq!(got(world, tid, U32), None);
                    ran.set(ran.get() + 1);
                    Flow::Done
                }));
                Flow::Done
            }));
        });
        assert_eq!(ran, 2);
    }
}

#[test]
fn userdata_no_reference_invalidation() {
    for &threads in THREADS_N.iter() {
        let ran = once(threads, |world, tid, _| {
            set(world, tid, 42);
            let reference = got(world, tid, U32).unwrap();
            set(world, tid, 41);
            assert_eq!(reference, 42);
            assert_eq!(got(world, tid, U32), Some(41));
        });
        assert_eq!(ran, 1);
    }
}

/// Sends 0 to 9, and expects each back before the next.
fn ping(tx: Sender, rx: Receiver, finished: Rc<Cell<bool>>) -> Body<Fifo> {
    let mut rx = rx;
    let mut i = 0;
    let mut sent = false;
    Box::new(move |world, tid| loop {
        if i == 10 {
            finished.set(true);
            return Flow::Done;
        }
        if !sent {
            sent = true;
            world.send(&tx, i).unwrap();
        }
        match world.recv(tid, &mut rx) {
            None => return Flow::Switch,
            Some(res) => assert_eq!(res.unwrap(), i),
        }
        sent = false;
        i += 1;
    })
}

/// Expects 0 to 9, and sends each back.
fn pong(tx: Sender, rx: Receiver, finished: Rc<Cell<bool>>) -> Body<Fifo> {
    let mut rx = rx;
    let mut i = 0;
    Box::new(move |world, tid| loop {
        if i == 10 {
            finished.set(true);
            return Flow::Done;
        }
        match world.recv(tid, &mut rx) {
            None => return Flow::Switch,
            Some(res) => assert_eq!(res.unwrap(), i),
        }
        world.send(&tx, i).unwrap();
        i += 1;
    })
}

#[test]
fn mpsc_inside_inside() {
    for &threads in THREADS_N.iter() {
        let (finished_ok1, finished_copy1) = flag();
        let (finished_ok2, finished_copy2) = flag();
        start_threads(threads, Box::new(move |world, tid| {
            let (tx1, rx1) = world.channel();
            let (tx2, rx2) = world.channel();
            world.spawn(tid, ping(tx1, rx2, finished_copy1.clone()));
            world.spawn(tid, pong(tx2, rx1, finished_copy2.clone()));
            Flow::Done
        }));
        assert!(finished_ok1.get());
        assert!(finished_ok2.get());
    }
}

#[test]
fn mpsc_inside_outside() {
    let (finished_ok, finished_copy) = flag();
    let outside_done = Rc::new(Cell::new(0));
    let outside_copy = outside_done.clone();
    let (mioco, started) = mioco::start();
    start_instance(&mioco, started, Box::new(move |world, tid| {
        let (tx1, rx1) = world.channel();
        let (tx2, rx2) = world.channel();
        world.spawn(tid, ping(tx1, rx2, finished_copy.clone()));
        world.jobs.push_back(native_pong(tx2, rx1, 0, outside_copy.clone()));
        Flow::Done
    }));
    assert!(finished_ok.get());
    assert_eq!(outside_done.get(), 10);
}

/// Expects `i` to 9 on a native thread, and sends each back.
fn native_pong(
    tx: Sender,
    rx: Receiver,
    i: u64,
    done: Rc<Cell<u64>>,
) -> Box<dyn FnOnce(&mut World<Fifo>)> {
    Box::new(move |world| {
        let outside = CurrentCoroutine::new();
        let mut i = i;
        while i < 10 {
            match rx.recv(&outside, world.numbers.get_mut(&rx.key()).unwrap()) {
                RecvStep::Return(res) => {
                    assert_eq!(res.unwrap(), i);
                    world.send(&tx, i).unwrap();
                    i += 1;
                    done.set(i);
                }
                RecvStep::Wait => {
                    world.jobs.push_back(native_pong(tx, rx, i, done));
                    return;
                }
                RecvStep::Block(_) => unreachable!(),
            }
        }
    })
}

#[test]
fn mpsc_outside_outside() {
    let outside = CurrentCoroutine::new();
    let (tx1, rx1, mut channel1) = mioco::sync::mpsc::channel::<u64>(1);
    let (tx2, rx2, mut channel2) = mioco::sync::mpsc::channel::<u64>(2);
    for i in 0..10 {
        assert!(matches!(rx1.recv(&outside, &mut channel1), RecvStep::Wait));
        assert!(tx1.send(&mut channel1, i).unwrap().is_none());
        assert!(matches!(rx2.recv(&outside, &mut channel2), RecvStep::Wait));
        match rx1.recv(&outside, &mut channel1) {
            RecvStep::Return(res) => assert_eq!(res.unwrap(), i),
            _ => unreachable!(),
        }
        assert!(tx2.send(&mut channel2, i).unwrap().is_none());
        match rx2.recv(&outside, &mut channel2) {
            RecvStep::Return(res) => assert_eq!(res.unwrap(), i),
            _ => unreachable!(),
        }
    }
}

#[test]
fn simple_shutdown() {
    for &threads in THREADS_N.iter() {
        let mut yielded = 0;
        let mut spawned = false;
        let world = start_threads(threads, Box::new(move |world, tid| {
            if !spawned {
                spawned = true;
                for _ in 0..1024 {
                    world.spawn(tid, Box::new(|world, tid| world.yield_now(tid)));
                }
            }
            if yielded == 16 {
                let requests = {
                    let thread = &world.threads[tid];
                    assert_eq!(
                        thread_num(
                            &thread.current,
                            thread.handler.shared(),
                            &world.thread_shared
                        ),
                        threads
                    );
                    shutdown(&thread.current, thread.handler.shared())
                };
                assert_eq!(requests.len(), threads);
                world.requests(tid, requests);
            }
            yielded += 1;
            world.yield_now(tid)
        }));
        assert_eq!(world.killed, 1024 + 1);
        assert!(world.bodies.is_empty());
    }
}
