use mioco::coroutine::{Config as CoroutineConfig, State, UserData};
use mioco::event::{token_from_ids, token_to_ids, EventSet, Token, EVENT_SOURCE_TOKEN_MASK};
use mioco::evented::{io_step, EventSourceCommon, EventedImpl, IoStep, RcEventSource};
use mioco::mail::{mailbox, MailStep};
use mioco::message::{
    tl_current_coroutine_ptr, tl_current_coroutine_ptr_restore, tl_current_coroutine_ptr_save,
    CurrentCoroutine, MioSender, Wakeup,
};
use mioco::retry::{sender_retry, RetryPanic, RetryStep, SendOutcome, SenderRetry};
use mioco::sched::{round_robin, FifoScheduler};
use mioco::sync::mpsc::{channel, sync_channel, RecvStep, SendStep, TryRecvError};
use mioco::sync::{
    lock_step, Condvar, CondvarCore, CondvarShared, LockStep, Mutex, PoisonError, RwLock,
    TryLockError, WakeOne,
};
use mioco::table::CoroutineTable;
use mioco::tcp::{connect, connected, ConnectStep};
use mioco::thread::{HandlerShared, HandlerThreadShared};
use mioco::timer::{sleep, Instant, ReadStep, Timer, TimerCore, TimerStep};
use mioco::{Config, Event, EventSourceId, ExitStatus, MioAdapter, Mioco, Scheduler, RW};

const INSIDE: CurrentCoroutine = CurrentCoroutine { co: Some(3) };
const OUTSIDE: CurrentCoroutine = CurrentCoroutine { co: None };
const THREAD_2: MioSender = MioSender { thread_id: 2 };
const READABLE: EventSet = EventSet { readable: true, writable: false, hup: false };

#[test]
fn directions() {
    assert!(RW::read().has_read() && !RW::read().has_write());
    assert!(!RW::write().has_read() && RW::write().has_write());
    assert!(RW::both().has_read() && RW::both().has_write());
    assert!(!RW::none().has_read() && !RW::none().has_write());
    let event = Event { id: EventSourceId::new(4), rw: RW::write() };
    assert_eq!(event.id().as_usize(), 4);
    assert!(!event.has_read());
    assert!(event.has_write());
}

#[test]
fn tokens_encode_coroutine_and_source() {
    assert_eq!(token_from_ids(5, EventSourceId::new(3)), Token(5 * 1024 + 3));
    assert_eq!(token_to_ids(Token(5 * 1024 + 3)), (5, EventSourceId::new(3)));
    assert_eq!(token_from_ids(0, EventSourceId::new(0)), Token(0));
    let last = EventSourceId::new(EVENT_SOURCE_TOKEN_MASK);
    assert_eq!(token_to_ids(token_from_ids(77, last)), (77, last));
    assert_eq!(token_to_ids(Token(usize::MAX)), (usize::MAX / 1024, last));
}

#[test]
fn current_coroutine_is_saved_and_restored() {
    let mut current = CurrentCoroutine::new();
    assert_eq!(tl_current_coroutine_ptr(&current), None);
    assert_eq!(tl_current_coroutine_ptr_save(&mut current, Some(7)), None);
    assert_eq!(tl_current_coroutine_ptr(&current), Some(7));
    assert_eq!(tl_current_coroutine_ptr(&current), Some(7));
    assert_eq!(tl_current_coroutine_ptr_save(&mut current, Some(8)), Some(7));
    assert_eq!(tl_current_coroutine_ptr(&CurrentCoroutine::new()), None);
    tl_current_coroutine_ptr_restore(&mut current, Some(7));
    assert_eq!(mioco::api::tl_current_coroutine(&current), 7);
    tl_current_coroutine_ptr_restore(&mut current, None);
    assert_eq!(tl_current_coroutine_ptr(&current), None);
}

#[test]
fn registration_asks_for_what_is_waited_for() {
    let mut source = RcEventSource::new(9u8);
    *source.io_mut() = 10;
    assert_eq!(*source.io_ref(), 10);
    *source.common_mut() = EventSourceCommon {
        id: Some(EventSourceId::new(2)),
        blocked_on: RW::both(),
        peer_hup: false,
    };
    let all = EventSet { readable: true, writable: true, hup: true };
    assert_eq!(source.register(6), (Token(6 * 1024 + 2), all));
    source.hup();
    let write_only = EventSet { readable: false, writable: true, hup: false };
    assert_eq!(source.reregister(6), (Token(6 * 1024 + 2), write_only));
    assert_eq!(source.deregister(6), Token(6 * 1024 + 2));
    assert_eq!(source.to_trait(31).0.io, 31);
}

#[test]
fn blocking_operations_block_only_when_they_would() {
    assert!(matches!(io_step::<u8, u8>(Ok(None), RW::write()), IoStep::Block(rw) if rw == RW::write()));
    assert!(matches!(io_step::<u8, u8>(Ok(Some(4)), RW::read()), IoStep::Return(Ok(4))));
    assert!(matches!(io_step::<u8, u8>(Err(5), RW::read()), IoStep::Return(Err(5))));
    let adapter = MioAdapter::new(1u8);
    assert!(matches!(adapter.write::<u8, u8>(Ok(None)), IoStep::Block(rw) if rw == RW::write()));
    assert!(matches!(adapter.accept::<u8, u8>(Ok(None)), IoStep::Block(rw) if rw == RW::read()));
    match adapter.accept::<u8, u8>(Ok(Some(8))) {
        IoStep::Return(Ok(accepted)) => assert_eq!(*accepted.shared().io_ref(), 8),
        _ => unreachable!(),
    }
    assert!(matches!(adapter.accept::<u8, u8>(Err(2)), IoStep::Return(Err(2))));
    assert!(matches!(adapter.try_accept::<u8, u8>(Ok(None)), Ok(None)));
    assert!(matches!(adapter.try_accept::<u8, u8>(Err(2)), Err(2)));
}

#[test]
fn connecting_waits_for_the_stream_and_its_error() {
    match connect::<u8, &str>(Ok(4)) {
        ConnectStep::Block(stream, rw) => {
            assert!(rw == RW::write());
            let stream = connected::<u8, &str>(stream, Ok(())).unwrap();
            assert_eq!(*stream.shared().io_ref(), 4);
            assert!(matches!(connected(stream, Err("refused")), Err("refused")));
        }
        ConnectStep::Fail(_) => unreachable!(),
    }
    assert!(matches!(connect::<u8, &str>(Err("no route")), ConnectStep::Fail("no route")));
}

#[test]
fn sending_is_retried_a_bounded_number_of_times() {
    let mut retry = SenderRetry::new();
    for i in 0..20000 {
        let step = sender_retry(&mut retry, SendOutcome::Full);
        assert_eq!(step, RetryStep::Retry { warn: i == 0 });
    }
    assert_eq!(sender_retry(&mut retry, SendOutcome::Full), RetryStep::Panic(RetryPanic::QueueFull));
    assert_eq!(retry.counter, 20001);
    let mut retry = SenderRetry::new();
    assert_eq!(sender_retry(&mut retry, SendOutcome::Closed), RetryStep::Panic(RetryPanic::Closed));
    assert_eq!(sender_retry(&mut retry, SendOutcome::Io), RetryStep::Panic(RetryPanic::Io));
    assert_eq!(sender_retry(&mut retry, SendOutcome::Sent), RetryStep::Done);
    assert_eq!(retry, SenderRetry::new());
}

#[test]
fn channel_is_a_queue() {
    let (sender, receiver, mut state) = channel(1);
    for i in 0..5 {
        assert!(sender.send(&mut state, i).unwrap().is_none());
    }
    for i in 0..5 {
        assert_eq!(receiver.try_recv(&mut state), Ok(i));
    }
    assert_eq!(receiver.try_recv(&mut state), Err(TryRecvError::Empty));
    assert!(matches!(receiver.recv(&INSIDE, &mut state), RecvStep::Block(rw) if rw == RW::read()));
    assert!(matches!(receiver.recv(&OUTSIDE, &mut state), RecvStep::Wait));
}

#[test]
fn channel_disconnects_after_the_last_item() {
    let (sender, receiver, mut state) = channel(1);
    let other = sender.clone(&mut state);
    sender.send(&mut state, 8).unwrap();
    assert!(sender.drop(&mut state).is_none());
    other.send(&mut state, 9).unwrap();
    assert!(other.drop(&mut state).is_none());
    assert_eq!(receiver.try_recv(&mut state), Ok(8));
    assert_eq!(receiver.try_recv(&mut state), Ok(9));
    assert_eq!(receiver.try_recv(&mut state), Err(TryRecvError::Disconnected));
    assert!(matches!(receiver.recv(&INSIDE, &mut state), RecvStep::Return(Err(_))));
    assert!(matches!(receiver.recv(&OUTSIDE, &mut state), RecvStep::Return(Err(_))));
}

#[test]
fn blocked_receiver_is_notified_once() {
    let (sender, receiver, mut state) = channel(1);
    let raw = *receiver.shared().io_ref();
    assert!(receiver.empty_shared_token(&state));
    assert!(!raw.register(&mut state, THREAD_2, Token(1025), READABLE));
    assert!(!receiver.empty_shared_token(&state));
    let wakeup = Wakeup { to: THREAD_2, token: Token(1025) };
    assert_eq!(sender.send(&mut state, 1).unwrap(), Some(wakeup));
    assert_eq!(sender.send(&mut state, 2).unwrap(), None);
    raw.deregister(&mut state);
    assert!(receiver.empty_shared_token(&state));
    // there is something to receive, so there is no reason to block
    assert!(raw.register(&mut state, THREAD_2, Token(1025), READABLE));
    assert_eq!(receiver.try_recv(&mut state), Ok(1));
    assert_eq!(receiver.try_recv(&mut state), Ok(2));
    assert!(!raw.register(&mut state, THREAD_2, Token(1025), READABLE));
    assert!(!raw.reregister(&mut state, READABLE));
    // the end of the last sender is worth a notification too
    assert_eq!(sender.drop(&mut state), Some(wakeup));
    assert!(raw.reregister(&mut state, READABLE));
}

#[test]
fn native_threads_and_coroutines_share_one_queue() {
    let (sender, receiver, mut state) = channel(1);
    for t in 1..5 {
        sender.send(&mut state, t).unwrap();
    }
    assert!(matches!(receiver.recv(&OUTSIDE, &mut state), RecvStep::Return(Ok(1))));
    assert!(matches!(receiver.recv(&INSIDE, &mut state), RecvStep::Return(Ok(2))));
    sender.drop(&mut state);
    assert!(matches!(receiver.recv(&OUTSIDE, &mut state), RecvStep::Return(Ok(3))));
    assert_eq!(receiver.try_recv(&mut state), Ok(4));
    assert!(matches!(receiver.recv(&OUTSIDE, &mut state), RecvStep::Return(Err(_))));
    assert!(matches!(receiver.recv(&INSIDE, &mut state), RecvStep::Return(Err(_))));
}

#[test]
fn native_receivers_leave_the_count_alone() {
    let (sender, receiver, mut state) = channel(1);
    sender.send(&mut state, 1).unwrap();
    assert!(matches!(receiver.recv(&OUTSIDE, &mut state), RecvStep::Return(Ok(1))));
    let raw = *receiver.shared().io_ref();
    assert!(raw.register(&mut state, THREAD_2, Token(1025), READABLE));
}

#[test]
fn nothing_can_be_sent_without_a_receiver() {
    let (sender, receiver, mut state) = channel(1);
    receiver.drop(&mut state);
    assert_eq!(sender.send(&mut state, 5).unwrap_err().0, 5);
    let (sender, receiver, mut state) = sync_channel(2, 1);
    receiver.drop(&mut state);
    assert!(matches!(sender.send(&mut state, 6), SendStep::Disconnected(err) if err.0 == 6));
}

#[test]
fn bounded_channel_has_room_for_its_bound() {
    let (sender, receiver, mut state) = sync_channel(1, 2);
    assert!(matches!(sender.send(&mut state, 1), SendStep::Sent(None)));
    assert!(matches!(sender.send(&mut state, 2), SendStep::Sent(None)));
    assert!(matches!(sender.send(&mut state, 3), SendStep::Full(3)));
    assert_eq!(receiver.try_recv(&mut state), Ok(1));
    assert!(matches!(sender.send(&mut state, 3), SendStep::Sent(None)));
    assert!(sender.drop(&mut state).is_none());
    assert_eq!(receiver.try_recv(&mut state), Ok(2));
    assert_eq!(receiver.try_recv(&mut state), Ok(3));
    assert_eq!(receiver.try_recv(&mut state), Err(TryRecvError::Disconnected));
}

#[test]
fn channel_without_capacity_hands_over() {
    let (sender, receiver, mut state) = sync_channel(1, 0);
    assert!(matches!(sender.send(&mut state, 1), SendStep::Full(1)));
    assert!(matches!(receiver.recv(&OUTSIDE, &mut state), RecvStep::Wait));
    assert!(matches!(sender.send(&mut state, 1), SendStep::Sent(None)));
    assert!(matches!(sender.send(&mut state, 2), SendStep::Full(2)));
    assert!(matches!(receiver.recv(&OUTSIDE, &mut state), RecvStep::Return(Ok(1))));
    assert!(matches!(sender.send(&mut state, 2), SendStep::Full(2)));
    // a coroutine waits for an item too
    assert!(matches!(receiver.recv(&INSIDE, &mut state), RecvStep::Block(rw) if rw == RW::read()));
    assert!(matches!(sender.send(&mut state, 3), SendStep::Sent(None)));
    assert!(matches!(sender.send(&mut state, 4), SendStep::Full(4)));
    assert!(matches!(receiver.recv(&INSIDE, &mut state), RecvStep::Return(Ok(3))));
    assert!(matches!(sender.send(&mut state, 4), SendStep::Full(4)));
    assert_eq!(receiver.try_recv(&mut state), Err(TryRecvError::Empty));
    assert!(matches!(sender.send(&mut state, 5), SendStep::Sent(None)));
    assert_eq!(receiver.try_recv(&mut state), Ok(5));
}

#[test]
fn mailbox_can_be_reregistered_before_it_is_registered() {
    let (outer, inner, mut state) = mailbox(4);
    let raw = *inner.shared().io_ref();
    let write_only = EventSet { readable: false, writable: true, hup: false };
    assert_eq!(raw.reregister(&mut state, Token(1024), write_only), None);
    assert_eq!(outer.send(&mut state, 'a'), None);
    assert_eq!(raw.reregister(&mut state, Token(1024), write_only), None);
    assert_eq!(inner.try_read(&mut state), Some('a'));
}

#[test]
fn mailbox_is_a_queue_that_notifies() {
    let (outer, inner, mut state) = mailbox(4);
    let raw = *inner.shared().io_ref();
    assert!(outer.send(&mut state, 'a').is_none());
    assert!(raw.should_resume(&state));
    let wakeup = Wakeup { to: THREAD_2, token: Token(1024) };
    // there is mail already
    assert_eq!(raw.register(&mut state, THREAD_2, Token(1024), READABLE), Some(wakeup));
    assert!(outer.clone().send(&mut state, 'b').is_none());
    assert!(matches!(inner.read(&mut state), MailStep::Return('a')));
    assert_eq!(inner.try_read(&mut state), Some('b'));
    assert_eq!(inner.try_read(&mut state), None);
    assert!(matches!(inner.read(&mut state), MailStep::Block(rw) if rw == RW::read()));
    assert!(!raw.should_resume(&state));
    assert_eq!(raw.reregister(&mut state, Token(1024), READABLE), None);
    assert_eq!(outer.send(&mut state, 'c'), Some(wakeup));
    assert_eq!(raw.reregister(&mut state, Token(1024), READABLE), Some(wakeup));
    raw.deregister(&mut state);
    assert_eq!(outer.send(&mut state, 'd'), None);
}

#[test]
fn timers_are_done_from_their_timeout_on() {
    let start = Instant { secs: 10, nanos: 999_500_000 };
    let mut timer = Timer::new(start);
    assert_eq!(timer.try_read(start), Some(start));
    timer.set_timeout(start, 1500);
    let timeout = Instant { secs: 12, nanos: 499_500_000 };
    assert_eq!(timer.get_timeout_absolute(), timeout);
    let before = Instant { secs: 12, nanos: 499_499_999 };
    assert_eq!(timer.try_read(before), None);
    assert!(matches!(timer.read(before), ReadStep::Block(rw) if rw == RW::read()));
    assert!(matches!(timer.read(timeout), ReadStep::Done(now) if now == timeout));
    timer.set_timeout_absolute(start);
    assert_eq!(timer.try_read(before), Some(before));
}

#[test]
fn timers_wait_whole_milliseconds() {
    let mut raw = TimerCore { timeout: Instant { secs: 12, nanos: 1 }, mio_timeout: None };
    let token = Token(1024);
    let now = Instant { secs: 10, nanos: 500_000_000 };
    // 1.500000001 s are left
    let step = TimerStep::Timeout { token, delay_ms: 1500 };
    assert_eq!(raw.register(&now, token), step);
    assert_eq!(raw.deregister(), None);
    raw.timeout_set(77);
    assert_eq!(raw.reregister(&now, token), (Some(77), step));
    assert_eq!(raw.deregister(), Some(77));
    let late = Instant { secs: 12, nanos: 1 };
    assert_eq!(raw.register(&late, token), TimerStep::Ready);
    let almost = Instant { secs: 11, nanos: 999_999_999 };
    assert_eq!(raw.register(&almost, token), TimerStep::Timeout { token, delay_ms: 0 });
}

#[test]
fn sleeping_for_no_time_is_over_at_once() {
    let now = Instant { secs: 3, nanos: 7 };
    assert_eq!(sleep(now, -5).try_read(now), Some(now));
    assert_eq!(sleep(now, 0).try_read(now), Some(now));
    assert_eq!(sleep(now, 1).try_read(now), None);
    assert_eq!(sleep(now, 2000).get_timeout_absolute(), Instant { secs: 5, nanos: 7 });
}

#[test]
fn locks_make_coroutines_yield() {
    let mutex = Mutex::new(5);
    let guard = match mutex.lock(&INSIDE) {
        LockStep::Return(Ok(guard)) => guard,
        _ => unreachable!(),
    };
    assert_eq!(*guard, 5);
    assert!(matches!(mutex.lock(&INSIDE), LockStep::Yield));
    assert!(matches!(mutex.try_lock(), Err(TryLockError::WouldBlock)));
    assert!(matches!(mutex.lock(&OUTSIDE), LockStep::Native));
    drop(guard);
    assert!(matches!(mutex.lock(&INSIDE), LockStep::Return(Ok(_))));
    assert_eq!(*mutex.native_lock().lock().unwrap(), 5);
}

#[test]
fn rwlocks_are_shared_by_readers() {
    let lock = RwLock::new(1);
    assert!(!lock.is_poisoned());
    {
        let first = lock.try_read().unwrap_or_else(|_| unreachable!());
        assert!(matches!(lock.read(&INSIDE), LockStep::Return(Ok(second)) if *second == *first));
        assert!(matches!(lock.write(&INSIDE), LockStep::Yield));
        assert!(matches!(lock.try_write(), Err(TryLockError::WouldBlock)));
        assert!(matches!(lock.read(&OUTSIDE), LockStep::Native));
        assert!(matches!(lock.write(&OUTSIDE), LockStep::Native));
    }
    match lock.write(&INSIDE) {
        LockStep::Return(Ok(mut guard)) => *guard = 2,
        _ => unreachable!(),
    }
    assert_eq!(*lock.native_lock().read().unwrap(), 2);
}

#[test]
fn poisoned_locks_are_handed_out() {
    let poisoned = Err(TryLockError::Poisoned(PoisonError(4)));
    assert!(matches!(lock_step(poisoned), LockStep::Return(Err(PoisonError(4)))));
    assert!(matches!(lock_step::<u8>(Err(TryLockError::WouldBlock)), LockStep::Yield));
    assert!(matches!(lock_step(Ok(3)), LockStep::Return(Ok(3))));
}

#[test]
fn condvar_wakes_who_sleeps_longest() {
    let mut shared = CondvarShared::new();
    let mut condvar = Condvar::new();
    assert!(condvar.wait(&shared) == RW::read());
    let raw: CondvarCore = *condvar.shared().io_ref();
    assert_eq!(raw.register(&mut shared, THREAD_2, Token(1), READABLE), None);
    // somebody has registered since the wait was started
    let first = WakeOne::Coroutine(Wakeup { to: THREAD_2, token: Token(1) });
    assert_eq!(raw.reregister(&mut shared, THREAD_2, Token(2), READABLE), Some(first));
    let second = WakeOne::Coroutine(Wakeup { to: THREAD_2, token: Token(2) });
    assert_eq!(raw.wake_one(&mut shared), second);
    assert_eq!(raw.wake_one(&mut shared), WakeOne::Native);
    assert!(condvar.wait(&shared) == RW::read());
    assert_eq!(condvar.shared().io_ref().last_counter, 2);
}

#[test]
fn threads_take_turns() {
    let mut thread_i = 1;
    let picked: Vec<usize> = (0..7).map(|_| round_robin(&mut thread_i, 3)).collect();
    assert_eq!(picked, vec![1, 2, 0, 1, 2, 0, 1]);
    // the number of threads can be found to be smaller than expected
    let mut thread_i = 5;
    assert_eq!(round_robin(&mut thread_i, 2), 5);
    assert_eq!(thread_i, 0);
}

#[test]
fn configuration_is_kept() {
    let mut config = Config::new();
    assert!(config.thread_num() >= 1);
    assert_eq!(config.thread_num(), num_cpus::get());
    config.set_thread_num(3).set_stack_size(4096).set_stack_protection(false);
    config.set_catch_panics(false).set_userdata(UserData { type_id: 1, value: 2 });
    config.event_loop().notify_capacity(77);
    let mut mioco = Mioco::new_configured(config);
    let shown = format!("{:?}", mioco.configured().event_loop_config());
    assert!(shown.contains("notify_capacity: 77"));
    assert!(shown.contains("timer_capacity: 65536"));
    let started = mioco.start();
    let threads: Vec<usize> = started.senders.iter().map(|sender| sender.thread_id).collect();
    assert_eq!(threads, vec![0, 1, 2]);
    assert_eq!(started.thread_shared.thread_num, 3);
    assert_eq!(started.thread_shared.coroutines_num, 0);
    assert_eq!(started.user_data, Some(UserData { type_id: 1, value: 2 }));
    let expected =
        CoroutineConfig { stack_size: 4096, stack_protection: false, catch_panics: false };
    assert_eq!(started.coroutine_config, expected);
    // the user data is for the first start only
    assert_eq!(mioco.start().user_data, None);
}

#[test]
fn default_configuration() {
    let expected =
        CoroutineConfig { stack_size: 2 * 1024 * 1024, stack_protection: true, catch_panics: true };
    assert_eq!(CoroutineConfig::default(), expected);
    let mut mioco = Mioco::new();
    let started = mioco.start();
    assert_eq!(started.coroutine_config, expected);
    assert_eq!(started.user_data, None);
    let _ = FifoScheduler::new().spawn_thread();
}

#[test]
fn slots_grow_when_all_are_used() {
    let senders = vec![MioSender { thread_id: 0 }, THREAD_2];
    let mut shared = HandlerShared::new(senders, CoroutineConfig::default(), 1);
    assert_eq!(shared.thread_id(), 1);
    assert_eq!(shared.sender_count(), 2);
    assert_eq!(shared.get_sender_to_own_thread(), THREAD_2);
    assert_eq!(shared.get_sender_to_thread(0), MioSender { thread_id: 0 });
    assert_eq!(shared.slots(), 512);
    let mut ids = Vec::new();
    for key in 0..600 {
        assert!(shared.can_attach());
        let id = shared.attach(1000 + key);
        assert!(id >= 1 && !ids.contains(&id));
        ids.push(id);
    }
    assert_eq!(shared.slots(), 1024);
    for (key, id) in ids.iter().enumerate() {
        assert!(shared.contains(*id));
        assert_eq!(shared.coroutine(*id), Some(1000 + key as u64));
    }
    assert!(!shared.contains(0));
    assert_eq!(shared.coroutine(0), None);
    assert_eq!(shared.coroutine(1024), None);
    assert_eq!(shared.coroutine(usize::MAX), None);
}

#[test]
fn last_coroutine_terminates_all_threads() {
    let senders = vec![MioSender { thread_id: 0 }, MioSender { thread_id: 1 }];
    let mut shared = HandlerShared::new(senders, CoroutineConfig::default(), 0);
    let mut threads = HandlerThreadShared::new(2);
    let mut table = CoroutineTable::new();
    assert!(shared.wait_for_start_all(&threads));
    let first = shared.spawn(&mut table, &mut threads, None);
    let second = shared.spawn(&mut table, &mut threads, Some(UserData { type_id: 4, value: 5 }));
    assert_eq!((first, second), (0, 1));
    shared.signal_start_all(&mut threads);
    assert!(!shared.wait_for_start_all(&threads));
    assert_eq!(shared.thread_num(&threads), 2);
    assert_eq!(threads.coroutines_num, 2);
    assert_eq!(table.get(1).unwrap().handler(), Some(0));
    assert_eq!(table.get(1).unwrap().user_data(), Some(UserData { type_id: 4, value: 5 }));
    assert_eq!(table.get(1).unwrap().state(), State::Ready);
    assert!(table.get(2).is_none());
    assert!(shared.coroutines_dec(&mut threads).is_empty());
    assert_eq!(shared.coroutines_dec(&mut threads).len(), 2);
    assert_eq!(threads.coroutines_num, 0);
}

#[test]
fn exit_status() {
    assert!(!ExitStatus::Exit.is_panic());
    assert!(ExitStatus::Panic.is_panic());
}
