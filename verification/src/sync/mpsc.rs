//! MPSC channel modeled after `std::sync::mpsc`.
//!
//! The state of a channel is one value, [`Channel`], which its ends share; each operation of an
//! end takes it as an argument. Where an operation has to wake the receiving coroutine up, it
//! returns the notification that is to be sent.

use crate::event::{EventSet, Token, RW};
use crate::evented::{EventedImpl, RcEventSource};
use crate::message::{in_coroutine, CurrentCoroutine, MioSender, Wakeup};
use std::collections::VecDeque;
use vstd::prelude::*;

verus! {

/// State shared between senders and receiver.
#[derive(Debug)]
pub struct Channel<T> {
    key: u64,
    queue: VecDeque<T>,
    /// Token of the receiver, while a coroutine is blocked on it.
    token: Option<Token>,
    /// Thread of that coroutine.
    sender: Option<MioSender>,
    /// Number of things that have happened to the channel and were not received yet.
    counter: usize,
    /// Number of sending ends.
    senders: usize,
    /// The receiving end exists.
    receiving: bool,
    /// How many items the channel holds at most.
    bound: Option<usize>,
    /// The receiving end has found nothing to receive, and waits for an item.
    parked: bool,
}

/// What a channel is, as its contracts describe it.
#[verifier::ext_equal]
pub struct ChannelView<T> {
    /// Name of the channel, by which its ends know it.
    pub key: u64,
    /// Items that were sent and not received, the oldest first.
    pub queue: Seq<T>,
    /// Token of the receiver, while a coroutine is blocked on it.
    pub token: Option<Token>,
    /// Thread of that coroutine.
    pub sender: Option<MioSender>,
    /// Number of things that have happened to the channel and were not received yet.
    pub counter: int,
    /// Number of sending ends.
    pub senders: int,
    /// The receiving end exists.
    pub receiving: bool,
    /// How many items the channel holds at most.
    pub bound: Option<usize>,
    /// The receiving end has found nothing to receive, and waits for an item.
    pub parked: bool,
}

impl<T> View for Channel<T> {
    type V = ChannelView<T>;

    closed spec fn view(&self) -> ChannelView<T> {
        ChannelView {
            key: self.key,
            queue: self.queue@,
            token: self.token,
            sender: self.sender,
            counter: self.counter as int,
            senders: self.senders as int,
            receiving: self.receiving,
            bound: self.bound,
            parked: self.parked,
        }
    }
}

impl<T> ChannelView<T> {
    /// What always holds of a channel.
    ///
    /// The counter accounts for every item in the queue, and for the end of the last sender. A
    /// registered receiver has a thread.
    pub open spec fn wf(self) -> bool {
        &&& 0 <= self.senders <= usize::MAX
        &&& self.queue.len() + self.hung_up() <= self.counter <= usize::MAX
        &&& self.token is Some ==> self.sender is Some
    }

    /// 1 if there is no sending end left, else 0.
    pub open spec fn hung_up(self) -> int {
        if self.senders == 0 {
            1
        } else {
            0
        }
    }

    /// The notification for the receiver, if it is registered.
    pub open spec fn notification(self) -> Option<Wakeup> {
        match self.token {
            Some(token) => Some(Wakeup { to: self.sender->Some_0, token }),
            None => None,
        }
    }

    /// The notification that goes out when one more thing happens to the channel: only the first
    /// thing after the receiver has taken everything is worth one.
    pub open spec fn notification_of_next(self) -> Option<Wakeup> {
        if self.counter == 0 {
            self.notification()
        } else {
            None
        }
    }

    /// The channel after `t` has been sent.
    pub open spec fn sent(self, t: T) -> ChannelView<T> {
        ChannelView { queue: self.queue.push(t), counter: self.counter + 1, ..self }
    }

    /// The channel after its oldest item has been received in a coroutine, or by an attempt that does
    /// not block.
    pub open spec fn received(self) -> ChannelView<T> {
        ChannelView {
            queue: self.queue.skip(1),
            counter: self.counter - 1,
            parked: false,
            ..self
        }
    }

    /// The channel after an attempt to receive that has found nothing.
    pub open spec fn awaited(self) -> ChannelView<T> {
        ChannelView { parked: true, ..self }
    }

    /// The channel after its oldest item has been received by a native thread that blocks until
    /// there is one, which does not touch the counter.
    pub open spec fn received_natively(self) -> ChannelView<T> {
        ChannelView { queue: self.queue.skip(1), parked: false, ..self }
    }

    /// The channel after one sending end has gone.
    pub open spec fn left(self) -> ChannelView<T> {
        ChannelView {
            senders: self.senders - 1,
            counter: if self.senders == 1 {
                self.counter + 1
            } else {
                self.counter
            },
            ..self
        }
    }

    /// The outcome of an attempt to receive.
    pub open spec fn head(self) -> Result<T, TryRecvError> {
        if self.queue.len() > 0 {
            Ok(self.queue[0])
        } else if self.senders > 0 {
            Err(TryRecvError::Empty)
        } else {
            Err(TryRecvError::Disconnected)
        }
    }

    /// The channel has room for one more item.
    ///
    /// A channel of no capacity takes an item only to hand it over to a receiving end that waits for
    /// one.
    pub open spec fn has_room(self) -> bool {
        match self.bound {
            None => true,
            Some(bound) => self.queue.len() < bound || (bound == 0 && self.parked
                && self.queue.len() == 0),
        }
    }
}

/// The receiving end is gone; the item comes back.
#[derive(Debug)]
pub struct SendError<T>(pub T);

/// The sending ends are gone, and nothing is left to receive.
#[derive(Copy, Clone, Debug, Eq, PartialEq, Structural)]
pub struct RecvError;

/// Why nothing was received.
#[derive(Copy, Clone, Debug, Eq, PartialEq, Structural)]
pub enum TryRecvError {
    /// There is nothing to receive now.
    Empty,
    /// There is nothing to receive, and there never will be.
    Disconnected,
}

/// What sending on a bounded channel comes to.
#[derive(Debug)]
pub enum SendStep<T> {
    /// The item was sent; this notification, if any, is to be sent after it.
    Sent(Option<Wakeup>),
    /// There is no room; the item comes back.
    Full(T),
    /// The receiving end is gone.
    Disconnected(SendError<T>),
}

/// What a receiver does after one attempt to receive.
#[derive(Debug)]
pub enum RecvStep<T> {
    /// Return to the caller.
    Return(Result<T, RecvError>),
    /// Block the coroutine until the channel is ready in these directions, then try again.
    Block(RW),
    /// Wait natively until something happens to the channel, then try again.
    Wait,
}

/// Channel receiving end
///
/// Create with `channel()`
#[derive(Debug)]
pub struct Receiver(RcEventSource<ReceiverCore>);

/// The raw part of a `Receiver`.
#[derive(Copy, Clone, Debug)]
pub struct ReceiverCore {
    key: u64,
}

impl ReceiverCore {
    /// Name of the channel.
    pub closed spec fn channel(self) -> u64 {
        self.key
    }

    /// The name of the channel.
    pub fn key(&self) -> (key: u64)
        ensures
            key == self.channel(),
    {
        self.key
    }

    /// Registers the coroutine that blocks on the channel.
    ///
    /// Returns true if there is no reason to block: something has happened that was not received.
    pub fn register<T>(
        &self,
        channel: &mut Channel<T>,
        sender: MioSender,
        token: Token,
        interest: EventSet,
    ) -> (ready: bool)
        requires
            self.channel() == old(channel)@.key,
            old(channel)@.wf(),
            interest.readable,
        ensures
            final(channel)@.wf(),
            ready == (old(channel)@.counter != 0),
            final(channel)@ == (ChannelView {
                token: if ready {
                    None
                } else {
                    Some(token)
                },
                sender: Some(sender),
                ..old(channel)@
            }),
    {
        channel.token = Some(token);
        channel.sender = Some(sender);

        let ready: bool = channel.counter != 0;
        if ready {
            channel.token = None;
        }
        assert(channel@ =~= ChannelView {
            token: if ready {
                None
            } else {
                Some(token)
            },
            sender: Some(sender),
            ..old(channel)@
        });
        ready
    }

    /// Looks again whether the coroutine that is registered has a reason to go on.
    pub fn reregister<T>(&self, channel: &mut Channel<T>, interest: EventSet) -> (ready: bool)
        requires
            self.channel() == old(channel)@.key,
            old(channel)@.wf(),
            interest.readable,
            old(channel)@.token is Some,
        ensures
            final(channel)@.wf(),
            ready == (old(channel)@.counter != 0),
            final(channel)@ == if ready {
                ChannelView { token: None, ..old(channel)@ }
            } else {
                old(channel)@
            },
    {
        let ready: bool = channel.counter != 0;
        if ready {
            channel.token = None;
            assert(channel@ =~= ChannelView { token: None, ..old(channel)@ });
        }
        ready
    }

    /// The coroutine does not block on the channel any more.
    pub fn deregister<T>(&self, channel: &mut Channel<T>)
        requires
            self.channel() == old(channel)@.key,
            old(channel)@.wf(),
        ensures
            final(channel)@.wf(),
            final(channel)@ == (ChannelView { token: None, sender: None, ..old(channel)@ }),
    {
        channel.token = None;
        channel.sender = None;
        assert(channel@ =~= ChannelView { token: None, sender: None, ..old(channel)@ });
    }
}

impl EventedImpl for Receiver {
    type Raw = ReceiverCore;

    closed spec fn source(&self) -> RcEventSource<ReceiverCore> {
        self.0
    }

    fn shared(&self) -> (source: &RcEventSource<ReceiverCore>) {
        &self.0
    }

    fn shared_mut(&mut self) -> (source: &mut RcEventSource<ReceiverCore>) {
        &mut self.0
    }
}

/// Channel sending end
///
/// Use this inside coroutines or outside of the instance to send data asynchronously to the
/// receiving end.
///
/// Create with `channel()`
#[derive(Debug)]
pub struct Sender {
    key: u64,
}

/// Sending end of a bounded channel
///
/// Create with `sync_channel()`
#[derive(Debug)]
pub struct SyncSender {
    key: u64,
}

impl<T> Channel<T> {
    fn new(key: u64, bound: Option<usize>) -> (made: Self)
        ensures
            made@ == new_channel::<T>(key, bound),
            made@.wf(),
    {
        let made = Channel {
            key,
            queue: VecDeque::new(),
            token: None,
            sender: None,
            counter: 0,
            senders: 1,
            receiving: true,
            bound,
            parked: false,
        };
        assert(made@ =~= new_channel::<T>(key, bound));
        made
    }

    /// Can one more item be sent, and can there be one more sending end, before numbers run out?
    pub fn can_count(&self) -> (yes: bool)
        ensures
            yes == (self@.counter < usize::MAX && self@.senders < usize::MAX),
    {
        self.counter < usize::MAX && self.senders < usize::MAX
    }

    /// Counts one more thing that has happened, and notifies the receiver if it was the first.
    fn happened(&mut self) -> (wakeup: Option<Wakeup>)
        requires
            old(self)@.counter < usize::MAX,
            old(self)@.token is Some ==> old(self)@.sender is Some,
        ensures
            final(self)@ == (ChannelView { counter: old(self)@.counter + 1, ..old(self)@ }),
            wakeup == old(self)@.notification_of_next(),
    {
        let prev_counter: usize = self.counter;
        self.counter = prev_counter + 1;
        assert(self@ =~= ChannelView { counter: old(self)@.counter + 1, ..old(self)@ });
        if prev_counter == 0 {
            maybe_notify_receiver(self)
        } else {
            None
        }
    }
}

/// The notification for the receiver, if it is registered.
fn maybe_notify_receiver<T>(channel: &Channel<T>) -> (wakeup: Option<Wakeup>)
    requires
        channel@.token is Some ==> channel@.sender is Some,
    ensures
        wakeup == channel@.notification(),
{
    match channel.token {
        Some(token) => Some(Wakeup { to: channel.sender.unwrap(), token }),
        None => None,
    }
}

/// A channel with nothing in it, one sending end and a receiving end.
pub open spec fn new_channel<T>(key: u64, bound: Option<usize>) -> ChannelView<T> {
    ChannelView {
        key,
        queue: Seq::empty(),
        token: None,
        sender: None,
        counter: 0,
        senders: 1,
        receiving: true,
        bound,
        parked: false,
    }
}

/// Create a channel
///
/// Channel can be used to deliver data via MPSC queue.
///
/// When receiving end is outside of coroutine, channel will behave just like
/// `std::sync::mpsc::channel()`.
pub fn channel<T>(key: u64) -> (made: (Sender, Receiver, Channel<T>))
    ensures
        made.0.channel() == key,
        made.1.channel() == key,
        made.1.source().common() == crate::evented::fresh_common(),
        made.2@ == new_channel::<T>(key, None),
        made.2@.wf(),
{
    (Sender { key }, Receiver::new(key), Channel::new(key, None))
}

/// Create a bounded channel
///
/// The channel holds at most `bound` items. One with a bound of zero holds none: an item goes through
/// it only while the receiving end waits for one.
pub fn sync_channel<T>(key: u64, bound: usize) -> (made: (SyncSender, Receiver, Channel<T>))
    ensures
        made.0.channel() == key,
        made.1.channel() == key,
        made.1.source().common() == crate::evented::fresh_common(),
        made.2@ == new_channel::<T>(key, Some(bound)),
        made.2@.wf(),
{
    (SyncSender { key }, Receiver::new(key), Channel::new(key, Some(bound)))
}

impl Sender {
    /// Name of the channel that this is an end of.
    pub closed spec fn channel(self) -> u64 {
        self.key
    }

    /// The name of the channel that this is an end of.
    pub fn key(&self) -> (key: u64)
        ensures
            key == self.channel(),
    {
        self.key
    }

    /// Deliver `T` to the other end of the channel.
    ///
    /// Channel behaves like a queue.
    ///
    /// This is non-blocking operation.
    pub fn send<T>(&self, channel: &mut Channel<T>, t: T) -> (sent: Result<
        Option<Wakeup>,
        SendError<T>,
    >)
        requires
            self.channel() == old(channel)@.key,
            old(channel)@.wf(),
            old(channel)@.counter < usize::MAX,
        ensures
            final(channel)@.wf(),
            old(channel)@.receiving ==> {
                &&& sent == Ok::<Option<Wakeup>, SendError<T>>(
                    old(channel)@.notification_of_next(),
                )
                &&& final(channel)@ == old(channel)@.sent(t)
            },
            !old(channel)@.receiving ==> {
                &&& sent == Err::<Option<Wakeup>, SendError<T>>(SendError(t))
                &&& final(channel)@ == old(channel)@
            },
    {
        if !channel.receiving {
            return Err(SendError(t));
        }
        channel.queue.push_back(t);
        let wakeup = channel.happened();
        assert(channel@ =~= old(channel)@.sent(t));
        Ok(wakeup)
    }

    /// One more sending end of the same channel.
    pub fn clone<T>(&self, channel: &mut Channel<T>) -> (other: Sender)
        requires
            self.channel() == old(channel)@.key,
            old(channel)@.wf(),
            0 < old(channel)@.senders < usize::MAX,
        ensures
            other.channel() == self.channel(),
            final(channel)@ == (ChannelView { senders: old(channel)@.senders + 1, ..old(channel)@ }),
            final(channel)@.wf(),
    {
        channel.senders = channel.senders + 1;
        assert(channel@ =~= ChannelView { senders: old(channel)@.senders + 1, ..old(channel)@ });
        Sender { key: self.key }
    }

    /// The end of a sending end.
    ///
    /// The end of the last one is something that happens to the channel.
    pub fn drop<T>(self, channel: &mut Channel<T>) -> (wakeup: Option<Wakeup>)
        requires
            self.channel() == old(channel)@.key,
            old(channel)@.wf(),
            0 < old(channel)@.senders,
            old(channel)@.counter < usize::MAX,
        ensures
            final(channel)@ == old(channel)@.left(),
            final(channel)@.wf(),
            wakeup == (if old(channel)@.senders == 1 {
                old(channel)@.notification_of_next()
            } else {
                None
            }),
    {
        drop_sender(channel)
    }
}

fn drop_sender<T>(channel: &mut Channel<T>) -> (wakeup: Option<Wakeup>)
    requires
        old(channel)@.wf(),
        0 < old(channel)@.senders,
        old(channel)@.counter < usize::MAX,
    ensures
        final(channel)@ == old(channel)@.left(),
        final(channel)@.wf(),
        wakeup == (if old(channel)@.senders == 1 {
            old(channel)@.notification_of_next()
        } else {
            None
        }),
{
    channel.senders = channel.senders - 1;
    let wakeup: Option<Wakeup> = if channel.senders == 0 {
        channel.happened()
    } else {
        None
    };
    assert(channel@ =~= old(channel)@.left());
    wakeup
}

impl SyncSender {
    /// Name of the channel that this is an end of.
    pub closed spec fn channel(self) -> u64 {
        self.key
    }

    /// Deliver `T` to the other end of the channel.
    ///
    /// Channel behaves like a queue.
    ///
    /// This is non-blocking operation: whether or not the receiving end takes anything, the answer
    /// comes at once and is final. If the channel is full, the item comes back.
    pub fn send<T>(&self, channel: &mut Channel<T>, t: T) -> (step: SendStep<T>)
        requires
            self.channel() == old(channel)@.key,
            old(channel)@.wf(),
            old(channel)@.counter < usize::MAX,
        ensures
            final(channel)@.wf(),
            !old(channel)@.receiving ==> {
                &&& step == SendStep::Disconnected(SendError(t))
                &&& final(channel)@ == old(channel)@
            },
            old(channel)@.receiving && !old(channel)@.has_room() ==> {
                &&& step == SendStep::Full(t)
                &&& final(channel)@ == old(channel)@
            },
            old(channel)@.receiving && old(channel)@.has_room() ==> {
                &&& step == SendStep::<T>::Sent(old(channel)@.notification_of_next())
                &&& final(channel)@ == old(channel)@.sent(t)
            },
    {
        if !channel.receiving {
            return SendStep::Disconnected(SendError(t));
        }
        let room: bool = match channel.bound {
            None => true,
            Some(bound) => channel.queue.len() < bound || (bound == 0 && channel.parked
                && channel.queue.len() == 0),
        };
        if !room {
            return SendStep::Full(t);
        }
        channel.queue.push_back(t);
        let wakeup = channel.happened();
        assert(channel@ =~= old(channel)@.sent(t));
        SendStep::Sent(wakeup)
    }

    /// The end of the sending end.
    pub fn drop<T>(self, channel: &mut Channel<T>) -> (wakeup: Option<Wakeup>)
        requires
            self.channel() == old(channel)@.key,
            old(channel)@.wf(),
            0 < old(channel)@.senders,
            old(channel)@.counter < usize::MAX,
        ensures
            final(channel)@ == old(channel)@.left(),
            final(channel)@.wf(),
            wakeup == (if old(channel)@.senders == 1 {
                old(channel)@.notification_of_next()
            } else {
                None
            }),
    {
        drop_sender(channel)
    }
}

impl Receiver {
    /// Name of the channel that this is an end of.
    pub open spec fn channel(self) -> u64 {
        self.source().0.io.channel()
    }

    fn new(key: u64) -> (made: Self)
        ensures
            made.channel() == key,
            made.source().common() == crate::evented::fresh_common(),
    {
        Receiver(RcEventSource::new(ReceiverCore { key }))
    }

    /// The name of the channel that this is an end of.
    pub fn key(&self) -> (key: u64)
        ensures
            key == self.channel(),
    {
        self.0.io_ref().key()
    }

    /// Receive `T` sent using corresponding `Sender::send()`.
    ///
    /// Will block coroutine if no elements are available.
    pub fn recv<T>(&self, current: &CurrentCoroutine, channel: &mut Channel<T>) -> (step: RecvStep<
        T,
    >)
        requires
            self.channel() == old(channel)@.key,
            old(channel)@.wf(),
        ensures
            final(channel)@.wf(),
            match old(channel)@.head() {
                Ok(t) => {
                    &&& step == RecvStep::Return(Ok::<T, RecvError>(t))
                    &&& final(channel)@ == if current.co is Some {
                        old(channel)@.received()
                    } else {
                        old(channel)@.received_natively()
                    }
                },
                Err(TryRecvError::Disconnected) => {
                    &&& step == RecvStep::Return(Err::<T, RecvError>(RecvError))
                    &&& final(channel)@ == old(channel)@
                },
                Err(TryRecvError::Empty) => {
                    &&& step == if current.co is Some {
                        RecvStep::<T>::Block(RW { read: true, write: false })
                    } else {
                        RecvStep::<T>::Wait
                    }
                    &&& final(channel)@ == old(channel)@.awaited()
                },
            },
    {
        if in_coroutine(current) {
            match self.try_recv(channel) {
                Err(TryRecvError::Empty) => RecvStep::Block(RW::read()),
                Err(TryRecvError::Disconnected) => RecvStep::Return(Err(RecvError)),
                Ok(t) => RecvStep::Return(Ok(t)),
            }
        } else {
            match channel.queue.pop_front() {
                Some(t) => {
                    channel.parked = false;
                    assert(channel@ =~= old(channel)@.received_natively());
                    RecvStep::Return(Ok(t))
                },
                None => {
                    if channel.senders == 0 {
                        assert(channel@ =~= old(channel)@);
                        RecvStep::Return(Err(RecvError))
                    } else {
                        channel.parked = true;
                        assert(channel@ =~= old(channel)@.awaited());
                        RecvStep::Wait
                    }
                },
            }
        }
    }

    /// Try reading data from the queue.
    ///
    /// This will not block. An attempt that finds nothing lets an item through a channel of no
    /// capacity, for the next attempt to find.
    pub fn try_recv<T>(&self, channel: &mut Channel<T>) -> (res: Result<T, TryRecvError>)
        requires
            self.channel() == old(channel)@.key,
            old(channel)@.wf(),
        ensures
            final(channel)@.wf(),
            res == old(channel)@.head(),
            final(channel)@ == match res {
                Ok(_) => old(channel)@.received(),
                Err(TryRecvError::Empty) => old(channel)@.awaited(),
                Err(TryRecvError::Disconnected) => old(channel)@,
            },
    {
        match channel.queue.pop_front() {
            Some(t) => {
                channel.counter = channel.counter - 1;
                channel.parked = false;
                assert(channel@ =~= old(channel)@.received());
                Ok(t)
            },
            None => {
                if channel.senders == 0 {
                    assert(channel@ =~= old(channel)@);
                    Err(TryRecvError::Disconnected)
                } else {
                    channel.parked = true;
                    assert(channel@ =~= old(channel)@.awaited());
                    Err(TryRecvError::Empty)
                }
            },
        }
    }

    /// No coroutine is registered to be notified.
    pub fn empty_shared_token<T>(&self, channel: &Channel<T>) -> (empty: bool)
        requires
            self.channel() == channel@.key,
        ensures
            empty == (channel@.token is None),
    {
        channel.token.is_none()
    }

    /// The end of the receiving end: what was not received is lost, and nothing can be sent.
    pub fn drop<T>(self, channel: &mut Channel<T>)
        requires
            self.channel() == old(channel)@.key,
            old(channel)@.wf(),
        ensures
            final(channel)@.wf(),
            final(channel)@ == (ChannelView {
                queue: Seq::empty(),
                receiving: false,
                ..old(channel)@
            }),
    {
        channel.queue.clear();
        channel.receiving = false;
        assert(channel@ =~= ChannelView {
            queue: Seq::empty(),
            receiving: false,
            ..old(channel)@
        });
    }
}

impl<T> ChannelView<T> {
    /// The channel after all of `ts` have been sent, in this order.
    pub open spec fn sent_all(self, ts: Seq<T>) -> ChannelView<T>
        decreases ts.len(),
    {
        if ts.len() == 0 {
            self
        } else {
            self.sent_all(ts.drop_last()).sent(ts.last())
        }
    }

    /// The channel after one item has been received for each entry of `inside`: in a coroutine, or by
    /// an attempt that does not block, where the entry is true, and by a native thread that blocks
    /// where it is false.
    pub open spec fn received_all(self, inside: Seq<bool>) -> ChannelView<T>
        decreases inside.len(),
    {
        if inside.len() == 0 {
            self
        } else {
            let before = self.received_all(inside.drop_last());
            if inside.last() {
                before.received()
            } else {
                before.received_natively()
            }
        }
    }

    /// The channel with a coroutine registered on it.
    pub open spec fn registered(self, sender: MioSender, token: Token) -> ChannelView<T> {
        ChannelView { token: Some(token), sender: Some(sender), ..self }
    }

    proof fn lemma_sent_all(self, ts: Seq<T>)
        ensures
            self.sent_all(ts) == (ChannelView {
                queue: self.queue + ts,
                counter: self.counter + ts.len(),
                ..self
            }),
        decreases ts.len(),
    {
        if ts.len() == 0 {
            assert(self.queue + ts =~= self.queue);
        } else {
            self.lemma_sent_all(ts.drop_last());
            assert((self.queue + ts.drop_last()).push(ts.last()) =~= self.queue + ts);
        }
    }

    proof fn lemma_received_all(self, inside: Seq<bool>)
        requires
            inside.len() <= self.queue.len(),
        ensures
            self.received_all(inside) == (ChannelView {
                queue: self.queue.skip(inside.len() as int),
                counter: self.counter - times_inside(inside),
                parked: self.parked && inside.len() == 0,
                ..self
            }),
        decreases inside.len(),
    {
        if inside.len() == 0 {
            assert(self.queue.skip(0) =~= self.queue);
        } else {
            self.lemma_received_all(inside.drop_last());
            assert(self.queue.skip(inside.len() - 1).skip(1) =~= self.queue.skip(
                inside.len() as int,
            ));
        }
    }
}

/// How many items were not received by a native thread that blocks.
pub open spec fn times_inside(inside: Seq<bool>) -> nat
    decreases inside.len(),
{
    if inside.len() == 0 {
        0
    } else {
        times_inside(inside.drop_last()) + if inside.last() {
            1nat
        } else {
            0nat
        }
    }
}

/// A channel behaves like a queue: what is received, in coroutines and on native threads alike, is
/// what was sent, in the order in which it was sent, behind what was in the channel before.
pub proof fn law_channel_is_a_queue<T>(channel: ChannelView<T>, ts: Seq<T>, inside: Seq<bool>)
    requires
        inside.len() < channel.queue.len() + ts.len(),
    ensures
        channel.sent_all(ts).received_all(inside).head() == Ok::<T, TryRecvError>(
            (channel.queue + ts)[inside.len() as int],
        ),
{
    channel.lemma_sent_all(ts);
    channel.sent_all(ts).lemma_received_all(inside);
}

/// Receiving everything that was sent leaves the channel as it was, but for a receiving end that had
/// waited for an item, which does not any more, and for the counter, in which what native threads
/// have received stays.
pub proof fn law_receiving_undoes_sending<T>(
    channel: ChannelView<T>,
    ts: Seq<T>,
    inside: Seq<bool>,
)
    requires
        channel.queue.len() == 0,
        inside.len() == ts.len(),
    ensures
        channel.sent_all(ts).received_all(inside) == (ChannelView {
            counter: channel.counter + (ts.len() - times_inside(inside)),
            parked: channel.parked && ts.len() == 0,
            ..channel
        }),
{
    channel.lemma_sent_all(ts);
    channel.sent_all(ts).lemma_received_all(inside);
    assert((channel.queue + ts).skip(ts.len() as int) =~= channel.queue);
}

/// A channel of no capacity hands items over: after an attempt to receive that found nothing, be it
/// of a coroutine or of a native thread, one item can be sent, and the next attempt receives it.
/// Before another attempt there is room for no second item.
pub proof fn law_channel_without_capacity_hands_over<T>(channel: ChannelView<T>, t: T)
    requires
        channel.bound == Some(0usize),
        channel.head() == Err::<T, TryRecvError>(TryRecvError::Empty),
    ensures
        channel.awaited().has_room(),
        channel.awaited().sent(t).head() == Ok::<T, TryRecvError>(t),
        !channel.awaited().sent(t).has_room(),
        !channel.awaited().sent(t).received().has_room(),
        !channel.awaited().sent(t).received_natively().has_room(),
{
}

/// When the last sending end has gone, everything that was sent can still be received, in coroutines
/// and on native threads alike, and after that the channel is disconnected.
pub proof fn law_disconnect_after_last_item<T>(channel: ChannelView<T>, inside: Seq<bool>)
    requires
        channel.wf(),
        channel.senders == 1,
        inside.len() <= channel.queue.len(),
    ensures
        channel.left().received_all(inside).head() == if inside.len() < channel.queue.len() {
            Ok(channel.queue[inside.len() as int])
        } else {
            Err(TryRecvError::Disconnected)
        },
{
    channel.left().lemma_received_all(inside);
}

/// A coroutine blocks on a channel only while the channel has nothing for it: if there is no
/// reason to go on at registration, then there is nothing to receive and a sending end exists.
pub proof fn law_blocks_only_when_empty<T>(channel: ChannelView<T>)
    requires
        channel.wf(),
        channel.counter == 0,
    ensures
        channel.head() == Err::<T, TryRecvError>(TryRecvError::Empty),
{
}

/// A blocked receiver is woken up: the first thing that happens after it was registered, be it
/// an item or the end of the last sender, notifies it under its token, and what follows before it
/// has taken that does not notify it again.
pub proof fn law_blocked_receiver_is_notified<T>(
    channel: ChannelView<T>,
    sender: MioSender,
    token: Token,
    t: T,
)
    requires
        channel.wf(),
        channel.counter == 0,
    ensures
        channel.registered(sender, token).notification_of_next() == Some(
            Wakeup { to: sender, token },
        ),
        channel.registered(sender, token).sent(t).notification_of_next() is None,
        channel.senders == 1 ==> channel.registered(
            sender,
            token,
        ).left().notification_of_next() is None,
{
}

/// What is sent over a channel is behind all that was sent before, and nothing else about the queue
/// changes; without a receiving end it comes back, and nothing happens. The receiver is notified, if
/// a coroutine is registered on it, by the first thing that happens after it has taken everything.
pub proof fn law_send_puts_behind<T>(
    sender: Sender,
    channel: &mut Channel<T>,
    t: T,
    sent: Result<Option<Wakeup>, SendError<T>>,
)
    requires
        old(channel)@.wf(),
        call_ensures(Sender::send::<T>, (&sender, channel, t), sent),
    ensures
        old(channel)@.receiving ==> {
            &&& sent is Ok
            &&& final(channel)@.queue == old(channel)@.queue.push(t)
            &&& final(channel)@.counter == old(channel)@.counter + 1
            &&& same_ends(old(channel)@, final(channel)@)
            &&& same_registration(old(channel)@, final(channel)@)
            &&& final(channel)@.parked == old(channel)@.parked
            &&& sent->Ok_0 is Some <==> old(channel)@.counter == 0 && old(channel)@.token is Some
            &&& sent->Ok_0 matches Some(wakeup) ==> Some(wakeup.token) == old(channel)@.token
                && Some(wakeup.to) == old(channel)@.sender
        },
        !old(channel)@.receiving ==> {
            &&& sent is Err
            &&& sent->Err_0.0 == t
            &&& final(channel)@ == old(channel)@
        },
{
}

/// Both have the same name, the same ends and the same bound.
pub open spec fn same_ends<T>(pre: ChannelView<T>, post: ChannelView<T>) -> bool {
    &&& post.key == pre.key
    &&& post.senders == pre.senders
    &&& post.receiving == pre.receiving
    &&& post.bound == pre.bound
}

/// The same coroutine is registered on both, if any.
pub open spec fn same_registration<T>(pre: ChannelView<T>, post: ChannelView<T>) -> bool {
    &&& post.token == pre.token
    &&& post.sender == pre.sender
}

/// A bounded channel takes an item exactly while it holds fewer than its bound; one that holds none
/// at all takes an item only for a receiving end that waits for it. An item that is not taken comes
/// back, and nothing happens; one that is taken is put behind the others, as in an unbounded channel.
pub proof fn law_bounded_channel_holds_its_bound<T>(
    sender: SyncSender,
    channel: &mut Channel<T>,
    t: T,
    step: SendStep<T>,
)
    requires
        old(channel)@.wf(),
        call_ensures(SyncSender::send::<T>, (&sender, channel, t), step),
    ensures
        ({
            let held = old(channel)@.queue.len();
            let room = match old(channel)@.bound {
                None => true,
                Some(bound) => if bound > 0 {
                    held < bound
                } else {
                    held == 0 && old(channel)@.parked
                },
            };
            &&& step is Sent <==> old(channel)@.receiving && room
            &&& step is Full <==> old(channel)@.receiving && !room
            &&& step is Disconnected <==> !old(channel)@.receiving
        }),
        step matches SendStep::Sent(notified) ==> {
            &&& final(channel)@.queue == old(channel)@.queue.push(t)
            &&& final(channel)@.counter == old(channel)@.counter + 1
            &&& same_ends(old(channel)@, final(channel)@)
            &&& same_registration(old(channel)@, final(channel)@)
            &&& final(channel)@.parked == old(channel)@.parked
            &&& notified is Some <==> old(channel)@.counter == 0 && old(channel)@.token is Some
            &&& notified matches Some(wakeup) ==> Some(wakeup.token) == old(channel)@.token
                && Some(wakeup.to) == old(channel)@.sender
        },
        step matches SendStep::Full(back) ==> back == t && final(channel)@ == old(channel)@,
        step matches SendStep::Disconnected(err) ==> err.0 == t && final(channel)@ == old(channel)@,
{
}

/// Exactly as many items as its bound says can be sent to a new bounded channel before one comes
/// back: there is room before each of them, and none after the last.
pub proof fn law_new_bounded_channel_takes_its_bound<T>(
    key: u64,
    bound: usize,
    made: (SyncSender, Receiver, Channel<T>),
    ts: Seq<T>,
    sender: SyncSender,
    channel: &mut Channel<T>,
    t: T,
    step: SendStep<T>,
)
    requires
        call_ensures(sync_channel::<T>, (key, bound), made),
        bound > 0,
        ts.len() <= bound,
        old(channel)@ == made.2@.sent_all(ts),
        old(channel)@.wf(),
        call_ensures(SyncSender::send::<T>, (&sender, channel, t), step),
    ensures
        step is Sent <==> ts.len() < bound,
        step is Full <==> ts.len() == bound,
        step is Sent ==> final(channel)@ == made.2@.sent_all(ts.push(t)),
        old(channel)@.queue == ts,
{
    made.2@.lemma_sent_all(ts);
    made.2@.lemma_sent_all(ts.push(t));
    assert(made.2@.queue + ts =~= ts);
    assert(made.2@.queue + ts.push(t) =~= ts.push(t));
}

/// A new channel is empty, has one sending end and a receiving end, and no coroutine is registered on
/// it. Nothing limits what an unbounded one holds; a bounded one has the bound that it was made with.
pub proof fn law_new_channels_are_empty<T>(
    key: u64,
    unbounded: (Sender, Receiver, Channel<T>),
    bound: usize,
    bounded: (SyncSender, Receiver, Channel<T>),
)
    requires
        call_ensures(channel::<T>, (key,), unbounded),
        call_ensures(sync_channel::<T>, (key, bound), bounded),
    ensures
        unbounded.0.channel() == key,
        unbounded.1.channel() == key,
        unbounded.2@.bound is None,
        unused(unbounded.2@, key),
        bounded.0.channel() == key,
        bounded.1.channel() == key,
        bounded.2@.bound == Some(bound),
        unused(bounded.2@, key),
{
}

/// Nothing has happened to the channel with this name.
pub open spec fn unused<T>(channel: ChannelView<T>, key: u64) -> bool {
    &&& channel.key == key
    &&& channel.queue.len() == 0
    &&& channel.counter == 0
    &&& channel.senders == 1
    &&& channel.receiving
    &&& channel.token is None
    &&& channel.sender is None
    &&& !channel.parked
}

/// The oldest item is received, once: it leaves the queue, and the others stay in their order. An
/// empty channel gives nothing; while there are sending ends it may still come to something, and
/// without them it never will. Nothing is lost either way.
pub proof fn law_try_recv_takes_the_oldest<T>(
    receiver: Receiver,
    channel: &mut Channel<T>,
    res: Result<T, TryRecvError>,
)
    requires
        old(channel)@.wf(),
        call_ensures(Receiver::try_recv::<T>, (&receiver, channel), res),
    ensures
        res is Ok <==> old(channel)@.queue.len() > 0,
        res == Err::<T, TryRecvError>(TryRecvError::Empty) <==> old(channel)@.queue.len() == 0
            && old(channel)@.senders > 0,
        res == Err::<T, TryRecvError>(TryRecvError::Disconnected) <==> old(channel)@.queue.len()
            == 0 && old(channel)@.senders == 0,
        res matches Ok(t) ==> {
            &&& old(channel)@.queue == seq![t] + final(channel)@.queue
            &&& final(channel)@.counter == old(channel)@.counter - 1
            &&& !final(channel)@.parked
        },
        res is Err ==> {
            &&& final(channel)@.queue == old(channel)@.queue
            &&& final(channel)@.counter == old(channel)@.counter
            &&& final(channel)@.parked == (old(channel)@.parked || old(channel)@.senders > 0)
        },
        same_ends(old(channel)@, final(channel)@),
        same_registration(old(channel)@, final(channel)@),
{
    if let Ok(t) = res {
        assert(old(channel)@.queue =~= seq![t] + final(channel)@.queue);
    }
}

/// Receiving gives what an attempt gives, and waits instead of giving nothing: a coroutine blocks
/// until there is something to read, and a native thread waits. Where and whether it waits is the
/// only thing in which they differ, besides the counter that only coroutines need.
pub proof fn law_recv_waits_only_for_an_item<T>(
    receiver: Receiver,
    current: CurrentCoroutine,
    channel: &mut Channel<T>,
    step: RecvStep<T>,
)
    requires
        old(channel)@.wf(),
        call_ensures(Receiver::recv::<T>, (&receiver, &current, channel), step),
    ensures
        old(channel)@.queue.len() > 0 ==> {
            &&& step matches RecvStep::Return(Ok(t))
            &&& old(channel)@.queue == seq![t] + final(channel)@.queue
            &&& !final(channel)@.parked
            &&& final(channel)@.counter == if current.co is Some {
                old(channel)@.counter - 1
            } else {
                old(channel)@.counter
            }
        },
        old(channel)@.queue.len() == 0 ==> {
            &&& final(channel)@.queue == old(channel)@.queue
            &&& final(channel)@.counter == old(channel)@.counter
            &&& old(channel)@.senders == 0 ==> step == RecvStep::<T>::Return(Err(RecvError))
            &&& old(channel)@.senders > 0 && current.co is Some ==> step == RecvStep::<T>::Block(
                RW { read: true, write: false },
            )
            &&& old(channel)@.senders > 0 && current.co is None ==> step is Wait
            &&& final(channel)@.parked == (old(channel)@.parked || old(channel)@.senders > 0)
        },
        same_ends(old(channel)@, final(channel)@),
        same_registration(old(channel)@, final(channel)@),
{
    if old(channel)@.queue.len() > 0 {
        assert(old(channel)@.queue =~= seq![old(channel)@.queue[0]] + final(channel)@.queue);
    }
}

/// What is sent to an empty channel is what is received next, by an attempt or by waiting for it, in
/// a coroutine or not; then the channel is empty again.
pub proof fn law_what_is_sent_is_received<T>(
    sender: Sender,
    sending: &mut Channel<T>,
    t: T,
    sent: Result<Option<Wakeup>, SendError<T>>,
    receiver: Receiver,
    trying: &mut Channel<T>,
    res: Result<T, TryRecvError>,
    current: CurrentCoroutine,
    receiving: &mut Channel<T>,
    step: RecvStep<T>,
)
    requires
        old(sending)@.wf(),
        old(sending)@.queue.len() == 0,
        old(sending)@.receiving,
        call_ensures(Sender::send::<T>, (&sender, sending, t), sent),
        *old(trying) == *final(sending),
        call_ensures(Receiver::try_recv::<T>, (&receiver, trying), res),
        *old(receiving) == *final(sending),
        call_ensures(Receiver::recv::<T>, (&receiver, &current, receiving), step),
    ensures
        res == Ok::<T, TryRecvError>(t),
        step == RecvStep::Return(Ok::<T, RecvError>(t)),
        final(trying)@.queue.len() == 0,
        final(receiving)@.queue.len() == 0,
{
}

/// The number of sending ends is kept: another one counts, and one that goes is not counted any more.
/// The end of the last one is something that happens to the channel: the receiver is notified of it
/// as of an item. The items stay.
pub proof fn law_sending_ends_are_counted<T>(
    sender: Sender,
    cloning: &mut Channel<T>,
    other: Sender,
    dropping: &mut Channel<T>,
    wakeup: Option<Wakeup>,
)
    requires
        old(cloning)@.wf(),
        old(dropping)@.wf(),
        old(dropping)@.senders > 0,
        call_ensures(Sender::clone::<T>, (&sender, cloning), other),
        call_ensures(Sender::drop::<T>, (sender, dropping), wakeup),
    ensures
        other.channel() == sender.channel(),
        final(cloning)@.senders == old(cloning)@.senders + 1,
        final(cloning)@.queue == old(cloning)@.queue,
        final(cloning)@.counter == old(cloning)@.counter,
        final(cloning)@.receiving == old(cloning)@.receiving,
        final(cloning)@.parked == old(cloning)@.parked,
        final(cloning)@.key == old(cloning)@.key,
        final(cloning)@.bound == old(cloning)@.bound,
        same_registration(old(cloning)@, final(cloning)@),
        gone(old(dropping)@, final(dropping)@, wakeup),
{
}

/// The sending end of a bounded channel ends like that of any other.
pub proof fn law_bounded_sending_end_goes<T>(
    sender: SyncSender,
    channel: &mut Channel<T>,
    wakeup: Option<Wakeup>,
)
    requires
        old(channel)@.wf(),
        old(channel)@.senders > 0,
        call_ensures(SyncSender::drop::<T>, (sender, channel), wakeup),
    ensures
        gone(old(channel)@, final(channel)@, wakeup),
{
}

/// A sending end has gone.
pub open spec fn gone<T>(pre: ChannelView<T>, post: ChannelView<T>, wakeup: Option<Wakeup>) -> bool {
    let last = pre.senders == 1;
    &&& post.senders == pre.senders - 1
    &&& post.queue == pre.queue
    &&& post.counter == if last {
        pre.counter + 1
    } else {
        pre.counter
    }
    &&& post.key == pre.key
    &&& post.receiving == pre.receiving
    &&& post.bound == pre.bound
    &&& post.parked == pre.parked
    &&& same_registration(pre, post)
    &&& wakeup is Some <==> last && pre.counter == 0 && pre.token is Some
    &&& wakeup matches Some(wakeup) ==> Some(wakeup.token) == pre.token && Some(wakeup.to)
        == pre.sender
}

/// The end of the receiving end: nothing is left to be received, and nothing can be sent.
pub proof fn law_receiving_end_goes<T>(
    receiver: Receiver,
    channel: &mut Channel<T>,
    sender: Sender,
    after: &mut Channel<T>,
    t: T,
    sent: Result<Option<Wakeup>, SendError<T>>,
)
    requires
        call_ensures(Receiver::drop::<T>, (receiver, channel), ()),
        *old(after) == *final(channel),
        call_ensures(Sender::send::<T>, (&sender, after, t), sent),
    ensures
        final(channel)@.queue.len() == 0,
        final(channel)@.senders == old(channel)@.senders,
        final(channel)@.key == old(channel)@.key,
        final(channel)@.bound == old(channel)@.bound,
        same_registration(old(channel)@, final(channel)@),
        sent is Err,
        sent->Err_0.0 == t,
        final(after)@ == final(channel)@,
{
}

/// A coroutine that registers on a channel is told to go on at once if something has happened that
/// it has not received; otherwise its token stays, and the next thing that happens notifies it: an
/// item, or the end of the last sending end. What it receives later is not touched. After
/// deregistering nobody is notified.
pub proof fn law_registering_misses_nothing<T>(
    raw: ReceiverCore,
    registering: &mut Channel<T>,
    own: MioSender,
    token: Token,
    interest: EventSet,
    ready: bool,
    sender: Sender,
    sending: &mut Channel<T>,
    t: T,
    sent: Result<Option<Wakeup>, SendError<T>>,
    dropping: &mut Channel<T>,
    dropped: Option<Wakeup>,
    deregistering: &mut Channel<T>,
)
    requires
        old(registering)@.wf(),
        call_ensures(ReceiverCore::register::<T>, (&raw, registering, own, token, interest), ready),
        *old(sending) == *final(registering),
        call_ensures(Sender::send::<T>, (&sender, sending, t), sent),
        *old(dropping) == *final(registering),
        call_ensures(Sender::drop::<T>, (sender, dropping), dropped),
        *old(deregistering) == *final(registering),
        call_ensures(ReceiverCore::deregister::<T>, (&raw, deregistering), ()),
    ensures
        ready <==> old(registering)@.counter > 0,
        old(registering)@.queue.len() > 0 ==> ready,
        old(registering)@.senders == 0 ==> ready,
        final(registering)@.queue == old(registering)@.queue,
        final(registering)@.counter == old(registering)@.counter,
        final(registering)@.parked == old(registering)@.parked,
        same_ends(old(registering)@, final(registering)@),
        !ready && old(registering)@.receiving ==> sent == Ok::<Option<Wakeup>, SendError<T>>(
            Some(Wakeup { to: own, token }),
        ),
        !ready && old(registering)@.senders == 1 ==> dropped == Some(Wakeup { to: own, token }),
        ready ==> !(sent matches Ok(Some(_))) && dropped is None,
        final(deregistering)@.token is None,
        final(deregistering)@.sender is None,
        final(deregistering)@.queue == old(registering)@.queue,
        final(deregistering)@.counter == old(registering)@.counter,
        final(deregistering)@.parked == old(registering)@.parked,
        same_ends(old(registering)@, final(deregistering)@),
{
}

/// Registering again looks again: a coroutine is told to go on if something has happened meanwhile,
/// and stays registered otherwise.
pub proof fn law_registering_again_looks_again<T>(
    raw: ReceiverCore,
    channel: &mut Channel<T>,
    interest: EventSet,
    ready: bool,
)
    requires
        call_ensures(ReceiverCore::reregister::<T>, (&raw, channel, interest), ready),
    ensures
        ready <==> old(channel)@.counter != 0,
        final(channel)@.token == if ready {
            None
        } else {
            old(channel)@.token
        },
        final(channel)@.sender == old(channel)@.sender,
        final(channel)@.queue == old(channel)@.queue,
        final(channel)@.counter == old(channel)@.counter,
        final(channel)@.parked == old(channel)@.parked,
        same_ends(old(channel)@, final(channel)@),
{
}

/// The ends of a channel know its name, and the channel tells whether somebody is registered on it and
/// whether it can still count.
pub proof fn law_channels_tell_what_they_are<T>(
    channel: Channel<T>,
    receiver: Receiver,
    empty: bool,
    counts: bool,
    receiver_key: u64,
    raw: ReceiverCore,
    raw_key: u64,
    sender: Sender,
    sender_key: u64,
)
    requires
        call_ensures(Receiver::empty_shared_token::<T>, (&receiver, &channel), empty),
        call_ensures(Channel::<T>::can_count, (&channel,), counts),
        call_ensures(Receiver::key, (&receiver,), receiver_key),
        call_ensures(ReceiverCore::key, (&raw,), raw_key),
        call_ensures(Sender::key, (&sender,), sender_key),
    ensures
        empty <==> channel@.token is None,
        counts <==> channel@.counter < usize::MAX && channel@.senders < usize::MAX,
        receiver_key == receiver.channel(),
        raw_key == raw.channel(),
        sender_key == sender.channel(),
{
}

} // verus!
