//! Mailboxes: queues that notify the coroutine that waits for mail.
//!
//! The state of a mailbox is one value, [`MailboxShared`], which both ends share; each operation
//! of an end takes it as an argument. Where an operation has to wake the receiving coroutine up,
//! it returns the notification that is to be sent.

use crate::event::{EventSet, Token, RW};
use crate::evented::{EventedImpl, RcEventSource};
use crate::message::{MioSender, Wakeup};
use std::collections::VecDeque;
use vstd::prelude::*;

verus! {

/// State shared between both ends.
#[derive(Debug)]
pub struct MailboxShared<T> {
    key: u64,
    token: Option<Token>,
    sender: Option<MioSender>,
    inn: VecDeque<T>,
    interest: EventSet,
}

/// What a mailbox is, as its contracts describe it.
#[verifier::ext_equal]
pub struct MailboxView<T> {
    /// Name of the mailbox, by which its ends know it.
    pub key: u64,
    /// Token of the receiving end, while a coroutine is blocked on it.
    pub token: Option<Token>,
    /// Thread of that coroutine.
    pub sender: Option<MioSender>,
    /// Mail that was sent and not read, the oldest first.
    pub inn: Seq<T>,
    /// What the coroutine wants to be notified of.
    pub interest: EventSet,
}

impl<T> View for MailboxShared<T> {
    type V = MailboxView<T>;

    closed spec fn view(&self) -> MailboxView<T> {
        MailboxView {
            key: self.key,
            token: self.token,
            sender: self.sender,
            inn: self.inn@,
            interest: self.interest,
        }
    }
}

/// No events.
pub open spec fn no_events() -> EventSet {
    EventSet { readable: false, writable: false, hup: false }
}

impl<T> MailboxView<T> {
    /// What always holds of a mailbox: who wants to be notified can be.
    pub open spec fn wf(self) -> bool {
        self.interest.readable ==> self.token is Some && self.sender is Some
    }

    /// The notification that goes out with the next mail.
    pub open spec fn notification(self) -> Option<Wakeup> {
        if self.interest.readable {
            Some(Wakeup { to: self.sender->Some_0, token: self.token->Some_0 })
        } else {
            None
        }
    }

    /// The mailbox after `t` has been sent.
    pub open spec fn sent(self, t: T) -> MailboxView<T> {
        MailboxView { inn: self.inn.push(t), ..self }
    }

    /// The mailbox after its oldest mail has been read.
    pub open spec fn taken(self) -> MailboxView<T> {
        MailboxView { inn: self.inn.skip(1), ..self }
    }

    /// There is a reason to go on right away for a coroutine with this interest.
    pub open spec fn ready(self, interest: EventSet) -> bool {
        interest.readable && self.inn.len() > 0
    }

    /// The mailbox with another interest of the coroutine that is registered on it: one that there
    /// is mail for already is told so at once, and not again.
    pub open spec fn reregistered(self, interest: EventSet) -> MailboxView<T> {
        MailboxView {
            interest: if self.ready(interest) {
                no_events()
            } else {
                interest
            },
            ..self
        }
    }

    /// The mailbox with a coroutine registered on it.
    pub open spec fn registered(self, sender: MioSender, token: Token, interest: EventSet)
        -> MailboxView<T> {
        MailboxView { token: Some(token), sender: Some(sender), ..self.reregistered(interest) }
    }

    /// The mailbox after all of `ts` have been sent, in this order.
    pub open spec fn sent_all(self, ts: Seq<T>) -> MailboxView<T>
        decreases ts.len(),
    {
        if ts.len() == 0 {
            self
        } else {
            self.sent_all(ts.drop_last()).sent(ts.last())
        }
    }

    /// The mailbox after `n` mails have been read.
    pub open spec fn taken_n(self, n: nat) -> MailboxView<T>
        decreases n,
    {
        if n == 0 {
            self
        } else {
            self.taken_n((n - 1) as nat).taken()
        }
    }

    proof fn lemma_sent_all(self, ts: Seq<T>)
        ensures
            self.sent_all(ts) == (MailboxView { inn: self.inn + ts, ..self }),
        decreases ts.len(),
    {
        if ts.len() == 0 {
            assert(self.inn + ts =~= self.inn);
        } else {
            self.lemma_sent_all(ts.drop_last());
            assert((self.inn + ts.drop_last()).push(ts.last()) =~= self.inn + ts);
        }
    }

    proof fn lemma_taken_n(self, n: nat)
        requires
            n <= self.inn.len(),
        ensures
            self.taken_n(n) == (MailboxView { inn: self.inn.skip(n as int), ..self }),
        decreases n,
    {
        if n == 0 {
            assert(self.inn.skip(0) =~= self.inn);
        } else {
            self.lemma_taken_n((n - 1) as nat);
            assert(self.inn.skip(n - 1).skip(1) =~= self.inn.skip(n as int));
        }
    }
}

/// Mailbox receiving end
///
/// Use this only inside coroutines, as an asynchronous event source.
///
/// Create with `mailbox()`
#[derive(Debug)]
pub struct MailboxInnerEnd(RcEventSource<MailboxInnerCore>);

/// The raw part of a `MailboxInnerEnd`.
#[derive(Copy, Clone, Debug)]
pub struct MailboxInnerCore {
    key: u64,
}

impl MailboxInnerCore {
    /// Name of the mailbox.
    pub closed spec fn mailbox(self) -> u64 {
        self.key
    }

    /// Registers the coroutine that blocks on the mailbox.
    ///
    /// Returns the notification to be sent to itself if there is mail already.
    pub fn register<T>(
        &self,
        shared: &mut MailboxShared<T>,
        sender: MioSender,
        token: Token,
        interest: EventSet,
    ) -> (wakeup: Option<Wakeup>)
        requires
            self.mailbox() == old(shared)@.key,
        ensures
            final(shared)@ == old(shared)@.registered(sender, token, interest),
            final(shared)@.wf(),
            wakeup == if old(shared)@.ready(interest) {
                Some(Wakeup { to: sender, token })
            } else {
                None
            },
    {
        shared.token = Some(token);
        shared.sender = Some(sender);
        shared.interest = interest;

        let mut wakeup: Option<Wakeup> = None;
        if interest.is_readable() && shared.inn.len() > 0 {
            shared.interest = EventSet::none();
            wakeup = Some(Wakeup { to: sender, token });
        }
        assert(shared@ =~= old(shared)@.registered(sender, token, interest));
        wakeup
    }

    /// Registers the coroutine again, with another interest.
    ///
    /// Returns the notification to be sent to itself if there is mail already.
    pub fn reregister<T>(&self, shared: &mut MailboxShared<T>, token: Token, interest: EventSet)
        -> (wakeup: Option<Wakeup>)
        requires
            self.mailbox() == old(shared)@.key,
            old(shared)@.ready(interest) ==> old(shared)@.sender is Some,
        ensures
            final(shared)@ == old(shared)@.reregistered(interest),
            old(shared)@.token is Some && old(shared)@.sender is Some ==> final(shared)@.wf(),
            wakeup == if old(shared)@.ready(interest) {
                Some(Wakeup { to: old(shared)@.sender->Some_0, token })
            } else {
                None
            },
    {
        shared.interest = interest;

        let mut wakeup: Option<Wakeup> = None;
        if interest.is_readable() && shared.inn.len() > 0 {
            shared.interest = EventSet::none();
            wakeup = Some(Wakeup { to: shared.sender.unwrap(), token });
        }
        assert(shared@ =~= old(shared)@.reregistered(interest));
        wakeup
    }

    /// The coroutine does not block on the mailbox any more.
    pub fn deregister<T>(&self, shared: &mut MailboxShared<T>)
        requires
            self.mailbox() == old(shared)@.key,
        ensures
            final(shared)@ == (MailboxView {
                token: None,
                sender: None,
                interest: no_events(),
                ..old(shared)@
            }),
            final(shared)@.wf(),
    {
        shared.token = None;
        shared.sender = None;
        shared.interest = EventSet::none();
        assert(shared@ =~= MailboxView {
            token: None,
            sender: None,
            interest: no_events(),
            ..old(shared)@
        });
    }

    /// Is there mail?
    pub fn should_resume<T>(&self, shared: &MailboxShared<T>) -> (yes: bool)
        requires
            self.mailbox() == shared@.key,
        ensures
            yes == (shared@.inn.len() > 0),
    {
        shared.inn.len() > 0
    }
}

impl EventedImpl for MailboxInnerEnd {
    type Raw = MailboxInnerCore;

    closed spec fn source(&self) -> RcEventSource<MailboxInnerCore> {
        self.0
    }

    fn shared(&self) -> (source: &RcEventSource<MailboxInnerCore>) {
        &self.0
    }

    fn shared_mut(&mut self) -> (source: &mut RcEventSource<MailboxInnerCore>) {
        &mut self.0
    }
}

/// Mailbox sending end
///
/// Use this inside coroutines or outside of the instance to send data asynchronously to the
/// receiving end.
///
/// Create with `mailbox()`
#[derive(Debug)]
pub struct MailboxOuterEnd {
    key: u64,
}

/// What reading mail comes to.
#[derive(Debug)]
pub enum MailStep<T> {
    /// This mail.
    Return(T),
    /// Block the coroutine until the mailbox is ready in these directions, then try again.
    Block(RW),
}

impl MailboxOuterEnd {
    /// Name of the mailbox that this is an end of.
    pub closed spec fn mailbox(self) -> u64 {
        self.key
    }

    fn new(key: u64) -> (made: Self)
        ensures
            made.mailbox() == key,
    {
        MailboxOuterEnd { key }
    }

    /// Deliver `T` to the other end of the mailbox.
    ///
    /// Mailbox behaves like a queue.
    ///
    /// This is non-blocking operation.
    pub fn send<T>(&self, shared: &mut MailboxShared<T>, t: T) -> (wakeup: Option<Wakeup>)
        requires
            self.mailbox() == old(shared)@.key,
            old(shared)@.wf(),
        ensures
            final(shared)@ == old(shared)@.sent(t),
            final(shared)@.wf(),
            wakeup == old(shared)@.notification(),
    {
        shared.inn.push_back(t);
        assert(shared@ =~= old(shared)@.sent(t));
        if shared.interest.is_readable() {
            let token: Token = shared.token.unwrap();
            Some(Wakeup { to: shared.sender.unwrap(), token })
        } else {
            None
        }
    }
}

impl Clone for MailboxOuterEnd {
    /// One more sending end of the same mailbox.
    fn clone(&self) -> (other: Self)
        ensures
            other == *self,
    {
        MailboxOuterEnd { key: self.key }
    }
}

impl MailboxInnerEnd {
    /// Name of the mailbox that this is an end of.
    pub open spec fn mailbox(self) -> u64 {
        self.source().0.io.mailbox()
    }

    fn new(key: u64) -> (made: Self)
        ensures
            made.mailbox() == key,
            made.source().common() == crate::evented::fresh_common(),
    {
        MailboxInnerEnd(RcEventSource::new(MailboxInnerCore { key }))
    }

    /// Receive `T` sent using corresponding `MailboxOuterEnd::send()`.
    ///
    /// Will block coroutine if no elements are available.
    pub fn read<T>(&self, shared: &mut MailboxShared<T>) -> (step: MailStep<T>)
        requires
            self.mailbox() == old(shared)@.key,
            old(shared)@.wf(),
        ensures
            final(shared)@.wf(),
            if old(shared)@.inn.len() > 0 {
                &&& step == MailStep::Return(old(shared)@.inn[0])
                &&& final(shared)@ == old(shared)@.taken()
            } else {
                &&& step == MailStep::<T>::Block(RW { read: true, write: false })
                &&& final(shared)@ == old(shared)@
            },
    {
        match self.try_read(shared) {
            Some(t) => MailStep::Return(t),
            None => MailStep::Block(RW::read()),
        }
    }

    /// Try reading data from the queue.
    ///
    /// This will not block.
    pub fn try_read<T>(&self, shared: &mut MailboxShared<T>) -> (mail: Option<T>)
        requires
            self.mailbox() == old(shared)@.key,
            old(shared)@.wf(),
        ensures
            final(shared)@.wf(),
            if old(shared)@.inn.len() > 0 {
                &&& mail == Some(old(shared)@.inn[0])
                &&& final(shared)@ == old(shared)@.taken()
            } else {
                &&& mail is None
                &&& final(shared)@ == old(shared)@
            },
    {
        let mail: Option<T> = shared.inn.pop_front();
        if mail.is_some() {
            assert(shared@ =~= old(shared)@.taken());
        } else {
            assert(shared@ =~= old(shared)@);
        }
        mail
    }
}

/// Create a Mailbox
///
/// Mailbox can be used to deliver notifications to handlers from anywhere:
///
/// * other coroutines,
/// * outside of the instance, even a different thread.
pub fn mailbox<T>(key: u64) -> (made: (MailboxOuterEnd, MailboxInnerEnd, MailboxShared<T>))
    ensures
        made.0.mailbox() == key,
        made.1.mailbox() == key,
        made.1.source().common() == crate::evented::fresh_common(),
        made.2@ == (MailboxView {
            key,
            token: None,
            sender: None,
            inn: Seq::<T>::empty(),
            interest: no_events(),
        }),
        made.2@.wf(),
{
    let shared = MailboxShared {
        key,
        token: None,
        sender: None,
        inn: VecDeque::new(),
        interest: EventSet::none(),
    };
    assert(shared@ =~= MailboxView {
        key,
        token: None,
        sender: None,
        inn: Seq::<T>::empty(),
        interest: no_events(),
    });
    (MailboxOuterEnd::new(key), MailboxInnerEnd::new(key), shared)
}

/// A mailbox behaves like a queue: what is read is what was sent, in the order in which it was
/// sent, behind what was in the mailbox before.
pub proof fn law_mailbox_is_a_queue<T>(mailbox: MailboxView<T>, ts: Seq<T>, k: nat)
    requires
        k < mailbox.inn.len() + ts.len(),
    ensures
        mailbox.sent_all(ts).taken_n(k).inn.len() > 0,
        mailbox.sent_all(ts).taken_n(k).inn[0] == (mailbox.inn + ts)[k as int],
{
    mailbox.lemma_sent_all(ts);
    mailbox.sent_all(ts).lemma_taken_n(k);
}

/// A coroutine that blocks on a mailbox to read is notified, whether the mail came before or comes
/// after: there is a notification at registration if there is mail, and otherwise the next mail
/// brings one.
pub proof fn law_blocked_reader_is_notified<T>(
    mailbox: MailboxView<T>,
    sender: MioSender,
    token: Token,
    interest: EventSet,
)
    requires
        interest.readable,
    ensures
        mailbox.inn.len() > 0 <==> mailbox.ready(interest),
        mailbox.inn.len() == 0 ==> mailbox.registered(sender, token, interest).notification()
            == Some(Wakeup { to: sender, token }),
{
}

/// Mail is put behind the mail that is there, and is read from the front: reading takes the oldest,
/// once, and leaves the others in their order. A coroutine that finds no mail blocks to read, and
/// nothing is lost.
pub proof fn law_mail_is_read_in_order<T>(
    outer: MailboxOuterEnd,
    sending: &mut MailboxShared<T>,
    t: T,
    wakeup: Option<Wakeup>,
    inner: MailboxInnerEnd,
    trying: &mut MailboxShared<T>,
    mail: Option<T>,
    reading: &mut MailboxShared<T>,
    step: MailStep<T>,
)
    requires
        call_ensures(MailboxOuterEnd::send::<T>, (&outer, sending, t), wakeup),
        old(reading)@ == old(trying)@,
        call_ensures(MailboxInnerEnd::try_read::<T>, (&inner, trying), mail),
        call_ensures(MailboxInnerEnd::read::<T>, (&inner, reading), step),
    ensures
        final(sending)@.inn == old(sending)@.inn.push(t),
        same_but_mail(old(sending)@, final(sending)@),
        mail is Some <==> old(trying)@.inn.len() > 0,
        mail matches Some(mail) ==> old(trying)@.inn == seq![mail] + final(trying)@.inn,
        mail is None ==> final(trying)@ == old(trying)@,
        same_but_mail(old(trying)@, final(trying)@),
        final(reading)@ == final(trying)@,
        match mail {
            Some(mail) => step == MailStep::Return(mail),
            None => step == MailStep::<T>::Block(RW { read: true, write: false }),
        },
{
    if let Some(mail) = mail {
        assert(old(trying)@.inn =~= seq![mail] + final(trying)@.inn);
    }
}

/// Both agree in everything but the mail.
pub open spec fn same_but_mail<T>(pre: MailboxView<T>, post: MailboxView<T>) -> bool {
    &&& post.key == pre.key
    &&& post.token == pre.token
    &&& post.sender == pre.sender
    &&& post.interest == pre.interest
}

/// What is sent to an empty mailbox is what is read next; then the mailbox is empty again. A new
/// mailbox is empty, and nobody is registered on it.
pub proof fn law_what_is_sent_is_read<T>(
    key: u64,
    made: (MailboxOuterEnd, MailboxInnerEnd, MailboxShared<T>),
    sending: &mut MailboxShared<T>,
    t: T,
    wakeup: Option<Wakeup>,
    reading: &mut MailboxShared<T>,
    mail: Option<T>,
)
    requires
        call_ensures(mailbox::<T>, (key,), made),
        old(sending)@ == made.2@,
        call_ensures(MailboxOuterEnd::send::<T>, (&made.0, sending, t), wakeup),
        *old(reading) == *final(sending),
        call_ensures(MailboxInnerEnd::try_read::<T>, (&made.1, reading), mail),
    ensures
        made.0.mailbox() == key,
        made.1.mailbox() == key,
        made.2@.key == key,
        made.2@.inn.len() == 0,
        made.2@.token is None,
        made.2@.sender is None,
        wakeup is None,
        mail == Some(t),
        final(reading)@.inn.len() == 0,
{
}

/// A coroutine that registers on a mailbox to read misses nothing: it is notified at once, under its
/// own token, if there is mail, and otherwise the next mail notifies it. One that does not want to
/// read, and one that has deregistered, is not notified. Mail is not touched.
pub proof fn law_registering_on_a_mailbox_misses_nothing<T>(
    raw: MailboxInnerCore,
    registering: &mut MailboxShared<T>,
    own: MioSender,
    token: Token,
    interest: EventSet,
    notified: Option<Wakeup>,
    outer: MailboxOuterEnd,
    sending: &mut MailboxShared<T>,
    t: T,
    wakeup: Option<Wakeup>,
    deregistering: &mut MailboxShared<T>,
    after: &mut MailboxShared<T>,
    wakeup_after: Option<Wakeup>,
)
    requires
        call_ensures(
            MailboxInnerCore::register::<T>,
            (&raw, registering, own, token, interest),
            notified,
        ),
        *old(sending) == *final(registering),
        call_ensures(MailboxOuterEnd::send::<T>, (&outer, sending, t), wakeup),
        *old(deregistering) == *final(registering),
        call_ensures(MailboxInnerCore::deregister::<T>, (&raw, deregistering), ()),
        *old(after) == *final(deregistering),
        call_ensures(MailboxOuterEnd::send::<T>, (&outer, after, t), wakeup_after),
    ensures
        ({
            let own_wakeup = Some(Wakeup { to: own, token });
            let mail = old(registering)@.inn.len() > 0;
            &&& interest.readable && mail ==> notified == own_wakeup && wakeup is None
            &&& interest.readable && !mail ==> notified is None && wakeup == own_wakeup
            &&& !interest.readable ==> notified is None && wakeup is None
        }),
        final(registering)@.inn == old(registering)@.inn,
        final(registering)@.key == old(registering)@.key,
        final(deregistering)@.inn == old(registering)@.inn,
        final(deregistering)@.key == old(registering)@.key,
        final(deregistering)@.token is None,
        final(deregistering)@.sender is None,
        wakeup_after is None,
{
}

/// Registering again looks again: there is a notification, to the thread that is registered, if there
/// is mail to read already, and otherwise the next mail brings one.
pub proof fn law_registering_on_a_mailbox_again<T>(
    raw: MailboxInnerCore,
    shared: &mut MailboxShared<T>,
    token: Token,
    interest: EventSet,
    notified: Option<Wakeup>,
    outer: MailboxOuterEnd,
    sending: &mut MailboxShared<T>,
    t: T,
    wakeup: Option<Wakeup>,
    yes: bool,
)
    requires
        old(shared)@.sender is Some,
        old(shared)@.token is Some,
        call_ensures(MailboxInnerCore::should_resume::<T>, (&raw, &*old(shared)), yes),
        call_ensures(MailboxInnerCore::reregister::<T>, (&raw, shared, token, interest), notified),
        *old(sending) == *final(shared),
        call_ensures(MailboxOuterEnd::send::<T>, (&outer, sending, t), wakeup),
    ensures
        yes <==> old(shared)@.inn.len() > 0,
        interest.readable && yes ==> {
            &&& notified == Some(Wakeup { to: old(shared)@.sender->Some_0, token })
            &&& wakeup is None
        },
        interest.readable && !yes ==> {
            &&& notified is None
            &&& wakeup == Some(
                Wakeup { to: old(shared)@.sender->Some_0, token: old(shared)@.token->Some_0 },
            )
        },
        !interest.readable ==> notified is None && wakeup is None,
        final(shared)@.inn == old(shared)@.inn,
        final(shared)@.key == old(shared)@.key,
        final(shared)@.token == old(shared)@.token,
        final(shared)@.sender == old(shared)@.sender,
{
}

/// One more sending end sends to the same mailbox.
pub proof fn law_sending_ends_share_their_mailbox(end: MailboxOuterEnd, other: MailboxOuterEnd)
    requires
        call_ensures(<MailboxOuterEnd as Clone>::clone, (&end,), other),
    ensures
        other.mailbox() == end.mailbox(),
{
}

} // verus!
