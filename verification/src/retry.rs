//! Sending messages to event loops whose queues may be full for a while.

use vstd::prelude::*;

verus! {

/// How many times a message is sent again before it is given up.
pub const MAX_RETRIES: u32 = 20000;

/// What came of one attempt to send a message to an event loop.
#[derive(Copy, Clone, Debug, Eq, PartialEq, Structural)]
pub enum SendOutcome {
    /// The message is on its way.
    Sent,
    /// The queue was full; the message came back.
    Full,
    /// The event loop is gone.
    Closed,
    /// The event loop could not be woken up.
    Io,
}

/// Why a message is given up.
#[derive(Copy, Clone, Debug, Eq, PartialEq, Structural)]
pub enum RetryPanic {
    /// Closed channel.
    Closed,
    /// IO error.
    Io,
    /// The queue stays full, the process hangs.
    QueueFull,
}

/// What follows one attempt.
#[derive(Copy, Clone, Debug, Eq, PartialEq, Structural)]
pub enum RetryStep {
    /// Nothing more is to be done.
    Done,
    /// Panic.
    Panic(RetryPanic),
    /// Let other native threads run, then try again.
    Retry {
        /// Warn that the queue is too small.
        warn: bool,
    },
}

/// The course of sending one message.
#[derive(Copy, Clone, Debug, Eq, PartialEq, Structural)]
pub struct SenderRetry {
    /// How many times the queue was full.
    pub counter: u32,
    /// A warning was printed.
    pub warning_printed: bool,
}

impl SenderRetry {
    /// The message was not sent yet.
    pub fn new() -> (made: Self)
        ensures
            made == (SenderRetry { counter: 0, warning_printed: false }),
    {
        SenderRetry { counter: 0, warning_printed: false }
    }

    /// The course after the queue was full once more, and what follows.
    pub open spec fn full(self) -> (SenderRetry, RetryStep) {
        if self.counter >= MAX_RETRIES {
            (
                SenderRetry { counter: (self.counter + 1) as u32, ..self },
                RetryStep::Panic(RetryPanic::QueueFull),
            )
        } else {
            (
                SenderRetry { counter: (self.counter + 1) as u32, warning_printed: true },
                RetryStep::Retry { warn: !self.warning_printed },
            )
        }
    }
}

/// Decides what follows one attempt to send.
///
/// As channels can fail randomly (eg. when full), take care of retrying on recoverable errors.
pub fn sender_retry(retry: &mut SenderRetry, outcome: SendOutcome) -> (step: RetryStep)
    requires
        old(retry).counter < u32::MAX,
    ensures
        match outcome {
            SendOutcome::Sent => step is Done && *final(retry) == *old(retry),
            SendOutcome::Closed => step == RetryStep::Panic(RetryPanic::Closed) && *final(retry)
                == *old(retry),
            SendOutcome::Io => step == RetryStep::Panic(RetryPanic::Io) && *final(retry) == *old(
                retry,
            ),
            SendOutcome::Full => (*final(retry), step) == old(retry).full(),
        },
{
    match outcome {
        SendOutcome::Sent => {
            return RetryStep::Done;
        },
        SendOutcome::Closed => {
            return RetryStep::Panic(RetryPanic::Closed);
        },
        SendOutcome::Io => {
            return RetryStep::Panic(RetryPanic::Io);
        },
        SendOutcome::Full => {
            retry.counter = retry.counter + 1;
        },
    }

    if retry.counter > MAX_RETRIES {
        return RetryStep::Panic(RetryPanic::QueueFull);
    }
    let warn: bool = !retry.warning_printed;
    retry.warning_printed = true;
    RetryStep::Retry { warn }
}

/// The course of sending a message after the queue was full `n` times in a row.
pub open spec fn full_times(n: nat) -> SenderRetry
    decreases n,
{
    if n == 0 {
        SenderRetry { counter: 0, warning_printed: false }
    } else {
        full_times((n - 1) as nat).full().0
    }
}

/// A message is sent again 20000 times and no more often; the warning comes with the first time
/// only.
pub proof fn law_retries_are_bounded(n: nat)
    requires
        n <= MAX_RETRIES,
    ensures
        full_times(n).counter == n,
        full_times(n).full().1 == if n < MAX_RETRIES {
            RetryStep::Retry { warn: n == 0 }
        } else {
            RetryStep::Panic(RetryPanic::QueueFull)
        },
    decreases n,
{
    if n > 0 {
        law_retries_are_bounded((n - 1) as nat);
    }
    if n > 1 {
        law_retries_are_bounded((n - 2) as nat);
    }
}

/// A message that was sent needs nothing more, one that cannot be sent is given up for that reason,
/// and one that finds the queue full is tried again, as long as that has not happened too often.
/// There is a warning if there was none before.
pub proof fn law_only_full_queues_are_retried(
    retry: &mut SenderRetry,
    outcome: SendOutcome,
    step: RetryStep,
    fresh: SenderRetry,
)
    requires
        old(retry).counter < u32::MAX,
        call_ensures(sender_retry, (retry, outcome), step),
        call_ensures(SenderRetry::new, (), fresh),
    ensures
        fresh.counter == 0,
        !fresh.warning_printed,
        step is Done <==> outcome is Sent,
        outcome is Closed <==> step == RetryStep::Panic(RetryPanic::Closed),
        outcome is Io <==> step == RetryStep::Panic(RetryPanic::Io),
        outcome is Full ==> {
            &&& final(retry).counter == old(retry).counter + 1
            &&& old(retry).counter < 20000 ==> {
                &&& step == RetryStep::Retry { warn: !old(retry).warning_printed }
                &&& final(retry).warning_printed
            }
            &&& old(retry).counter >= 20000 ==> step == RetryStep::Panic(RetryPanic::QueueFull)
        },
        !(outcome is Full) ==> *final(retry) == *old(retry),
{
}

} // verus!
