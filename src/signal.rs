//! The completion signal: a one-shot channel that carries the outcome of one
//! stop request from the task that performs it to the caller that waits.
use vstd::prelude::*;
use tokio::sync::oneshot::Receiver;
use tokio::sync::oneshot::Sender;
use tokio::sync::oneshot::error::RecvError;
use tokio::sync::oneshot::error::TryRecvError;
use crate::lifecycle::StopReport;

verus! {

/// tokio's one-shot producer, carried opaquely.
#[verifier::external_type_specification]
#[verifier::external_body]
#[verifier::reject_recursive_types(T)]
pub struct ExSender<T>(Sender<T>);

/// tokio's one-shot consumer, carried opaquely; callers may await it.
#[verifier::external_type_specification]
#[verifier::external_body]
#[verifier::reject_recursive_types(T)]
pub struct ExReceiver<T>(Receiver<T>);

/// The error of awaiting tokio's one-shot consumer. Nothing here awaits; the
/// declaration is needed because the consumer's `Future` impl names it.
#[verifier::external_type_specification]
#[verifier::external_body]
pub struct ExRecvError(RecvError);

/// Relies on tokio::sync::oneshot::channel: a fresh, connected pair.
#[verifier::external_body]
fn open_channel() -> (r: (Sender<StopReport>, Receiver<StopReport>)) {
    tokio::sync::oneshot::channel()
}

/// Relies on tokio::sync::oneshot::Sender::send: it consumes the sender and
/// stores `report` for the receiver; `Ok` says the receiver was still there.
#[verifier::external_body]
fn send_report(tx: Sender<StopReport>, report: StopReport) -> (r: Fired)
    ensures
        r.report() == report,
{
    Fired { report: Ghost(report), delivered: tx.send(report).is_ok() }
}

/// Relies on tokio::sync::oneshot::Receiver::try_recv: `Ok` with the value
/// sent, `Empty` while nothing was sent, `Closed` once the sender was dropped
/// unused or the value was already taken.
#[verifier::external_body]
fn try_take(rx: &mut Receiver<StopReport>) -> (r: SignalPoll) {
    match rx.try_recv() {
        Ok(report) => SignalPoll::Ready(report),
        Err(TryRecvError::Empty) => SignalPoll::Pending,
        Err(TryRecvError::Closed) => SignalPoll::Disconnected,
    }
}

/// What the consumer observes when it looks at the signal.
#[derive(Clone, Copy, Debug, PartialEq, Eq, Structural)]
pub enum SignalPoll {
    /// The producer fired with this outcome.
    Ready(StopReport),
    /// The producer has not fired yet.
    Pending,
    /// The producer was dropped without firing, or the outcome was already
    /// taken: the result of the stop is unknown to this consumer.
    Disconnected,
}

/// The receipt of one fire: which report was sent, and whether the consumer
/// was still there to receive it. Only a send makes one.
pub struct Fired {
    report: Ghost<StopReport>,
    delivered: bool,
}

impl Fired {
    /// The report that was sent.
    pub closed spec fn report(&self) -> StopReport {
        self.report@
    }

    /// Whether the consumer still existed when the report was sent.
    pub fn delivered(&self) -> bool {
        self.delivered
    }
}

/// The producer half. `fire` consumes it, so it fires at most once.
pub struct CompletionSender {
    tx: Sender<StopReport>,
}

/// The consumer half. It yields the outcome at most once.
pub struct CompletionReceiver {
    rx: Option<Receiver<StopReport>>,
}

/// Allocates a connected producer/consumer pair.
pub fn completion_pair() -> (r: (CompletionSender, CompletionReceiver))
    ensures
        !r.1.is_finished(),
{
    let (tx, rx) = open_channel();
    (CompletionSender { tx }, CompletionReceiver { rx: Some(rx) })
}

impl CompletionSender {
    /// Sends `report` to the consumer and returns the receipt. Firing after
    /// the consumer was dropped is no error: the receipt says it was not
    /// delivered.
    pub fn fire(self, report: StopReport) -> (r: Fired)
        ensures
            r.report() == report,
    {
        send_report(self.tx, report)
    }
}

impl CompletionReceiver {
    /// True once the consumer has observed a final outcome.
    pub closed spec fn is_finished(&self) -> bool {
        self.rx.is_none()
    }

    /// Looks at the signal without waiting. A final outcome (`Ready` or
    /// `Disconnected`) is observed once; every later look gives
    /// `Disconnected`.
    pub fn poll(&mut self) -> (r: SignalPoll)
        ensures
            old(self).is_finished() ==> r == SignalPoll::Disconnected,
            r == SignalPoll::Pending ==> !final(self).is_finished(),
            r != SignalPoll::Pending ==> final(self).is_finished(),
    {
        match self.rx.take() {
            None => SignalPoll::Disconnected,
            Some(mut rx) => {
                let r = try_take(&mut rx);
                if r == SignalPoll::Pending {
                    self.rx = Some(rx);
                }
                r
            },
        }
    }

    /// Hands out the underlying receiver for awaiting, unless a final outcome
    /// was already observed.
    pub fn into_receiver(self) -> (r: Option<Receiver<StopReport>>)
        ensures
            r.is_none() <==> self.is_finished(),
    {
        self.rx
    }
}

} // verus!
