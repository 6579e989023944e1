//! One stop request, from the moment its signal pair is allocated to the
//! moment its outcome is fired. The producer half travels inside the
//! request: each step either fires it or hands it on, never both, so the
//! consumer hears exactly one outcome unless the request itself is dropped.
use vstd::prelude::*;
use crate::lifecycle::Decision;
use crate::lifecycle::Lifecycle;
use crate::lifecycle::Phase;
use crate::lifecycle::StopReport;
use crate::lifecycle::Verdict;
use crate::lifecycle::after_verdict;
use crate::lifecycle::bind_failed;
use crate::lifecycle::published;
use crate::lifecycle::started;
use crate::lifecycle::completed;
use crate::lifecycle::verdict;
use crate::signal::CompletionReceiver;
use crate::signal::CompletionSender;
use crate::signal::Fired;
use crate::signal::completion_pair;

verus! {

/// A stop request that has not decided yet, with the waits it may still
/// spend on a listener that is binding.
pub struct StopRequest {
    sender: CompletionSender,
    attempts: u32,
}

/// A stop request whose listener is being stopped; its outcome is fired by
/// `complete`.
pub struct StopInFlight {
    sender: CompletionSender,
}

/// The result of one step of a stop request.
pub enum StopStep<H> {
    /// Stop this listener gracefully, then call `complete`.
    Invoke(H, StopInFlight),
    /// The listener is still binding: wait a moment and step again.
    Wait(StopRequest),
    /// The outcome was fired at once; the receipt of that fire.
    Resolved(StopReport, Fired),
}

impl<H> StopStep<H> {
    pub open spec fn verdict(&self) -> Verdict {
        match self {
            StopStep::Invoke(_, _) => Verdict::Invoke,
            StopStep::Wait(_) => Verdict::Wait,
            StopStep::Resolved(rep, _) => Verdict::Resolve(*rep),
        }
    }
}

impl StopRequest {
    pub closed spec fn spec_attempts(&self) -> nat {
        self.attempts as nat
    }

    /// Allocates the signal pair of a new stop request that may wait up to
    /// `attempts` times for a binding listener. The consumer is returned
    /// only together with its producer, so it never starts out disconnected.
    pub fn open(attempts: u32) -> (r: (StopRequest, CompletionReceiver))
        ensures
            r.0.spec_attempts() == attempts as nat,
            !r.1.is_finished(),
    {
        let (sender, receiver) = completion_pair();
        (StopRequest { sender, attempts }, receiver)
    }

    pub fn attempts(&self) -> (r: u32)
        ensures
            r as nat == self.spec_attempts(),
    {
        self.attempts
    }

    /// Takes one decision on `lc`. A wait spends one attempt; with none left a
    /// listener that is still binding counts as absent. A resolve fires its
    /// report on this request's signal and returns the receipt; an invoke
    /// hands the producer on to the stop in flight.
    pub fn step<H>(self, lc: &mut Lifecycle<H>) -> (r: StopStep<H>)
        ensures
            r.verdict() == verdict(old(lc).spec_phase(), self.spec_attempts()),
            final(lc).spec_phase() == after_verdict(old(lc).spec_phase()),
            r is Invoke ==> old(lc).spec_slot() == Some(r->Invoke_0) && final(lc).spec_slot().is_none(),
            !(r is Invoke) ==> final(lc).spec_slot() == old(lc).spec_slot(),
            r is Wait ==> r->Wait_0.spec_attempts() + 1 == self.spec_attempts(),
            r is Resolved ==> r->Resolved_1.report() == r->Resolved_0,
            r is Resolved ==> fired_by(r.verdict()) == Some(r->Resolved_1.report()),
            r is Wait ==> fired_by(r.verdict()) is None,
    {
        match lc.decide_stop(self.attempts) {
            Decision::Invoke(h) => StopStep::Invoke(h, StopInFlight { sender: self.sender }),
            Decision::Wait => StopStep::Wait(
                StopRequest { sender: self.sender, attempts: self.attempts - 1 },
            ),
            Decision::Resolve(rep) => {
                let fired = self.sender.fire(rep);
                StopStep::Resolved(rep, fired)
            },
        }
    }
}

impl StopInFlight {
    /// Records that the graceful stop has completed, fires `Stopped` and
    /// returns the receipt.
    pub fn complete<H>(self, lc: &mut Lifecycle<H>) -> (r: Fired)
        ensures
            final(lc).spec_phase() == completed(old(lc).spec_phase()),
            final(lc).spec_slot() == old(lc).spec_slot(),
            r.report() == StopReport::Stopped,
            fired_by(Verdict::Invoke) == Some(r.report()),
    {
        let _ = lc.finish_stop();
        self.sender.fire(StopReport::Stopped)
    }
}


/// The report that a step with verdict `v` fires on the request's signal: a
/// wait fires nothing, a resolve fires its report at once, and an invoke
/// fires `Stopped` when the stop completes.
pub open spec fn fired_by(v: Verdict) -> Option<StopReport> {
    match v {
        Verdict::Wait => None,
        Verdict::Resolve(rep) => Some(rep),
        Verdict::Invoke => Some(StopReport::Stopped),
    }
}

/// The verdicts a stop request takes, step by step, when its i-th step
/// observes the phase `observed[i]` and it starts with `attempts` waits: all
/// of its waits, then its one decision. The phases may change between steps,
/// as the worker publishes or fails concurrently.
pub open spec fn run_verdicts(observed: Seq<Phase>, attempts: nat) -> Seq<Verdict>
    decreases observed.len(),
{
    if observed.len() == 0 {
        seq![]
    } else {
        let v = verdict(observed[0], attempts);
        if v == Verdict::Wait {
            seq![v] + run_verdicts(observed.drop_first(), (attempts - 1) as nat)
        } else {
            seq![v]
        }
    }
}

/// A stop request always decides, and within `attempts + 1` steps, whatever
/// phases it observes along the way: it never waits forever, and its last
/// step is one that fires a report.
pub proof fn lemma_stop_decides_within_bound(observed: Seq<Phase>, attempts: nat)
    requires
        observed.len() > attempts,
    ensures
        1 <= run_verdicts(observed, attempts).len() <= attempts + 1,
        run_verdicts(observed, attempts).last() != Verdict::Wait,
        fired_by(run_verdicts(observed, attempts).last()) is Some,
    decreases observed.len(),
{
    let v = verdict(observed[0], attempts);
    if v == Verdict::Wait {
        let rest = observed.drop_first();
        lemma_stop_decides_within_bound(rest, (attempts - 1) as nat);
        let tail = run_verdicts(rest, (attempts - 1) as nat);
        assert(run_verdicts(observed, attempts) == seq![v] + tail);
        assert((seq![v] + tail).last() == tail.last());
    }
}

/// Over the run of a stop request exactly one step fires a report: every step
/// but the last is a wait, which fires nothing, and the last is a decision,
/// which fires (at once on `Resolve`, on completion after `Invoke`).
pub proof fn lemma_stop_fires_exactly_once(observed: Seq<Phase>, attempts: nat)
    requires
        observed.len() > attempts,
    ensures
        forall|i: int|
            0 <= i < run_verdicts(observed, attempts).len() - 1
                ==> run_verdicts(observed, attempts)[i] == Verdict::Wait
                && fired_by(run_verdicts(observed, attempts)[i]) is None,
        run_verdicts(observed, attempts).last() != Verdict::Wait,
        fired_by(run_verdicts(observed, attempts).last()) is Some,
    decreases observed.len(),
{
    lemma_stop_decides_within_bound(observed, attempts);
    let v = verdict(observed[0], attempts);
    if v == Verdict::Wait {
        let rest = observed.drop_first();
        lemma_stop_fires_exactly_once(rest, (attempts - 1) as nat);
        let tail = run_verdicts(rest, (attempts - 1) as nat);
        let run = seq![v] + tail;
        assert(run_verdicts(observed, attempts) == run);
        assert forall|i: int| 0 <= i < run.len() - 1 implies run[i] == Verdict::Wait by {
            if i > 0 {
                assert(run[i] == tail[i - 1]);
            }
        }
    }
}

/// Once a stop request has invoked the listener's stop, every later request,
/// whatever its wait budget and whether or not the stop has completed,
/// resolves at once and fires `AlreadyStopped`, without invoking it again.
pub proof fn lemma_second_stop_is_already_stopped(p: Phase, first: nat, second: nat)
    requires
        verdict(p, first) == Verdict::Invoke,
    ensures
        verdict(after_verdict(p), second) == Verdict::Resolve(StopReport::AlreadyStopped),
        verdict(completed(after_verdict(p)), second) == Verdict::Resolve(
            StopReport::AlreadyStopped,
        ),
        fired_by(verdict(after_verdict(p), second)) == Some(StopReport::AlreadyStopped),
        fired_by(verdict(completed(after_verdict(p)), second)) == Some(
            StopReport::AlreadyStopped,
        ),
{
}

/// A start whose bind fails never reaches `Running`: a later publish is
/// refused, a later start too, and every stop request resolves at once and
/// fires `NoListener`.
pub proof fn lemma_failed_bind_means_no_listener(attempts: nat)
    ensures
        ({
            let p = bind_failed(started(Phase::NotStarted));
            &&& p == Phase::Failed
            &&& published(p) == p
            &&& started(p) == p
            &&& verdict(p, attempts) == Verdict::Resolve(StopReport::NoListener)
            &&& fired_by(verdict(p, attempts)) == Some(StopReport::NoListener)
        }),
{
}

} // verus!
