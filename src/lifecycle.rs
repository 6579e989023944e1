//! The phases of a listener's life and the decisions taken on each event.
use vstd::prelude::*;

verus! {

/// Where the listener stands. The order of a normal life is
/// `NotStarted`, `Starting`, `Running`, `Stopping`, `Stopped`; a failed bind
/// ends in `Failed` instead of `Running`.
#[derive(Clone, Copy, Debug, PartialEq, Eq, Structural)]
pub enum Phase {
    NotStarted,
    Starting,
    Running,
    Stopping,
    Stopped,
    Failed,
}

/// How a stop request ended, as carried by the completion signal.
#[derive(Clone, Copy, Debug, PartialEq, Eq, Structural)]
pub enum StopReport {
    /// The running listener was stopped gracefully.
    Stopped,
    /// No listener was ever published: start was never called, the bind
    /// failed, or the handle did not appear within the wait budget.
    NoListener,
    /// An earlier stop request already acted on the listener.
    AlreadyStopped,
}

/// Why `start` refused.
#[derive(Clone, Copy, Debug, PartialEq, Eq, Structural)]
pub enum StartError {
    /// The controller has already been started once; there is no restart.
    AlreadyStarted,
}

/// What a stop request does next, leaving the handle itself out.
#[derive(Clone, Copy, Debug, PartialEq, Eq, Structural)]
pub enum Verdict {
    /// Invoke the listener's graceful stop.
    Invoke,
    /// The listener is still binding: wait, then ask again.
    Wait,
    /// Nothing to stop: report at once.
    Resolve(StopReport),
}

/// A stop request's decision, with the handle to stop on `Invoke`.
pub enum Decision<H> {
    Invoke(H),
    Wait,
    Resolve(StopReport),
}

impl<H> Decision<H> {
    pub open spec fn verdict(&self) -> Verdict {
        match self {
            Decision::Invoke(_) => Verdict::Invoke,
            Decision::Wait => Verdict::Wait,
            Decision::Resolve(rep) => Verdict::Resolve(*rep),
        }
    }
}

/// Phase after a start request.
pub open spec fn started(p: Phase) -> Phase {
    if p == Phase::NotStarted { Phase::Starting } else { p }
}

/// Phase after the worker published the handle of a bound listener.
pub open spec fn published(p: Phase) -> Phase {
    if p == Phase::Starting { Phase::Running } else { p }
}

/// Phase after the worker reported that binding failed.
pub open spec fn bind_failed(p: Phase) -> Phase {
    if p == Phase::Starting { Phase::Failed } else { p }
}

/// What a stop request decides in phase `p` with `attempts` waits left.
pub open spec fn verdict(p: Phase, attempts: nat) -> Verdict {
    match p {
        Phase::Running => Verdict::Invoke,
        Phase::Starting => if attempts > 0 {
            Verdict::Wait
        } else {
            Verdict::Resolve(StopReport::NoListener)
        },
        Phase::NotStarted | Phase::Failed => Verdict::Resolve(StopReport::NoListener),
        Phase::Stopping | Phase::Stopped => Verdict::Resolve(StopReport::AlreadyStopped),
    }
}

/// Phase after a stop request has decided.
pub open spec fn after_verdict(p: Phase) -> Phase {
    if p == Phase::Running { Phase::Stopping } else { p }
}

/// Phase after the listener's graceful stop has completed.
pub open spec fn completed(p: Phase) -> Phase {
    if p == Phase::Stopping { Phase::Stopped } else { p }
}


/// The slot is written at most once: `Starting`, the only phase in which a
/// publish is accepted, is entered only from `NotStarted`, and no event leads
/// back to either of them once the controller has left them.
pub proof fn lemma_publish_accepted_once(p: Phase)
    requires
        p != Phase::NotStarted,
        p != Phase::Starting,
    ensures
        started(p) == p,
        published(p) == p,
        bind_failed(p) == p,
        after_verdict(p) != Phase::Starting && after_verdict(p) != Phase::NotStarted,
        completed(p) != Phase::Starting && completed(p) != Phase::NotStarted,
{
}

/// The controller's shared state: the phase and the handle slot. The slot
/// holds a handle exactly while the listener is `Running`, is filled once by
/// `publish` and emptied once by the stop request that invokes the stop.
pub struct Lifecycle<H> {
    phase: Phase,
    slot: Option<H>,
}

impl<H> Lifecycle<H> {
    /// The slot is full exactly in the `Running` phase.
    #[verifier::type_invariant]
    spec fn wf(&self) -> bool {
        self.slot.is_some() <==> self.phase == Phase::Running
    }

    pub closed spec fn spec_phase(&self) -> Phase {
        self.phase
    }

    pub closed spec fn spec_slot(&self) -> Option<H> {
        self.slot
    }

    /// A controller that has not been started; its slot is empty.
    pub fn new() -> (r: Self)
        ensures
            r.spec_phase() == Phase::NotStarted,
            r.spec_slot().is_none(),
    {
        Lifecycle { phase: Phase::NotStarted, slot: None }
    }

    /// The current phase; a handle is held exactly while it is `Running`.
    pub fn phase(&self) -> (r: Phase)
        ensures
            r == self.spec_phase(),
            r == Phase::Running <==> self.spec_slot().is_some(),
    {
        proof { use_type_invariant(self); }
        self.phase
    }

    /// Records a start request. Only the first one is accepted.
    pub fn start(&mut self) -> (r: Result<(), StartError>)
        ensures
            final(self).spec_phase() == started(old(self).spec_phase()),
            final(self).spec_slot() == old(self).spec_slot(),
            r is Ok <==> old(self).spec_phase() == Phase::NotStarted,
            r is Err ==> r == Err::<(), StartError>(StartError::AlreadyStarted),
    {
        proof { use_type_invariant(&*self); }
        if self.phase == Phase::NotStarted {
            self.phase = Phase::Starting;
            Ok(())
        } else {
            Err(StartError::AlreadyStarted)
        }
    }

    /// Stores the handle of a freshly bound listener. The slot is written at
    /// most once: outside `Starting` the handle is handed back untouched.
    pub fn publish(&mut self, handle: H) -> (r: Result<(), H>)
        ensures
            final(self).spec_phase() == published(old(self).spec_phase()),
            r is Ok <==> old(self).spec_phase() == Phase::Starting,
            r is Ok ==> final(self).spec_slot() == Some(handle),
            r is Err ==> r == Err::<(), H>(handle) && final(self).spec_slot() == old(self).spec_slot(),
    {
        proof { use_type_invariant(&*self); }
        if self.phase == Phase::Starting {
            *self = Lifecycle { phase: Phase::Running, slot: Some(handle) };
            Ok(())
        } else {
            Err(handle)
        }
    }

    /// Records that the worker could not bind. Returns whether the phase
    /// changed, which happens only while `Starting`.
    pub fn fail_bind(&mut self) -> (r: bool)
        ensures
            final(self).spec_phase() == bind_failed(old(self).spec_phase()),
            final(self).spec_slot() == old(self).spec_slot(),
            r <==> old(self).spec_phase() == Phase::Starting,
    {
        proof { use_type_invariant(&*self); }
        if self.phase == Phase::Starting {
            self.phase = Phase::Failed;
            true
        } else {
            false
        }
    }

    /// Decides a stop request with `attempts` waits left. On `Invoke` the
    /// handle leaves the slot, so no later request can invoke the stop again.
    pub fn decide_stop(&mut self, attempts: u32) -> (r: Decision<H>)
        ensures
            r.verdict() == verdict(old(self).spec_phase(), attempts as nat),
            final(self).spec_phase() == after_verdict(old(self).spec_phase()),
            r is Invoke ==> old(self).spec_slot() == Some(r->Invoke_0) && final(self).spec_slot().is_none(),
            !(r is Invoke) ==> final(self).spec_slot() == old(self).spec_slot(),
    {
        proof { use_type_invariant(&*self); }
        match self.phase {
            Phase::Running => {
                let mut running = Lifecycle { phase: Phase::Stopping, slot: None };
                std::mem::swap(self, &mut running);
                proof { use_type_invariant(&running); }
                match running.slot {
                    Some(h) => Decision::Invoke(h),
                    None => Decision::Resolve(StopReport::AlreadyStopped),
                }
            },
            Phase::Starting => {
                if attempts > 0 {
                    Decision::Wait
                } else {
                    Decision::Resolve(StopReport::NoListener)
                }
            },
            Phase::NotStarted | Phase::Failed => Decision::Resolve(StopReport::NoListener),
            Phase::Stopping | Phase::Stopped => Decision::Resolve(StopReport::AlreadyStopped),
        }
    }

    /// Records that the listener's graceful stop has completed.
    pub fn finish_stop(&mut self) -> (r: bool)
        ensures
            final(self).spec_phase() == completed(old(self).spec_phase()),
            final(self).spec_slot() == old(self).spec_slot(),
            r <==> old(self).spec_phase() == Phase::Stopping,
    {
        proof { use_type_invariant(&*self); }
        if self.phase == Phase::Stopping {
            self.phase = Phase::Stopped;
            true
        } else {
            false
        }
    }
}

} // verus!
