//! A model of how a computation fails and cleans up.
//!
//! A computation is `Running` until a failure is raised; it is then
//! `Unwinding` while the failure propagates outward through nested scopes.
//! A catch boundary converts the failure into an ordinary error value and
//! the computation is `Recovered`. If a destructor itself raises a failure
//! while cleanup is already unwinding, the process is `Aborted`: terminal,
//! and not catchable by any boundary.
//!
//! While unwinding reaches a boundary, every scope between the raise point
//! and the boundary destructs its live owned resources in reverse order of
//! their construction.

use vstd::prelude::*;

verus! {

/// The state of one computation (one worker's stack).
#[derive(Clone, Copy, PartialEq, Eq, Structural, Debug)]
pub enum Phase {
    /// Normal control flow.
    Running,
    /// A failure has been raised and is propagating outward.
    Unwinding,
    /// An enclosing boundary caught the failure and converted it to a value.
    Recovered,
    /// Terminal: the process stops at once and no further cleanup runs.
    Aborted,
}

/// An event that can change a computation's phase.
#[derive(Clone, Copy, PartialEq, Eq, Structural, Debug)]
pub enum Event {
    /// A failure is raised by ordinary code.
    Raise,
    /// An enclosing catch boundary intercepts the propagating failure.
    CatchBoundary,
    /// A destructor raises a failure of its own during unwinding cleanup.
    DestructorFailure,
}

/// What the phase becomes when an event hits it.
pub open spec fn spec_step(p: Phase, e: Event) -> Phase {
    match (p, e) {
        (Phase::Running, Event::Raise) => Phase::Unwinding,
        (Phase::Unwinding, Event::CatchBoundary) => Phase::Recovered,
        (Phase::Unwinding, Event::DestructorFailure) => Phase::Aborted,
        _ => p,
    }
}

/// Advances a computation's phase by one event. A raise starts unwinding; a
/// boundary recovers an unwinding computation; a destructor failure during
/// unwinding aborts. Every other combination, in particular any event
/// reaching an aborted computation, changes nothing: `Aborted` is terminal
/// and no boundary catches it.
pub fn step(p: Phase, e: Event) -> (q: Phase)
    ensures
        q == spec_step(p, e),
        p == Phase::Aborted ==> q == Phase::Aborted,
{
    match (p, e) {
        (Phase::Running, Event::Raise) => Phase::Unwinding,
        (Phase::Unwinding, Event::CatchBoundary) => Phase::Recovered,
        (Phase::Unwinding, Event::DestructorFailure) => Phase::Aborted,
        _ => p,
    }
}

/// Once aborted, always aborted: no sequence of events, and in particular
/// no catch boundary, leaves the terminal phase.
pub proof fn lemma_aborted_is_terminal(e: Event)
    ensures
        spec_step(Phase::Aborted, e) == Phase::Aborted,
{
}

/// What a raised failure carries to the catch boundary or the joiner. The
/// payload itself is outside this model; only its presence matters here.
#[derive(Clone, Copy, PartialEq, Eq, Structural, Debug)]
pub struct FailureInfo {
    /// Whether the failure was raised while cleanup was already unwinding,
    /// in which case it escalated instead of propagating.
    pub during_cleanup: bool,
}

/// One computation together with the owned resources its live scopes hold,
/// identified by number, in order of construction.
pub struct Computation {
    phase: Phase,
    live: Vec<u64>,
}

impl Computation {
    /// The computation's phase.
    pub closed spec fn phase(self) -> Phase {
        self.phase
    }

    /// The identities of the owned resources still live, oldest first.
    pub closed spec fn live(self) -> Seq<u64> {
        self.live@
    }

    /// A fresh computation: running, owning nothing yet.
    pub fn new() -> (c: Computation)
        ensures
            c.phase() == Phase::Running,
            c.live() == Seq::<u64>::empty(),
    {
        Computation { phase: Phase::Running, live: Vec::new() }
    }

    /// A running scope constructs (acquires) one more owned resource; it
    /// becomes the youngest live one.
    pub fn acquire(&mut self, id: u64)
        requires
            old(self).phase() == Phase::Running,
        ensures
            final(self).phase() == Phase::Running,
            final(self).live() == old(self).live().push(id),
    {
        self.live.push(id);
    }

    /// A failure is raised: the computation starts unwinding. Nothing is
    /// destructed yet; that happens on the way to the boundary.
    pub fn raise(&mut self)
        requires
            old(self).phase() == Phase::Running,
        ensures
            final(self).phase() == Phase::Unwinding,
            final(self).live() == old(self).live(),
    {
        self.phase = step(self.phase, Event::Raise);
    }

    /// Unwinding reaches an enclosing catch boundary: every live owned
    /// resource between the raise point and the boundary is destructed, in
    /// reverse order of construction, and only then does the boundary
    /// resume normal control with the failure as a value.
    pub fn catch_at_boundary(&mut self) -> (r: (Vec<u64>, FailureInfo))
        requires
            old(self).phase() == Phase::Unwinding,
        ensures
            final(self).phase() == Phase::Recovered,
            final(self).live() == Seq::<u64>::empty(),
            r.0@ == old(self).live().reverse(),
            !r.1.during_cleanup,
    {
        let ghost entry = self.live@;
        let mut dropped: Vec<u64> = Vec::new();
        while self.live.len() > 0
            invariant
                self.phase == Phase::Unwinding,
                dropped@.len() <= entry.len(),
                self.live@ == entry.take(entry.len() - dropped@.len()),
                forall|i: int|
                    0 <= i < dropped@.len() ==> dropped@[i] == entry[entry.len() - 1 - i],
            decreases self.live@.len(),
        {
            let id = self.live.pop().unwrap();
            dropped.push(id);
        }
        self.phase = step(self.phase, Event::CatchBoundary);
        proof {
            assert(dropped@ =~= entry.reverse());
        }
        (dropped, FailureInfo { during_cleanup: false })
    }

    /// A destructor raises a failure of its own while cleanup is already
    /// unwinding: the runtime cannot continue with two overlapping failures
    /// and the process terminates at once. No boundary catches this, and no
    /// further resource is cleaned up.
    pub fn destructor_failure(&mut self)
        requires
            old(self).phase() == Phase::Unwinding,
        ensures
            final(self).phase() == Phase::Aborted,
            final(self).live() == old(self).live(),
    {
        self.phase = step(self.phase, Event::DestructorFailure);
    }
}

/// Joins a finished worker from another computation. The worker's failure,
/// if any, reaches the joiner only as an ordinary error value: the joiner's
/// own phase and resources are untouched whatever happened in the worker.
/// An aborted worker has already terminated the whole process, so there is
/// no join to perform on one.
pub fn join(joiner: &mut Computation, worker_phase: Phase) -> (r: Result<(), FailureInfo>)
    requires
        worker_phase != Phase::Aborted,
    ensures
        final(joiner).phase() == old(joiner).phase(),
        final(joiner).live() == old(joiner).live(),
        r is Err <==> worker_phase == Phase::Unwinding,
{
    if worker_phase == Phase::Unwinding {
        Err(FailureInfo { during_cleanup: false })
    } else {
        Ok(())
    }
}

} // verus!
