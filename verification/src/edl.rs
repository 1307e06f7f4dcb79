//! Entry, descent and landing: the phases a descending vehicle goes through,
//! and the decisions of the descent loop that records one sample per step.

use vstd::prelude::*;

verus! {

/// Flight regime of an entry vehicle at one sample of its descent.
#[derive(Debug, Clone, Copy, PartialEq, Eq, Structural)]
pub enum EdlPhase {
    Hypersonic,
    Parachute,
    Landed,
}

/// The phase of a sample, from whether the vehicle is at or below the ground
/// and whether it is below the parachute deployment altitude.
pub open spec fn phase_of(grounded: bool, below_chute: bool) -> EdlPhase {
    if grounded {
        EdlPhase::Landed
    } else if below_chute {
        EdlPhase::Parachute
    } else {
        EdlPhase::Hypersonic
    }
}

impl EdlPhase {
    /// Whether the parachute, rather than the aeroshell, sets the drag area.
    pub fn parachute_deployed(&self) -> (r: bool)
        ensures
            r == (*self == EdlPhase::Parachute),
    {
        match self {
            EdlPhase::Parachute => true,
            _ => false,
        }
    }
}

/// Classifies a sample: landed at or below the ground, under canopy below the
/// deployment altitude, hypersonic above it.
pub fn classify(grounded: bool, below_chute: bool) -> (p: EdlPhase)
    ensures
        p == phase_of(grounded, below_chute),
{
    if grounded {
        EdlPhase::Landed
    } else if below_chute {
        EdlPhase::Parachute
    } else {
        EdlPhase::Hypersonic
    }
}


/// The decisions of the descent loop, with the phases of the samples it has
/// recorded. One sample is recorded per step; a sample taken at or below the
/// ground is recorded as landed and ends the descent, and the descent also
/// ends when a step carries the clock past its safety cap.
pub struct DescentLog {
    phases: Vec<EdlPhase>,
    finished: bool,
}

impl DescentLog {
    /// Phases of the samples recorded so far, oldest first.
    pub closed spec fn phases(&self) -> Seq<EdlPhase> {
        self.phases@
    }

    /// Whether the descent has ended.
    pub closed spec fn is_done(&self) -> bool {
        self.finished
    }

    /// A landed sample is only ever the last one, and only a descent that has
    /// ended holds one.
    pub closed spec fn wf(&self) -> bool {
        &&& forall|i: int|
            0 <= i < self.phases@.len() - 1 ==> self.phases@[i] != EdlPhase::Landed
        &&& !self.finished ==> forall|i: int|
            0 <= i < self.phases@.len() ==> self.phases@[i] != EdlPhase::Landed
    }

    /// A descent that has recorded nothing yet.
    pub fn new() -> (log: Self)
        ensures
            log.wf(),
            log.phases() == Seq::<EdlPhase>::empty(),
            !log.is_done(),
    {
        DescentLog { phases: Vec::new(), finished: false }
    }

    /// Records the sample taken at the top of a step and returns its phase.
    /// A sample at or below the ground is landed and ends the descent.
    pub fn observe(&mut self, grounded: bool, below_chute: bool) -> (p: EdlPhase)
        requires
            old(self).wf(),
            !old(self).is_done(),
        ensures
            final(self).wf(),
            p == phase_of(grounded, below_chute),
            final(self).phases() == old(self).phases().push(p),
            final(self).is_done() == grounded,
    {
        let p = classify(grounded, below_chute);
        self.phases.push(p);
        self.finished = grounded;
        p
    }

    /// Ends a step of integration: the descent goes on unless the clock has
    /// passed its safety cap.
    pub fn advance(&mut self, past_cap: bool)
        requires
            old(self).wf(),
            !old(self).is_done(),
        ensures
            final(self).wf(),
            final(self).phases() == old(self).phases(),
            final(self).is_done() == past_cap,
    {
        self.finished = past_cap;
    }

    /// Whether the descent has ended.
    pub fn is_finished(&self) -> (r: bool)
        ensures
            r == self.is_done(),
    {
        self.finished
    }

    /// Number of samples recorded so far.
    pub fn len(&self) -> (n: usize)
        ensures
            n == self.phases().len(),
    {
        self.phases.len()
    }

    /// Phase of the sample at `i`, oldest first.
    pub fn phase_at(&self, i: usize) -> (p: EdlPhase)
        requires
            i < self.phases().len(),
        ensures
            p == self.phases()[i as int],
    {
        self.phases[i]
    }
}

/// A landed sample ends a descent: in any log that the descent loop can
/// build, every sample but the last is airborne, a log whose last sample is
/// landed has ended, and a log that has not ended holds no landed sample.
pub proof fn landed_ends_descent(log: &DescentLog)
    requires
        log.wf(),
    ensures
        forall|i: int| 0 <= i < log.phases().len() - 1 ==> log.phases()[i] != EdlPhase::Landed,
        (log.phases().len() > 0 && log.phases().last() == EdlPhase::Landed) ==> log.is_done(),
        !log.is_done() ==> forall|i: int|
            0 <= i < log.phases().len() ==> log.phases()[i] != EdlPhase::Landed,
{
}

/// The parachute sets the drag area exactly for samples that are airborne
/// and below the deployment altitude.
pub proof fn chute_drag_below_deploy_altitude(grounded: bool, below_chute: bool)
    ensures
        (phase_of(grounded, below_chute) == EdlPhase::Parachute) <==> (!grounded && below_chute),
        (phase_of(grounded, below_chute) == EdlPhase::Landed) <==> grounded,
{
}

} // verus!
