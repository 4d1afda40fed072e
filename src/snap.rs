use vstd::prelude::*;

verus! {

/// The kind of snap search made for one candidate point.
#[derive(Clone, Copy, Debug, PartialEq, Eq, Structural)]
pub enum SnapProbe {
    /// Along the line from the candidate towards the pivot (aspect-locked resize).
    TowardPivot,
    /// Along the box's local x axis (only horizontal edges can move).
    AlongX,
    /// Along the box's local y axis (only vertical edges can move).
    AlongY,
    /// Along the total drag vector (axis-aligned drag).
    AlongDrag,
    /// Unconstrained search.
    Free,
}

/// The probe a whole-selection drag uses for each candidate.
pub open spec fn drag_probe_spec(axis_align: bool) -> SnapProbe {
    if axis_align {
        SnapProbe::AlongDrag
    } else {
        SnapProbe::Free
    }
}

/// Chooses the snap probe of a whole-selection drag: a line search along the
/// drag when it is axis-aligned, else a free search.
pub fn drag_probe(axis_align: bool) -> (r: SnapProbe)
    ensures
        r == drag_probe_spec(axis_align),
{
    if axis_align {
        SnapProbe::AlongDrag
    } else {
        SnapProbe::Free
    }
}

/// What one snap probe gave, as far as the choice of the best snap is concerned.
#[derive(Clone, Copy, Debug, PartialEq, Eq, Structural)]
pub enum ProbeOutcome {
    /// The search found nothing to snap to.
    Missed,
    /// It snapped, but the implied move is not finite or exceeds the tolerance.
    OutOfTolerance,
    /// It snapped within tolerance; `better` is the comparator's verdict
    /// against the best snap kept so far.
    Snapped { better: bool },
}

/// A probe replaces the best snap kept so far.
pub open spec fn improves(o: ProbeOutcome) -> bool {
    o matches ProbeOutcome::Snapped { better: true }
}

/// Index of the winning probe of a pass: the last one that improved on the
/// best kept before it; none when no probe did, so that the pass falls back
/// to the unsnapped geometry.
pub open spec fn best_of(s: Seq<ProbeOutcome>) -> Option<int>
    decreases s.len(),
{
    if s.len() == 0 {
        None
    } else if improves(s.last()) {
        Some(s.len() - 1)
    } else {
        best_of(s.drop_last())
    }
}

/// The running state of one snap pass over the candidate points of a resize
/// or drag: how many candidates there are, the outcomes recorded so far and
/// the best probe among them.
pub struct SizeSnapData {
    candidates: usize,
    probed: usize,
    best: Option<usize>,
    history: Ghost<Seq<ProbeOutcome>>,
}

impl SizeSnapData {
    /// Number of candidate points of the pass.
    pub closed spec fn candidates(&self) -> nat {
        self.candidates as nat
    }

    /// Outcomes recorded so far, in probe order.
    pub closed spec fn outcomes(&self) -> Seq<ProbeOutcome> {
        self.history@
    }

    pub closed spec fn wf(&self) -> bool {
        &&& self.probed == self.history@.len()
        &&& self.probed <= self.candidates
        &&& match self.best {
            Some(i) => best_of(self.history@) == Some(i as int),
            None => best_of(self.history@) is None,
        }
    }

    /// Starts a pass over `candidates` points, from the explicit "no snap" baseline.
    pub fn new(candidates: usize) -> (r: Self)
        ensures
            r.wf(),
            r.candidates() == candidates,
            r.outcomes() == Seq::<ProbeOutcome>::empty(),
    {
        SizeSnapData { candidates, probed: 0, best: None, history: Ghost(Seq::empty()) }
    }

    /// Whether the next probe may reuse the candidates that earlier probes of
    /// this pass discovered: every probe but the first.
    pub fn use_existing_candidates(&self) -> (r: bool)
        requires
            self.wf(),
        ensures
            r == (self.outcomes().len() != 0),
    {
        self.probed != 0
    }

    /// Whether some candidate is still to be probed.
    pub fn has_pending(&self) -> (r: bool)
        requires
            self.wf(),
        ensures
            r == (self.outcomes().len() < self.candidates()),
    {
        self.probed < self.candidates
    }

    /// Records the outcome of probing the next candidate.
    pub fn record(&mut self, outcome: ProbeOutcome)
        requires
            old(self).wf(),
            old(self).outcomes().len() < old(self).candidates(),
        ensures
            final(self).wf(),
            final(self).candidates() == old(self).candidates(),
            final(self).outcomes() == old(self).outcomes().push(outcome),
    {
        let ghost before = self.history@;
        let improved = match outcome {
            ProbeOutcome::Snapped { better } => better,
            _ => false,
        };
        if improved {
            self.best = Some(self.probed);
        }
        self.probed = self.probed + 1;
        self.history = Ghost(before.push(outcome));
        assert(self.history@.drop_last() == before);
    }

    /// Index of the best probe so far, if any probe improved on the baseline.
    pub fn best(&self) -> (r: Option<usize>)
        requires
            self.wf(),
        ensures
            match r {
                Some(i) => best_of(self.outcomes()) == Some(i as int),
                None => best_of(self.outcomes()) is None,
            },
    {
        self.best
    }
}

} // verus!
