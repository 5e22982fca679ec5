//! Seasonal indices, one per phase of the season, read one season late.
//!
//! A model with a seasonal component computes one seasonal index per time
//! step. The index it refers to at a step is not the one computed last but
//! the one computed a full season earlier. The buffer keeps two rows of one
//! slot per phase: the row being filled, and the reference row, which takes
//! over the filled row each time a season is complete.

use vstd::prelude::*;
use vstd::slice::slice_to_vec;
use crate::data::SEASON;

verus! {

/// The seasonal index that time step `i` refers to, where `trace[k]` is the
/// index computed at step `k`: the one computed a season before, or `unit`
/// within the first season.
pub open spec fn lagged<T>(trace: Seq<T>, unit: T, i: int) -> T {
    if i >= SEASON as int {
        trace[i - SEASON as int]
    } else {
        unit
    }
}

/// The last time step among the first `n` that falls on phase `phase`.
/// Meant for `0 <= phase < n`.
pub open spec fn last_step_of_phase(n: int, phase: int) -> int {
    phase + SEASON as int * ((n - 1 - phase) / SEASON as int)
}

/// The seasonal index last computed for `phase`, or `unit` where no step has
/// fallen on that phase yet.
pub open spec fn latest<T>(trace: Seq<T>, unit: T, phase: int) -> T {
    if phase < trace.len() {
        trace[last_step_of_phase(trace.len() as int, phase)]
    } else {
        unit
    }
}

/// The seasonal indices of a run in progress: the row that the steps of the
/// current season refer to, and the row they fill.
pub struct SeasonalBuffer<T> {
    reference: Vec<T>,
    current: Vec<T>,
    step: usize,
    unit: Ghost<T>,
    trace: Ghost<Seq<T>>,
}

impl<T> View for SeasonalBuffer<T> {
    type V = Seq<T>;

    /// The seasonal index of every time step so far. Step 0 is the initial
    /// state, whose index is the unit.
    closed spec fn view(&self) -> Seq<T> {
        self.trace@
    }
}

impl<T: Copy> SeasonalBuffer<T> {
    /// The index that stands for "no seasonal effect".
    pub closed spec fn unit(&self) -> T {
        self.unit@
    }

    /// The start of the season that the next step falls in.
    pub open spec fn season_start(&self) -> int {
        (self@.len() as int / SEASON as int) * SEASON as int
    }

    /// The reference row, by phase.
    pub closed spec fn reference_row(&self) -> Seq<T> {
        self.reference@
    }

    /// The row being filled, by phase.
    pub closed spec fn current_row(&self) -> Seq<T> {
        self.current@
    }

    /// The number of steps, as the buffer counts them.
    pub closed spec fn count(&self) -> int {
        self.step as int
    }

    /// The run has begun, the buffer has counted its steps, the reference row
    /// holds for each phase the index that the step of that phase in the
    /// current season refers to, and the other row the index last computed
    /// for each phase.
    pub open spec fn wf(&self) -> bool {
        &&& self@.len() >= 1
        &&& self@[0] == self.unit()
        &&& self.count() == self@.len()
        &&& self.reference_row().len() == SEASON
        &&& self.current_row().len() == SEASON
        &&& forall|j: int|
            0 <= j < SEASON ==> #[trigger] self.reference_row()[j] == lagged(
                self@,
                self.unit(),
                self.season_start() + j,
            )
        &&& forall|j: int| 0 <= j < SEASON ==> #[trigger] self.current_row()[j] == latest(self@, self.unit(), j)
    }

    /// A buffer at step 1, every slot holding `unit`.
    pub fn new(unit: T) -> (r: SeasonalBuffer<T>)
        ensures
            r.wf(),
            r@ == seq![unit],
            r.unit() == unit,
    {
        let mut reference: Vec<T> = Vec::new();
        let mut current: Vec<T> = Vec::new();
        let mut j: usize = 0;
        while j < SEASON
            invariant
                j <= SEASON,
                reference@.len() == j,
                current@.len() == j,
                forall|k: int| 0 <= k < j ==> reference@[k] == unit,
                forall|k: int| 0 <= k < j ==> current@[k] == unit,
            decreases SEASON - j,
        {
            reference.push(unit);
            current.push(unit);
            j += 1;
        }
        SeasonalBuffer {
            reference,
            current,
            step: 1,
            unit: Ghost(unit),
            trace: Ghost(Seq::empty().push(unit)),
        }
    }

    /// The number of the next time step.
    pub fn step(&self) -> (r: usize)
        requires
            self.wf(),
        ensures
            r == self@.len(),
    {
        self.step
    }

    /// The seasonal index that the next time step refers to.
    pub fn reference(&self) -> (r: T)
        requires
            self.wf(),
        ensures
            r == lagged(self@, self.unit(), self@.len() as int),
    {
        self.reference[self.step % SEASON]
    }

    /// Takes in the seasonal index computed at the next time step, and moves on to the step after it.
    pub fn record(&mut self, index: T)
        requires
            old(self).wf(),
            old(self)@.len() < usize::MAX,
        ensures
            final(self).wf(),
            final(self)@ == old(self)@.push(index),
            final(self).unit() == old(self).unit(),
    {
        let phase = self.step % SEASON;
        self.current.set(phase, index);
        self.step = self.step + 1;
        self.trace = Ghost(self.trace@.push(index));
        if self.step % SEASON == 0 {
            self.reference = slice_to_vec(self.current.as_slice());
        }
    }

    /// The seasonal index last computed for each phase.
    pub fn finalized(&self) -> (r: Vec<T>)
        requires
            self.wf(),
        ensures
            r@.len() == SEASON,
            forall|j: int| 0 <= j < SEASON ==> #[trigger] r@[j] == latest(self@, self.unit(), j),
    {
        slice_to_vec(self.current.as_slice())
    }
}

/// From the second season on, the index a step refers to is the one computed
/// exactly one season before it, whatever was computed since; within the
/// first season it is the unit.
pub proof fn lemma_reference_lags_one_season<T>(trace: Seq<T>, later: Seq<T>, unit: T, i: int)
    requires
        0 <= i <= trace.len(),
        trace.len() <= later.len(),
        forall|k: int| 0 <= k <= i - SEASON ==> trace[k] == later[k],
    ensures
        i >= SEASON ==> lagged(trace, unit, i) == trace[i - SEASON],
        i < SEASON ==> lagged(trace, unit, i) == unit,
        lagged(trace, unit, i) == lagged(later, unit, i),
{
}

} // verus!
