//! Keeping the best of a run of scored trials.
//!
//! A search holds a floor, the lowest score accepted so far, and the payload
//! of the trial that set it. A new trial replaces both exactly when its score
//! is finite and strictly below the floor. Before any trial is accepted the
//! floor is the largest finite score and the payload is the one the search
//! was started with.

use vstd::prelude::*;
use crate::score::Score;

verus! {

/// Trial `i` is the one a search over `scores` retains: its score is
/// admissible, no finite score of the run is strictly below it, and it is
/// strictly below every finite score recorded before it.
pub open spec fn is_best(scores: Seq<Score>, i: int) -> bool {
    &&& 0 <= i < scores.len()
    &&& scores[i].admissible()
    &&& forall|j: int| 0 <= j < scores.len() && (#[trigger] scores[j]).finite() ==> !scores[j].below(scores[i])
    &&& forall|j: int| 0 <= j < i && (#[trigger] scores[j]).finite() ==> scores[i].below(scores[j])
}

/// No trial of the run can be retained.
pub open spec fn none_admissible(scores: Seq<Score>) -> bool {
    forall|j: int| 0 <= j < scores.len() ==> !(#[trigger] scores[j]).admissible()
}

/// `choice` names the trial that a search over `scores` retains, if any.
pub open spec fn is_selection(scores: Seq<Score>, choice: Option<int>) -> bool {
    match choice {
        Some(i) => is_best(scores, i),
        None => none_admissible(scores),
    }
}

/// The position a search reports, as a position in the sequence of trials.
pub open spec fn place(selected: Option<usize>) -> Option<int> {
    match selected {
        Some(i) => Some(i as int),
        None => None,
    }
}

/// What a search stands for: the trials recorded so far, in order, and what it holds of them.
pub ghost struct SearchState<P> {
    /// The score of each recorded trial.
    pub scores: Seq<Score>,
    /// The payload of each recorded trial.
    pub payloads: Seq<P>,
    /// The payload the search was started with.
    pub initial: P,
    /// The lowest score accepted so far.
    pub floor: Score,
    /// The payload held.
    pub best: P,
    /// The position of the retained trial.
    pub selected: Option<int>,
}

impl<P> SearchState<P> {
    /// The held floor and payload are those of the retained trial, or the
    /// ceiling and the initial payload where no trial is retained.
    pub open spec fn consistent(self) -> bool {
        &&& self.payloads.len() == self.scores.len()
        &&& is_selection(self.scores, self.selected)
        &&& match self.selected {
            Some(i) => self.floor == self.scores[i] && self.best == self.payloads[i],
            None => self.floor == Score::ceiling_spec() && self.best == self.initial,
        }
    }
}

/// A running search: the best of the trials recorded so far.
pub struct Search<P> {
    floor: Score,
    best: P,
    selected: Option<usize>,
    trials: usize,
    scores: Ghost<Seq<Score>>,
    payloads: Ghost<Seq<P>>,
    initial: Ghost<P>,
}

impl<P> View for Search<P> {
    type V = SearchState<P>;

    closed spec fn view(&self) -> SearchState<P> {
        SearchState {
            scores: self.scores@,
            payloads: self.payloads@,
            initial: self.initial@,
            floor: self.floor,
            best: self.best,
            selected: place(self.selected),
        }
    }
}

impl<P> Search<P> {
    /// The number of trials recorded, as the search counts them.
    pub closed spec fn count(&self) -> int {
        self.trials as int
    }

    /// What the search holds is consistent with the trials recorded, and it
    /// has counted them all.
    pub open spec fn wf(&self) -> bool {
        &&& self@.consistent()
        &&& self.count() == self@.scores.len()
    }

    /// A search with no trial recorded, holding `initial`.
    pub fn new(initial: P) -> (r: Search<P>)
        ensures
            r.wf(),
            r@.scores == Seq::<Score>::empty(),
            r@.payloads == Seq::<P>::empty(),
            r@.initial == initial,
            r@.selected is None,
    {
        Search {
            floor: Score::ceiling(),
            initial: Ghost(initial),
            best: initial,
            selected: None,
            trials: 0,
            scores: Ghost(Seq::empty()),
            payloads: Ghost(Seq::empty()),
        }
    }

    /// Records one more trial and says whether it replaced what was held.
    pub fn record(&mut self, score: Score, payload: P) -> (replaced: bool)
        requires
            old(self).wf(),
            old(self)@.scores.len() < usize::MAX,
        ensures
            final(self).wf(),
            final(self)@.scores == old(self)@.scores.push(score),
            final(self)@.payloads == old(self)@.payloads.push(payload),
            final(self)@.initial == old(self)@.initial,
            replaced == (score.finite() && score.below(old(self)@.floor)),
            final(self)@.selected == if replaced {
                Some(old(self)@.scores.len() as int)
            } else {
                old(self)@.selected
            },
    {
        let replaced = score.is_finite() && score.lt(&self.floor);
        if replaced {
            self.floor = score;
            self.best = payload;
            self.selected = Some(self.trials);
        }
        self.trials = self.trials + 1;
        self.scores = Ghost(self.scores@.push(score));
        self.payloads = Ghost(self.payloads@.push(payload));
        replaced
    }

    /// The lowest score accepted so far.
    pub fn floor(&self) -> (r: Score)
        ensures
            r == self@.floor,
    {
        self.floor
    }

    /// The payload held.
    pub fn best(&self) -> (r: &P)
        ensures
            *r == self@.best,
    {
        &self.best
    }

    /// The position of the retained trial among those recorded.
    pub fn selected(&self) -> (r: Option<usize>)
        ensures
            place(r) == self@.selected,
    {
        self.selected
    }

    /// How many trials were recorded.
    pub fn trials(&self) -> (r: usize)
        requires
            self.wf(),
        ensures
            r == self@.scores.len(),
    {
        self.trials
    }

    /// Ends the search and hands out the payload held.
    pub fn into_best(self) -> (r: P)
        ensures
            r == self@.best,
    {
        self.best
    }
}

/// A run of trials has one selection.
pub proof fn lemma_selection_is_unique(scores: Seq<Score>, a: Option<int>, b: Option<int>)
    requires
        is_selection(scores, a),
        is_selection(scores, b),
    ensures
        a == b,
{
}

/// Of two trials with the same score the later one is never retained: a tie
/// goes to the trial made first.
pub proof fn lemma_tie_goes_to_first(scores: Seq<Score>, earlier: int, later: int)
    requires
        0 <= earlier < later < scores.len(),
        scores[earlier].same_value(scores[later]),
    ensures
        !is_best(scores, later),
{
}

/// The retained trial has a finite score, and where no trial has a finite
/// score none is retained.
pub proof fn lemma_only_finite_scores_are_retained(scores: Seq<Score>, choice: Option<int>)
    requires
        is_selection(scores, choice),
    ensures
        choice is Some ==> scores[choice->Some_0].finite(),
        (forall|j: int| 0 <= j < scores.len() ==> !(#[trigger] scores[j]).finite()) ==> choice is None,
{
}

/// What a search holds is never worse than a trial it has seen: the floor is
/// finite, and no finite score of the run lies strictly below it.
pub proof fn lemma_floor_is_lowest<P>(state: SearchState<P>, k: int)
    requires
        state.consistent(),
        0 <= k < state.scores.len(),
    ensures
        state.floor.finite(),
        state.scores[k].finite() ==> !state.scores[k].below(state.floor),
{
}

/// Where no trial has a finite score, the search holds what it held at the
/// start: the ceiling and the initial payload.
pub proof fn lemma_nothing_finite_nothing_retained<P>(state: SearchState<P>)
    requires
        state.consistent(),
        forall|j: int| 0 <= j < state.scores.len() ==> !(#[trigger] state.scores[j]).finite(),
    ensures
        state.selected is None,
        state.floor == Score::ceiling_spec(),
        state.best == state.initial,
{
}

} // verus!
