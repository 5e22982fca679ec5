//! The model with a damped multiplicative trend and a multiplicative season.
//!
//! The model's arithmetic is the caller's: one step of it is handed in as a
//! function of the observation, the previous level and trend, the seasonal
//! index referred to, the three weights and the horizon, in this order. What
//! stands here is how the steps are strung together: smoothing a window of
//! observations, projecting a season ahead from where smoothing ended, and
//! the search for the weights whose projection scores best.

use vstd::prelude::*;
use crate::chart::{joined, padded, Chart};
use crate::data::{test_window, train_window, SEASON, SERIES_LEN, TRAIN_LEN};
use crate::eval::{is_evaluation, score_forecast, scores_equal_lengths, ForecastError, ForecastEval};
use crate::grid::{first_place, lemma_places_in_grid, search_grid, second_place, third_place};
use crate::score::Score;
use crate::search::{is_selection, place, Search};
use crate::season::{lagged, latest, SeasonalBuffer};

verus! {

/// The number of weights tried along each axis of the model's own grid.
pub const STEPS: usize = 99;

/// The three weights of the model: of the level, of the trend, of the season.
#[derive(Debug)]
pub struct Weights<T> {
    pub a: T,
    pub b: T,
    pub y: T,
}

impl<T: Copy> Clone for Weights<T> {
    fn clone(&self) -> (r: Self)
        ensures
            r == *self,
    {
        Weights { a: self.a, b: self.b, y: self.y }
    }
}

impl<T: Copy> Copy for Weights<T> {}

/// The state of the model after one step: level, trend, seasonal index, and
/// the value the step puts out.
#[derive(Debug)]
pub struct ForecastResult<T> {
    pub l: T,
    pub b: T,
    pub s: T,
    pub y: T,
}

impl<T: Copy> Clone for ForecastResult<T> {
    fn clone(&self) -> (r: Self)
        ensures
            r == *self,
    {
        ForecastResult { l: self.l, b: self.b, s: self.s, y: self.y }
    }
}

impl<T: Copy> Copy for ForecastResult<T> {}

/// One candidate: the weights, the smoothed training window, the projection
/// over the test window, and how the projection scored.
pub struct Fit<T> {
    pub weights: Weights<T>,
    pub eval: ForecastEval<T>,
    pub train: Vec<T>,
    pub predicted: Vec<T>,
}

/// What smoothing a window yields.
pub struct Smoothed<T> {
    /// The value put out at each step.
    pub target: Vec<T>,
    /// The seasonal index last computed for each phase.
    pub season: Vec<T>,
    /// The state after the last step.
    pub last: ForecastResult<T>,
    /// The state after each step.
    pub states: Ghost<Seq<ForecastResult<T>>>,
}

/// What projecting a season ahead yields.
pub struct Projected<T> {
    /// The value put out for each horizon, nearest first.
    pub predicted: Vec<T>,
    /// What the step function returned for each horizon.
    pub forecasts: Ghost<Seq<ForecastResult<T>>>,
}

/// What a search yields.
pub struct Report<T> {
    /// The fit retained, or the idle fit where none was.
    pub best: Fit<T>,
    /// The position of the retained fit among the trials.
    pub selected: Option<usize>,
    /// How many trials were made.
    pub iterations: usize,
    /// The retained fit's smoothed training window, followed by its projection.
    pub training: Chart<T>,
    /// The whole series smoothed with the retained weights, followed by a
    /// projection one season past its end.
    pub forecast: Chart<T>,
    /// Every trial, in the order made.
    pub trials: Ghost<Seq<Fit<T>>>,
}

/// `step` can be applied to any arguments.
pub open spec fn total<T, K: Fn(T, T, T, T, T, T, T, u32) -> ForecastResult<T>>(step: K) -> bool {
    forall|y: T, l: T, b: T, s: T, pa: T, pb: T, py: T, h: u32| #[trigger]
        call_requires(step, (y, l, b, s, pa, pb, py, h))
}

/// The seasonal index of each state.
pub open spec fn indices<T>(states: Seq<ForecastResult<T>>) -> Seq<T> {
    Seq::new(states.len(), |i: int| states[i].s)
}

/// The value put out by each state.
pub open spec fn outputs<T>(states: Seq<ForecastResult<T>>) -> Seq<T> {
    Seq::new(states.len(), |i: int| states[i].y)
}

/// The seasonal index last computed for each phase.
pub open spec fn season_row<T>(states: Seq<ForecastResult<T>>, unit: T) -> Seq<T> {
    Seq::new(SEASON as nat, |j: int| latest(indices(states), unit, j))
}

/// State `i` of `states` comes from one step at horizon 1 on observation
/// `i`, the level and trend of the state before, and the seasonal index
/// computed one season earlier.
pub open spec fn is_step<T, K: Fn(T, T, T, T, T, T, T, u32) -> ForecastResult<T>>(
    step: K,
    values: Seq<T>,
    unit: T,
    weights: Weights<T>,
    states: Seq<ForecastResult<T>>,
    i: int,
) -> bool {
    call_ensures(
        step,
        (
            values[i],
            states[i - 1].l,
            states[i - 1].b,
            lagged(indices(states), unit, i),
            weights.a,
            weights.b,
            weights.y,
            1u32,
        ),
        states[i],
    )
}

/// `states` is a run of the model over `values`. The run starts at the first
/// observation with unit trend and unit seasonal index, and takes one step
/// per later observation.
pub open spec fn is_smoothing<T, K: Fn(T, T, T, T, T, T, T, u32) -> ForecastResult<T>>(
    step: K,
    values: Seq<T>,
    unit: T,
    weights: Weights<T>,
    states: Seq<ForecastResult<T>>,
) -> bool {
    &&& values.len() >= 1
    &&& states.len() == values.len()
    &&& states[0] == (ForecastResult { l: values[0], b: unit, s: unit, y: values[0] })
    &&& forall|i: int| 1 <= i < values.len() ==> #[trigger] is_step(step, values, unit, weights, states, i)
}

/// `forecasts` is a projection one season ahead of the state `prev`. Each
/// comes from one step on what `prev` put out, the level and trend of `prev`
/// and the seasonal index held for its phase; the horizon counts up from 1.
pub open spec fn is_projection<T, K: Fn(T, T, T, T, T, T, T, u32) -> ForecastResult<T>>(
    step: K,
    season: Seq<T>,
    prev: ForecastResult<T>,
    weights: Weights<T>,
    forecasts: Seq<ForecastResult<T>>,
) -> bool {
    &&& forecasts.len() == SEASON
    &&& forall|i: int|
        0 <= i < SEASON ==> call_ensures(
            step,
            (prev.y, prev.l, prev.b, season[i], weights.a, weights.b, weights.y, (i + 1) as u32),
            #[trigger] forecasts[i],
        )
}

/// `fit` is a fit with the given weights, and `states` and `forecasts` are
/// its run over `train` and its projection.
pub open spec fn is_fit_by<T, K: Fn(T, T, T, T, T, T, T, u32) -> ForecastResult<T>, E: Fn(&[T], &[T]) -> ForecastEval<T>>(
    step: K,
    evaluate: E,
    train: Seq<T>,
    test: Seq<T>,
    unit: T,
    weights: Weights<T>,
    fit: Fit<T>,
    states: Seq<ForecastResult<T>>,
    forecasts: Seq<ForecastResult<T>>,
) -> bool {
    &&& fit.weights == weights
    &&& is_smoothing(step, train, unit, weights, states)
    &&& is_projection(step, season_row(states, unit), states.last(), weights, forecasts)
    &&& fit.train@ == outputs(states)
    &&& fit.predicted@ == outputs(forecasts)
    &&& is_evaluation(evaluate, fit.predicted@, test, fit.eval)
}

/// `fit` is a fit with the given weights: the model smoothed over `train`,
/// projected one season ahead, and the projection scored against `test`.
pub open spec fn is_fit<T, K: Fn(T, T, T, T, T, T, T, u32) -> ForecastResult<T>, E: Fn(&[T], &[T]) -> ForecastEval<T>>(
    step: K,
    evaluate: E,
    train: Seq<T>,
    test: Seq<T>,
    unit: T,
    weights: Weights<T>,
    fit: Fit<T>,
) -> bool {
    exists|states: Seq<ForecastResult<T>>, forecasts: Seq<ForecastResult<T>>| #[trigger]
        is_fit_by(step, evaluate, train, test, unit, weights, fit, states, forecasts)
}

/// `series` is `values` smoothed with the given weights, followed by a
/// projection one season past its end; `states` and `forecasts` are the run
/// and the projection.
pub open spec fn is_outlook_by<T, K: Fn(T, T, T, T, T, T, T, u32) -> ForecastResult<T>>(
    step: K,
    values: Seq<T>,
    unit: T,
    weights: Weights<T>,
    series: Seq<T>,
    states: Seq<ForecastResult<T>>,
    forecasts: Seq<ForecastResult<T>>,
) -> bool {
    &&& is_smoothing(step, values, unit, weights, states)
    &&& is_projection(step, season_row(states, unit), states.last(), weights, forecasts)
    &&& series == outputs(states) + outputs(forecasts)
}

/// `series` is `values` smoothed with the given weights, followed by a
/// projection one season past its end.
pub open spec fn is_outlook<T, K: Fn(T, T, T, T, T, T, T, u32) -> ForecastResult<T>>(
    step: K,
    values: Seq<T>,
    unit: T,
    weights: Weights<T>,
    series: Seq<T>,
) -> bool {
    exists|states: Seq<ForecastResult<T>>, forecasts: Seq<ForecastResult<T>>| #[trigger]
        is_outlook_by(step, values, unit, weights, series, states, forecasts)
}

/// `fit` is what a search holds before it retains a trial: the given
/// weights, a zero mean error, the largest finite score, and zeros for both
/// sequences.
pub open spec fn is_idle<T>(fit: Fit<T>, zero: T, weights: Weights<T>) -> bool {
    &&& fit.weights == weights
    &&& fit.eval.mae == zero
    &&& fit.eval.rmse == Score::ceiling_spec()
    &&& fit.train@ == Seq::new(TRAIN_LEN as nat, |i: int| zero)
    &&& fit.predicted@ == Seq::new(SEASON as nat, |i: int| zero)
}

/// The score of each trial.
pub open spec fn scores_of<T>(trials: Seq<Fit<T>>) -> Seq<Score> {
    Seq::new(trials.len(), |n: int| trials[n].eval.rmse)
}

/// The weights of the trial at position `n` of the grid that the three axes
/// span, the last axis running fastest.
pub open spec fn weights_at<T>(alphas: Seq<T>, betas: Seq<T>, gammas: Seq<T>, n: int) -> Weights<T> {
    Weights {
        a: alphas[first_place(n, betas.len() as int, gammas.len() as int)],
        b: betas[second_place(n, betas.len() as int, gammas.len() as int)],
        y: gammas[third_place(n, gammas.len() as int)],
    }
}

/// Trial `n` of `trials` is a fit at the `n`-th point of the grid that the
/// three axes span.
pub open spec fn trials_follow_grid<T, K: Fn(T, T, T, T, T, T, T, u32) -> ForecastResult<T>, E: Fn(&[T], &[T]) -> ForecastEval<T>>(
    step: K,
    evaluate: E,
    train: Seq<T>,
    test: Seq<T>,
    unit: T,
    alphas: Seq<T>,
    betas: Seq<T>,
    gammas: Seq<T>,
    trials: Seq<Fit<T>>,
) -> bool {
    forall|n: int|
        0 <= n < trials.len() ==> is_fit(
            step,
            evaluate,
            train,
            test,
            unit,
            weights_at(alphas, betas, gammas, n),
            #[trigger] trials[n],
        )
}

/// `r` reports a search over the grid that the three axes span.
///
/// Every point of the grid was tried once, the last axis running fastest,
/// each trial fitted on the training window and scored on the test window.
/// The fit retained is the first whose score is admissible and not above
/// any finite score of the search; where no score is admissible it is the
/// idle fit at the first point of the grid. The first chart holds the
/// retained fit's smoothed training window and projection, the second the
/// whole series smoothed with the retained weights and projected one season
/// past its end.
pub open spec fn is_report<T, K: Fn(T, T, T, T, T, T, T, u32) -> ForecastResult<T>, E: Fn(&[T], &[T]) -> ForecastEval<T>>(
    step: K,
    evaluate: E,
    values: Seq<T>,
    zero: T,
    unit: T,
    alphas: Seq<T>,
    betas: Seq<T>,
    gammas: Seq<T>,
    r: Report<T>,
) -> bool {
    &&& r.iterations == alphas.len() * betas.len() * gammas.len()
    &&& r.trials@.len() == r.iterations
    &&& trials_follow_grid(
        step,
        evaluate,
        values.subrange(0, TRAIN_LEN as int),
        values.subrange(TRAIN_LEN as int, SERIES_LEN as int),
        unit,
        alphas,
        betas,
        gammas,
        r.trials@,
    )
    &&& is_selection(scores_of(r.trials@), place(r.selected))
    &&& match r.selected {
        Some(i) => r.best == r.trials@[i as int],
        None => is_idle(r.best, zero, Weights { a: alphas[0], b: betas[0], y: gammas[0] }),
    }
    &&& r.training.series@ == r.best.train@ + r.best.predicted@
    &&& r.training.name@ == "exponent_md_m_training"@
    &&& r.training.dir == Some("lab_2")
    &&& !r.training.mix_color
    &&& is_outlook(step, values, unit, r.best.weights, r.forecast.series@)
    &&& r.forecast.series@.len() == values.len() + SEASON
    &&& r.forecast.name@ == "exponent_md_m_forecast"@
    &&& r.forecast.dir == Some("lab_2")
    &&& !r.forecast.mix_color
}

/// `scale` can be applied to every counter from 1 to the number of steps.
pub open spec fn scales_counters<T, S: Fn(u32) -> T>(scale: S) -> bool {
    forall|counter: u32| 1 <= counter <= STEPS ==> #[trigger] call_requires(scale, (counter,))
}

/// `weights` holds, for each counter from 1 to the number of steps in turn,
/// what `scale` may return for it.
pub open spec fn is_axis<T, S: Fn(u32) -> T>(scale: S, weights: Seq<T>) -> bool {
    &&& weights.len() == STEPS
    &&& forall|i: int| 0 <= i < STEPS ==> call_ensures(scale, ((i + 1) as u32,), #[trigger] weights[i])
}

/// From the second season on, each step of a run refers to the seasonal
/// index computed exactly one season before it, never to one computed since;
/// within the first season it refers to the unit.
pub proof fn lemma_step_refers_one_season_back<T, K: Fn(T, T, T, T, T, T, T, u32) -> ForecastResult<T>>(
    step: K,
    values: Seq<T>,
    unit: T,
    weights: Weights<T>,
    states: Seq<ForecastResult<T>>,
    i: int,
)
    requires
        is_smoothing(step, values, unit, weights, states),
        1 <= i < values.len(),
    ensures
        call_ensures(
            step,
            (
                values[i],
                states[i - 1].l,
                states[i - 1].b,
                if i >= SEASON {
                    states[i - SEASON].s
                } else {
                    unit
                },
                weights.a,
                weights.b,
                weights.y,
                1u32,
            ),
            states[i],
        ),
{
    assert(is_step(step, values, unit, weights, states, i));
}

/// Runs the model over `values`, one step per observation after the first.
pub fn smooth_real_values<T: Copy, K: Fn(T, T, T, T, T, T, T, u32) -> ForecastResult<T>>(
    values: &[T],
    unit: T,
    weights: Weights<T>,
    step: &K,
) -> (r: Smoothed<T>)
    requires
        values@.len() >= 1,
        total(*step),
    ensures
        is_smoothing(*step, values@, unit, weights, r.states@),
        r.target@ == outputs(r.states@),
        r.season@ == season_row(r.states@, unit),
        r.last == r.states@.last(),
{
    let mut prev = ForecastResult { l: values[0], b: unit, s: unit, y: values[0] };
    let mut target: Vec<T> = Vec::new();
    target.push(prev.y);
    let mut buffer = SeasonalBuffer::new(unit);
    let ghost mut states: Seq<ForecastResult<T>> = Seq::empty().push(prev);

    let mut i: usize = 1;
    while i < values.len()
        invariant
            1 <= i <= values@.len(),
            total(*step),
            buffer.wf(),
            buffer.unit() == unit,
            buffer@ == indices(states),
            target@ == outputs(states),
            states.len() == i,
            prev == states[i - 1],
            states[0] == (ForecastResult { l: values@[0], b: unit, s: unit, y: values@[0] }),
            forall|k: int| 1 <= k < i ==> #[trigger] is_step(*step, values@, unit, weights, states, k),
        decreases values@.len() - i,
    {
        let s_value = buffer.reference();
        let predict = step(values[i], prev.l, prev.b, s_value, weights.a, weights.b, weights.y, 1);
        buffer.record(predict.s);
        target.push(predict.y);
        proof {
            let grown = states.push(predict);
            assert forall|k: int| 1 <= k <= i implies #[trigger] is_step(
                *step,
                values@,
                unit,
                weights,
                grown,
                k,
            ) by {
                if k < i {
                    assert(is_step(*step, values@, unit, weights, states, k));
                }
            }
            states = grown;
        }
        prev = predict;
        i += 1;
    }
    let season = buffer.finalized();
    Smoothed { target, season, last: prev, states: Ghost(states) }
}

/// Projects one season ahead of the state `prev`, with the seasonal index
/// held for each phase in `prev_season_s`.
pub fn predict_next_values<T: Copy, K: Fn(T, T, T, T, T, T, T, u32) -> ForecastResult<T>>(
    prev_season_s: &[T],
    prev: &ForecastResult<T>,
    weights: Weights<T>,
    step: &K,
) -> (r: Projected<T>)
    requires
        prev_season_s@.len() >= SEASON,
        total(*step),
    ensures
        is_projection(*step, prev_season_s@, *prev, weights, r.forecasts@),
        r.predicted@ == outputs(r.forecasts@),
{
    let mut predicted: Vec<T> = Vec::new();
    let ghost mut forecasts: Seq<ForecastResult<T>> = Seq::empty();
    let mut h: u32 = 1;
    let mut i: usize = 0;
    while i < SEASON
        invariant
            i <= SEASON,
            h == i + 1,
            prev_season_s@.len() >= SEASON,
            total(*step),
            forecasts.len() == i,
            predicted@ == outputs(forecasts),
            forall|k: int|
                0 <= k < i ==> call_ensures(
                    *step,
                    (prev.y, prev.l, prev.b, prev_season_s@[k], weights.a, weights.b, weights.y, (k + 1) as u32),
                    #[trigger] forecasts[k],
                ),
        decreases SEASON - i,
    {
        let predict = step(prev.y, prev.l, prev.b, prev_season_s[i], weights.a, weights.b, weights.y, h);
        predicted.push(predict.y);
        proof {
            forecasts = forecasts.push(predict);
        }
        h += 1;
        i += 1;
    }
    Projected { predicted, forecasts: Ghost(forecasts) }
}

/// Projects one season ahead of the state `prev` and scores the projection
/// against `test`. Fails where `test` is not one season long.
pub fn predict_test_next_values<T: Copy, K: Fn(T, T, T, T, T, T, T, u32) -> ForecastResult<T>, E: Fn(&[T], &[T]) -> ForecastEval<T>>(
    test: &[T],
    prev_season_s: &[T],
    prev: &ForecastResult<T>,
    weights: Weights<T>,
    step: &K,
    evaluate: &E,
) -> (r: Result<(Projected<T>, ForecastEval<T>), ForecastError>)
    requires
        prev_season_s@.len() >= SEASON,
        total(*step),
        scores_equal_lengths(*evaluate),
    ensures
        r is Err <==> test@.len() != SEASON,
        r is Ok ==> {
            let (projected, eval) = r->Ok_0;
            &&& is_projection(*step, prev_season_s@, *prev, weights, projected.forecasts@)
            &&& projected.predicted@ == outputs(projected.forecasts@)
            &&& is_evaluation(*evaluate, projected.predicted@, test@, eval)
        },
{
    let projected = predict_next_values(prev_season_s, prev, weights, step);
    match score_forecast(projected.predicted.as_slice(), test, evaluate) {
        Ok(eval) => Ok((projected, eval)),
        Err(e) => Err(e),
    }
}

/// Fits the model with the given weights: smooths `train`, projects one
/// season ahead and scores the projection against `test`. Fails where `test`
/// is not one season long.
pub fn fit_weights<T: Copy, K: Fn(T, T, T, T, T, T, T, u32) -> ForecastResult<T>, E: Fn(&[T], &[T]) -> ForecastEval<T>>(
    train: &[T],
    test: &[T],
    unit: T,
    weights: Weights<T>,
    step: &K,
    evaluate: &E,
) -> (r: Result<Fit<T>, ForecastError>)
    requires
        train@.len() >= 1,
        total(*step),
        scores_equal_lengths(*evaluate),
    ensures
        r is Err <==> test@.len() != SEASON,
        r is Ok ==> is_fit(*step, *evaluate, train@, test@, unit, weights, r->Ok_0),
{
    let smoothed = smooth_real_values(train, unit, weights, step);
    match predict_test_next_values(test, smoothed.season.as_slice(), &smoothed.last, weights, step, evaluate) {
        Ok((projected, eval)) => {
            let fit = Fit { weights, eval, train: smoothed.target, predicted: projected.predicted };
            assert(is_fit_by(
                *step,
                *evaluate,
                train@,
                test@,
                unit,
                weights,
                fit,
                smoothed.states@,
                projected.forecasts@,
            ));
            Ok(fit)
        },
        Err(e) => Err(e),
    }
}

/// Smooths `values` with the given weights and projects one season past its end.
pub fn outlook<T: Copy, K: Fn(T, T, T, T, T, T, T, u32) -> ForecastResult<T>>(
    values: &[T],
    unit: T,
    weights: Weights<T>,
    step: &K,
) -> (series: Vec<T>)
    requires
        values@.len() >= 1,
        total(*step),
    ensures
        is_outlook(*step, values@, unit, weights, series@),
        series@.len() == values@.len() + SEASON,
{
    let smoothed = smooth_real_values(values, unit, weights, step);
    let projected = predict_next_values(smoothed.season.as_slice(), &smoothed.last, weights, step);
    let series = joined(smoothed.target.as_slice(), projected.predicted.as_slice());
    assert(is_outlook_by(*step, values@, unit, weights, series@, smoothed.states@, projected.forecasts@));
    series
}

/// The weights tried along each axis of the model's own grid: `scale`
/// applied to each counter from 1 to the number of steps.
pub fn axis<T, S: Fn(u32) -> T>(scale: &S) -> (weights: Vec<T>)
    requires
        scales_counters(*scale),
    ensures
        is_axis(*scale, weights@),
{
    let mut weights: Vec<T> = Vec::new();
    let mut counter: u32 = 1;
    while weights.len() < STEPS
        invariant
            weights@.len() <= STEPS,
            counter == weights@.len() + 1,
            scales_counters(*scale),
            forall|i: int| 0 <= i < weights@.len() ==> call_ensures(*scale, ((i + 1) as u32,), #[trigger] weights@[i]),
        decreases STEPS - weights@.len(),
    {
        let weight = scale(counter);
        weights.push(weight);
        counter += 1;
    }
    weights
}

/// Fits the model at every point of the grid that the three axes span, the
/// last axis running fastest, and keeps the best of the fits.
fn search_weights<T: Copy, K: Fn(T, T, T, T, T, T, T, u32) -> ForecastResult<T>, E: Fn(&[T], &[T]) -> ForecastEval<T>>(
    train: &[T],
    test: &[T],
    idle: Fit<T>,
    unit: T,
    alphas: &[T],
    betas: &[T],
    gammas: &[T],
    step: &K,
    evaluate: &E,
) -> (search: Search<Fit<T>>)
    requires
        train@.len() >= 1,
        test@.len() == SEASON,
        alphas@.len() * betas@.len() * gammas@.len() <= usize::MAX,
        total(*step),
        scores_equal_lengths(*evaluate),
    ensures
        search.wf(),
        search@.initial == idle,
        search@.scores == scores_of(search@.payloads),
        search@.payloads.len() == alphas@.len() * betas@.len() * gammas@.len(),
        trials_follow_grid(*step, *evaluate, train@, test@, unit, alphas@, betas@, gammas@, search@.payloads),
{
    let na = alphas.len();
    let nb = betas.len();
    let ny = gammas.len();
    let trial = |i: usize, j: usize, k: usize| -> (r: (Score, Fit<T>))
        requires
            i < na,
            j < nb,
            k < ny,
        ensures
            r.0 == r.1.eval.rmse,
            is_fit(
                *step,
                *evaluate,
                train@,
                test@,
                unit,
                Weights { a: alphas@[i as int], b: betas@[j as int], y: gammas@[k as int] },
                r.1,
            ),
        {
            let weights = Weights { a: alphas[i], b: betas[j], y: gammas[k] };
            match fit_weights(train, test, unit, weights, step, evaluate) {
                Ok(fit) => (fit.eval.rmse, fit),
                Err(_) => unreached(),
            }
        };
    let search = search_grid(na, nb, ny, idle, &trial);
    proof {
        let trials = search@.payloads;
        assert forall|n: int| 0 <= n < trials.len() implies is_fit(
            *step,
            *evaluate,
            train@,
            test@,
            unit,
            weights_at(alphas@, betas@, gammas@, n),
            #[trigger] trials[n],
        ) by {
            lemma_places_in_grid(na as int, nb as int, ny as int, n);
        }
    }
    search
}

/// Searches the grid that the three axes span for the weights whose
/// projection over the test window scores best, then smooths the whole
/// series with them and projects one season past its end.
///
/// Every point of the grid is tried once, the last axis running fastest. A
/// trial is retained when its score is finite and strictly below the lowest
/// retained before it; where no trial is retained the report holds the idle fit.
pub fn search<T: Copy, K: Fn(T, T, T, T, T, T, T, u32) -> ForecastResult<T>, E: Fn(&[T], &[T]) -> ForecastEval<T>>(
    values: &[T],
    zero: T,
    unit: T,
    alphas: &[T],
    betas: &[T],
    gammas: &[T],
    step: &K,
    evaluate: &E,
) -> (r: Report<T>)
    requires
        values@.len() == SERIES_LEN,
        alphas@.len() >= 1,
        betas@.len() >= 1,
        gammas@.len() >= 1,
        alphas@.len() * betas@.len() * gammas@.len() <= usize::MAX,
        total(*step),
        scores_equal_lengths(*evaluate),
    ensures
        is_report(*step, *evaluate, values@, zero, unit, alphas@, betas@, gammas@, r),
{
    let idle = Fit {
        weights: Weights { a: alphas[0], b: betas[0], y: gammas[0] },
        eval: ForecastEval { mae: zero, rmse: Score::ceiling() },
        train: padded(&[], zero, TRAIN_LEN),
        predicted: padded(&[], zero, SEASON),
    };

    let search = search_weights(
        train_window(values),
        test_window(values),
        idle,
        unit,
        alphas,
        betas,
        gammas,
        step,
        evaluate,
    );
    let selected = search.selected();
    let iterations = search.trials();
    let ghost trials = search@.payloads;
    let best = search.into_best();

    let training = Chart {
        series: joined(best.train.as_slice(), best.predicted.as_slice()),
        mix_color: false,
        dir: Some("lab_2"),
        name: "exponent_md_m_training",
    };
    let forecast = Chart {
        series: outlook(values, unit, best.weights, step),
        mix_color: false,
        dir: Some("lab_2"),
        name: "exponent_md_m_forecast",
    };
    Report { best, selected, iterations, training, forecast, trials: Ghost(trials) }
}

/// Searches the model's own grid: each of the three weights runs over
/// `scale` applied to the counters from 1 to the number of steps. Hands out
/// the weights of one axis with the report.
pub fn analyze<
    T: Copy,
    K: Fn(T, T, T, T, T, T, T, u32) -> ForecastResult<T>,
    S: Fn(u32) -> T,
    E: Fn(&[T], &[T]) -> ForecastEval<T>,
>(values: &[T], zero: T, unit: T, scale: &S, step: &K, evaluate: &E) -> (r: (Vec<T>, Report<T>))
    requires
        values@.len() == SERIES_LEN,
        scales_counters(*scale),
        total(*step),
        scores_equal_lengths(*evaluate),
    ensures
        is_axis(*scale, r.0@),
        is_report(*step, *evaluate, values@, zero, unit, r.0@, r.0@, r.0@, r.1),
{
    let weights = axis(scale);
    let report = search(
        values,
        zero,
        unit,
        weights.as_slice(),
        weights.as_slice(),
        weights.as_slice(),
        step,
        evaluate,
    );
    (weights, report)
}

} // verus!
