//! Naive forecasts: the mean so far, the last observation, and the
//! observation one season back.
//!
//! Each method forecasts one step ahead from the observations before it. A
//! method is tried by rolling it over the test window: the forecast for each
//! step of the window is made from every observation before that step.

use vstd::prelude::*;
use vstd::slice::slice_subrange;
use crate::chart::{extended, is_chart, joined, padded, repeat, Chart};
use crate::data::{test_window, SEASON, SERIES_LEN, TRAIN_LEN};
use crate::eval::{is_evaluation, score_forecast, scores_equal_lengths, ForecastEval};

verus! {

/// How many seasons a chart of a naive forecast runs past the series.
pub const CHART_SEASONS: usize = 3;

/// How one method fared over the test window.
pub struct MethodReport<T> {
    /// The name of the method.
    pub method: &'static str,
    /// The forecast for each step of the test window.
    pub predicted: Vec<T>,
    /// How the forecasts scored against the test window.
    pub eval: ForecastEval<T>,
}

/// What trying the three methods yields.
pub struct Analysis<T> {
    /// One report per method: the mean, the last observation, the last season.
    pub reports: Vec<MethodReport<T>>,
    /// The charts to draw.
    pub charts: Vec<Chart<T>>,
}

/// `predict_fn` can be applied to any history of at least `least` observations.
pub open spec fn predicts_from<T, P: Fn(&[T]) -> T>(predict_fn: P, least: int) -> bool {
    forall|history: &[T]| history@.len() >= least ==> #[trigger] call_requires(predict_fn, (history,))
}

/// `value` is what `predict_fn` may forecast from `history`.
pub open spec fn is_prediction<T, P: Fn(&[T]) -> T>(predict_fn: P, history: Seq<T>, value: T) -> bool {
    exists|h: &[T]| h@ == history && #[trigger] call_ensures(predict_fn, (h,), value)
}

/// `predicted` holds one forecast per step of the test window, each made by
/// `predict_fn` from every observation before that step.
pub open spec fn is_rolling<T, P: Fn(&[T]) -> T>(predict_fn: P, data: Seq<T>, predicted: Seq<T>) -> bool {
    &&& predicted.len() == SEASON
    &&& forall|i: int|
        0 <= i < SEASON ==> is_prediction(predict_fn, data.subrange(0, TRAIN_LEN + i), #[trigger] predicted[i])
}

/// The last season of `data`.
pub open spec fn last_season<T>(data: Seq<T>) -> Seq<T> {
    data.subrange(data.len() - SEASON, data.len() as int)
}

/// `charts` are the five charts of the naive methods: the series twice, once
/// plain and once by season, and the series followed by three seasons of
/// each method's forecast: the mean `mean` of the series, its last
/// observation, and its last season over and over.
pub open spec fn is_gallery<T>(data: Seq<T>, mean: T, charts: Seq<Chart<T>>) -> bool {
    &&& charts.len() == 5
    &&& is_chart(charts[0], data, false, None, "starting_data")
    &&& is_chart(charts[1], data, true, None, "seasonal_dynamics")
    &&& is_chart(
        charts[2],
        data + Seq::new((CHART_SEASONS * SEASON) as nat, |i: int| mean),
        true,
        Some("lab_1"),
        "naive_mean",
    )
    &&& is_chart(
        charts[3],
        data + Seq::new((CHART_SEASONS * SEASON) as nat, |i: int| data.last()),
        true,
        Some("lab_1"),
        "naive_last",
    )
    &&& is_chart(
        charts[4],
        data + repeat(last_season(data), CHART_SEASONS as nat),
        true,
        Some("lab_1"),
        "naive_last_season",
    )
}

/// The forecast that repeats the last observation.
pub fn predict_last<T: Copy>(data: &[T]) -> (r: T)
    requires
        data@.len() >= 1,
    ensures
        r == data@.last(),
{
    data[data.len() - 1]
}

/// The forecast that repeats the observation one season back.
pub fn predict_seasonal<T: Copy>(data: &[T]) -> (r: T)
    requires
        data@.len() >= SEASON,
    ensures
        r == data@[data@.len() - SEASON],
{
    data[data.len() - SEASON]
}

/// Rolls `predict_fn` over the test window of `data` and scores its forecasts.
pub fn error_analysis<T: Copy, P: Fn(&[T]) -> T, E: Fn(&[T], &[T]) -> ForecastEval<T>>(
    data: &[T],
    method_name: &'static str,
    predict_fn: &P,
    evaluate: &E,
) -> (r: MethodReport<T>)
    requires
        data@.len() >= SERIES_LEN,
        predicts_from(*predict_fn, TRAIN_LEN as int),
        scores_equal_lengths(*evaluate),
    ensures
        r.method == method_name,
        is_rolling(*predict_fn, data@, r.predicted@),
        is_evaluation(*evaluate, r.predicted@, data@.subrange(TRAIN_LEN as int, SERIES_LEN as int), r.eval),
{
    let test = test_window(data);
    let mut predicted: Vec<T> = Vec::new();
    let mut idx: usize = 0;
    while idx < SEASON
        invariant
            idx <= SEASON,
            data@.len() >= SERIES_LEN,
            predicts_from(*predict_fn, TRAIN_LEN as int),
            predicted@.len() == idx,
            forall|i: int|
                0 <= i < idx ==> is_prediction(
                    *predict_fn,
                    data@.subrange(0, TRAIN_LEN + i),
                    #[trigger] predicted@[i],
                ),
        decreases SEASON - idx,
    {
        let history = slice_subrange(data, 0, TRAIN_LEN + idx);
        let predict = predict_fn(history);
        predicted.push(predict);
        idx += 1;
    }
    match score_forecast(predicted.as_slice(), test, evaluate) {
        Ok(eval) => MethodReport { method: method_name, predicted, eval },
        Err(_) => unreached(),
    }
}

/// The charts of the naive methods; `predict_mean` forecasts the mean of the series.
pub fn render_graphs<T: Copy, P: Fn(&[T]) -> T>(data: &[T], predict_mean: &P) -> (r: Vec<Chart<T>>)
    requires
        data@.len() >= SEASON,
        call_requires(*predict_mean, (data,)),
    ensures
        r@.len() == 5,
        is_prediction(*predict_mean, data@, r@[2].series@[data@.len() as int]),
        is_gallery(data@, r@[2].series@[data@.len() as int], r@),
{
    let mut charts: Vec<Chart<T>> = Vec::new();
    charts.push(Chart { series: joined(data, &[]), mix_color: false, dir: None, name: "starting_data" });
    charts.push(Chart { series: joined(data, &[]), mix_color: true, dir: None, name: "seasonal_dynamics" });

    let mean = predict_mean(data);
    charts.push(
        Chart {
            series: padded(data, mean, CHART_SEASONS * SEASON),
            mix_color: true,
            dir: Some("lab_1"),
            name: "naive_mean",
        },
    );

    let last = predict_last(data);
    charts.push(
        Chart {
            series: padded(data, last, CHART_SEASONS * SEASON),
            mix_color: true,
            dir: Some("lab_1"),
            name: "naive_last",
        },
    );

    let season = slice_subrange(data, data.len() - SEASON, data.len());
    let forecast = extended(data, season, CHART_SEASONS);
    charts.push(Chart { series: forecast, mix_color: true, dir: Some("lab_1"), name: "naive_last_season" });
    charts
}

/// `r` reports the three naive methods tried on `data`, with their charts.
/// The forecasts of the last two methods are observations: the one before
/// the step forecast, and the one a season before it.
pub open spec fn is_analysis<T, P: Fn(&[T]) -> T, E: Fn(&[T], &[T]) -> ForecastEval<T>>(
    predict_mean: P,
    evaluate: E,
    data: Seq<T>,
    r: Analysis<T>,
) -> bool {
    let test = data.subrange(TRAIN_LEN as int, SERIES_LEN as int);
    let reports = r.reports@;
    &&& reports.len() == 3
    &&& reports[0].method@ == "naive_mean"@
    &&& is_rolling(predict_mean, data, reports[0].predicted@)
    &&& reports[1].method@ == "naive_last"@
    &&& reports[1].predicted@ == Seq::new(SEASON as nat, |i: int| data[TRAIN_LEN + i - 1])
    &&& reports[2].method@ == "naive_last_season"@
    &&& reports[2].predicted@ == Seq::new(SEASON as nat, |i: int| data[TRAIN_LEN + i - SEASON])
    &&& forall|m: int| 0 <= m < 3 ==> is_evaluation(evaluate, (#[trigger] reports[m]).predicted@, test, reports[m].eval)
    &&& r.charts@.len() == 5
    &&& is_prediction(predict_mean, data, r.charts@[2].series@[data.len() as int])
    &&& is_gallery(data, r.charts@[2].series@[data.len() as int], r.charts@)
}

/// Tries the three naive methods on `data` and puts their charts together;
/// `predict_mean` forecasts the mean of the observations it is given.
pub fn analyze<T: Copy, P: Fn(&[T]) -> T, E: Fn(&[T], &[T]) -> ForecastEval<T>>(
    data: &[T],
    predict_mean: &P,
    evaluate: &E,
) -> (r: Analysis<T>)
    requires
        data@.len() == SERIES_LEN,
        predicts_from(*predict_mean, TRAIN_LEN as int),
        scores_equal_lengths(*evaluate),
    ensures
        is_analysis(*predict_mean, *evaluate, data@, r),
{
    let mut reports: Vec<MethodReport<T>> = Vec::new();
    reports.push(error_analysis(data, "naive_mean", predict_mean, evaluate));

    let by_last = error_analysis(data, "naive_last", &predict_last, evaluate);
    assert(by_last.predicted@ =~= Seq::new(SEASON as nat, |i: int| data@[TRAIN_LEN + i - 1]));
    reports.push(by_last);

    let by_season = error_analysis(data, "naive_last_season", &predict_seasonal, evaluate);
    assert(by_season.predicted@ =~= Seq::new(SEASON as nat, |i: int| data@[TRAIN_LEN + i - SEASON]));
    reports.push(by_season);

    let charts = render_graphs(data, predict_mean);
    Analysis { reports, charts }
}

} // verus!
