//! Naive forecasts in whole numbers.
//!
//! The three naive methods on a series of counts, scored in integer
//! arithmetic: every quotient is rounded down.

use vstd::prelude::*;
use vstd::slice::slice_subrange;
use crate::chart::Chart;
use crate::data::{test_window, values, SEASON, SERIES_LEN, TRAIN_LEN, VALUES};
use crate::naive::{is_gallery, is_prediction, is_rolling, predicts_from, render_graphs};

verus! {

/// How one method fared over the test window.
pub struct ErrorReport {
    /// The name of the method.
    pub method: &'static str,
    /// The forecast for each step of the test window.
    pub predicted: Vec<u32>,
    /// The mean of the absolute errors.
    pub mae: u32,
    /// The mean of the squared errors. Its square root is the
    /// root-mean-square error.
    pub mse: u64,
}

/// What trying the three methods yields.
pub struct Analysis {
    /// One report per method: the mean, the last observation, the last season.
    pub reports: Vec<ErrorReport>,
    /// The charts to draw.
    pub charts: Vec<Chart<u32>>,
}

/// The sum of `s`.
pub open spec fn sum(s: Seq<u32>) -> int
    decreases s.len(),
{
    if s.len() == 0 {
        0
    } else {
        sum(s.drop_last()) + s.last()
    }
}

/// The mean of `s`, rounded down.
pub open spec fn mean(s: Seq<u32>) -> int {
    sum(s) / (s.len() as int)
}

/// The distance between a forecast and the observation it was made for.
pub open spec fn abs_diff(predicted: u32, actual: u32) -> int {
    if predicted >= actual {
        predicted - actual
    } else {
        actual - predicted
    }
}

/// The sum of the absolute errors of the first `n` forecasts.
pub open spec fn total_error(predicted: Seq<u32>, test: Seq<u32>, n: int) -> int
    decreases n,
{
    if n <= 0 {
        0
    } else {
        total_error(predicted, test, n - 1) + abs_diff(predicted[n - 1], test[n - 1])
    }
}

/// The sum of the squared errors of the first `n` forecasts.
pub open spec fn total_squared_error(predicted: Seq<u32>, test: Seq<u32>, n: int) -> int
    decreases n,
{
    if n <= 0 {
        0
    } else {
        total_squared_error(predicted, test, n - 1) + abs_diff(predicted[n - 1], test[n - 1]) * abs_diff(
            predicted[n - 1],
            test[n - 1],
        )
    }
}

/// `report` holds `predicted` and the two means of its errors against `test`.
pub open spec fn is_error_report(report: ErrorReport, method: &'static str, predicted: Seq<u32>, test: Seq<u32>) -> bool {
    &&& report.method@ == method@
    &&& report.predicted@ == predicted
    &&& report.mae == total_error(predicted, test, SEASON as int) / (SEASON as int)
    &&& report.mse == total_squared_error(predicted, test, SEASON as int) / (SEASON as int)
}

/// Both totals are bounded by the number of forecasts times the largest
/// error, and its square, that one forecast can make.
pub proof fn lemma_total_error_bound(predicted: Seq<u32>, test: Seq<u32>, n: int)
    requires
        0 <= n,
    ensures
        0 <= total_error(predicted, test, n) <= n * u32::MAX,
        0 <= total_squared_error(predicted, test, n) <= n * (u32::MAX * u32::MAX),
    decreases n,
{
    if n > 0 {
        lemma_total_error_bound(predicted, test, n - 1);
        let e = abs_diff(predicted[n - 1], test[n - 1]);
        assert(0 <= e * e <= u32::MAX * u32::MAX) by (nonlinear_arith)
            requires
                0 <= e <= u32::MAX,
        ;
    }
}

/// The totals over the first `n` forecasts depend on those forecasts alone.
pub proof fn lemma_totals_ignore_later(a: Seq<u32>, b: Seq<u32>, test: Seq<u32>, n: int)
    requires
        0 <= n <= a.len(),
        n <= b.len(),
        forall|i: int| 0 <= i < n ==> a[i] == b[i],
    ensures
        total_error(a, test, n) == total_error(b, test, n),
        total_squared_error(a, test, n) == total_squared_error(b, test, n),
    decreases n,
{
    if n > 0 {
        lemma_totals_ignore_later(a, b, test, n - 1);
    }
}

/// A forecast that equals the observations has no error.
pub proof fn lemma_exact_forecast_has_no_error(predicted: Seq<u32>, n: int)
    ensures
        total_error(predicted, predicted, n) == 0,
        total_squared_error(predicted, predicted, n) == 0,
    decreases n,
{
    if n > 0 {
        lemma_exact_forecast_has_no_error(predicted, n - 1);
        assert(abs_diff(predicted[n - 1], predicted[n - 1]) == 0);
    }
}

/// The forecast that is the mean of the observations so far, rounded down.
pub fn predict_mean(data: &[u32]) -> (r: u32)
    requires
        data@.len() >= 1,
    ensures
        r == mean(data@),
{
    let mut total: u128 = 0;
    let mut i: usize = 0;
    while i < data.len()
        invariant
            i <= data@.len(),
            total == sum(data@.subrange(0, i as int)),
            total <= i * u32::MAX,
        decreases data@.len() - i,
    {
        proof {
            assert(data@.subrange(0, i + 1).drop_last() =~= data@.subrange(0, i as int));
        }
        total = total + data[i] as u128;
        i += 1;
    }
    proof {
        assert(data@.subrange(0, data@.len() as int) =~= data@);
        let n = data@.len() as int;
        assert(total as int / n <= u32::MAX) by (nonlinear_arith)
            requires
                0 <= total <= n * u32::MAX,
                n >= 1,
        ;
    }
    (total / data.len() as u128) as u32
}

/// The forecast that repeats the last observation.
pub fn predict_last(data: &[u32]) -> (r: u32)
    requires
        data@.len() >= 1,
    ensures
        r == data@.last(),
{
    crate::naive::predict_last(data)
}

/// The forecast that repeats the observation one season back.
pub fn predict_seasonal(data: &[u32]) -> (r: u32)
    requires
        data@.len() >= SEASON,
    ensures
        r == data@[data@.len() - SEASON],
{
    crate::naive::predict_seasonal(data)
}

/// Rolls `predict_fn` over the test window of `data`, and averages the
/// absolute and the squared errors of its forecasts.
pub fn error_analysis<P: Fn(&[u32]) -> u32>(
    data: &[u32],
    method_name: &'static str,
    predict_fn: &P,
) -> (r: ErrorReport)
    requires
        data@.len() >= SERIES_LEN,
        predicts_from(*predict_fn, TRAIN_LEN as int),
    ensures
        is_rolling(*predict_fn, data@, r.predicted@),
        is_error_report(r, method_name, r.predicted@, data@.subrange(TRAIN_LEN as int, SERIES_LEN as int)),
{
    let test = test_window(data);
    let mut predicted: Vec<u32> = Vec::new();
    let mut absolute: u64 = 0;
    let mut squared: u128 = 0;
    let mut idx: usize = 0;
    while idx < SEASON
        invariant
            idx <= SEASON,
            data@.len() >= SERIES_LEN,
            test@ == data@.subrange(TRAIN_LEN as int, SERIES_LEN as int),
            predicts_from(*predict_fn, TRAIN_LEN as int),
            predicted@.len() == idx,
            forall|i: int|
                0 <= i < idx ==> is_prediction(
                    *predict_fn,
                    data@.subrange(0, TRAIN_LEN + i),
                    #[trigger] predicted@[i],
                ),
            absolute == total_error(predicted@, test@, idx as int),
            squared == total_squared_error(predicted@, test@, idx as int),
        decreases SEASON - idx,
    {
        let history = slice_subrange(data, 0, TRAIN_LEN + idx);
        let predict = predict_fn(history);
        let actual = test[idx];
        let abs_diff: u32 = if predict >= actual {
            predict - actual
        } else {
            actual - predict
        };
        let ghost before = predicted@;
        predicted.push(predict);
        proof {
            lemma_total_error_bound(before, test@, idx as int);
            lemma_totals_ignore_later(before, predicted@, test@, idx as int);
            assert(abs_diff * abs_diff <= u32::MAX * u32::MAX) by (nonlinear_arith)
                requires
                    0 <= abs_diff <= u32::MAX,
            ;
        }
        absolute = absolute + abs_diff as u64;
        squared = squared + (abs_diff as u128) * (abs_diff as u128);
        idx += 1;
    }
    proof {
        lemma_total_error_bound(predicted@, test@, SEASON as int);
        assert(absolute as int / 12 <= u32::MAX) by (nonlinear_arith)
            requires
                absolute <= 12 * u32::MAX,
        ;
        assert(squared as int / 12 <= u64::MAX) by (nonlinear_arith)
            requires
                squared <= 12 * (u32::MAX * u32::MAX),
        ;
    }
    let mae = (absolute / SEASON as u64) as u32;
    let mse = (squared / SEASON as u128) as u64;
    ErrorReport { method: method_name, predicted, mae, mse }
}

/// Tries the three naive methods on the sales series and puts their charts together.
pub fn analyze() -> (r: Analysis)
    ensures
        r.reports@.len() == 3,
        is_error_report(
            r.reports@[0],
            "naive_mean",
            Seq::new(SEASON as nat, |i: int| mean(VALUES@.subrange(0, TRAIN_LEN + i)) as u32),
            VALUES@.subrange(TRAIN_LEN as int, SERIES_LEN as int),
        ),
        is_error_report(
            r.reports@[1],
            "naive_last",
            Seq::new(SEASON as nat, |i: int| VALUES@[TRAIN_LEN + i - 1]),
            VALUES@.subrange(TRAIN_LEN as int, SERIES_LEN as int),
        ),
        is_error_report(
            r.reports@[2],
            "naive_last_season",
            Seq::new(SEASON as nat, |i: int| VALUES@[TRAIN_LEN + i - SEASON]),
            VALUES@.subrange(TRAIN_LEN as int, SERIES_LEN as int),
        ),
        is_gallery(VALUES@, mean(VALUES@) as u32, r.charts@),
{
    let data = values();
    let mut reports: Vec<ErrorReport> = Vec::new();

    let by_mean = error_analysis(data.as_slice(), "naive_mean", &predict_mean);
    assert(by_mean.predicted@ =~= Seq::new(
        SEASON as nat,
        |i: int| mean(VALUES@.subrange(0, TRAIN_LEN + i)) as u32,
    ));
    reports.push(by_mean);

    let by_last = error_analysis(data.as_slice(), "naive_last", &predict_last);
    assert(by_last.predicted@ =~= Seq::new(SEASON as nat, |i: int| VALUES@[TRAIN_LEN + i - 1]));
    reports.push(by_last);

    let by_season = error_analysis(data.as_slice(), "naive_last_season", &predict_seasonal);
    assert(by_season.predicted@ =~= Seq::new(SEASON as nat, |i: int| VALUES@[TRAIN_LEN + i - SEASON]));
    reports.push(by_season);

    let charts = render_graphs(data.as_slice(), &predict_mean);
    Analysis { reports, charts }
}

} // verus!
