use sales_forecast::data::{SEASON, VALUES};
use sales_forecast::eval::ForecastEval;
use sales_forecast::naive::{analyze, error_analysis, predict_last, predict_seasonal, render_graphs, CHART_SEASONS};
use sales_forecast::score::Score;

fn series() -> Vec<f32> {
    VALUES.iter().map(|v| *v as f32).collect()
}

fn predict_mean(data: &[f32]) -> f32 {
    data.iter().sum::<f32>() / data.len() as f32
}

fn evaluate(predicted: &[f32], test: &[f32]) -> ForecastEval<f32> {
    assert_eq!(predicted.len(), test.len());
    let mut signed = 0.0;
    let mut squared = 0.0;
    for i in 0..predicted.len() {
        let diff = predicted[i] - test[i];
        signed += diff;
        squared += diff * diff;
    }
    let n = predicted.len() as f32;
    ForecastEval { mae: (signed / n).abs(), rmse: Score::from_bits((squared / n).sqrt().to_bits()) }
}

fn value_of(score: Score) -> f32 {
    f32::from_bits(score.to_bits())
}

#[test]
fn last_and_seasonal_pick_observations_of_any_kind() {
    assert_eq!(predict_last(&[1.5, 2.5]), 2.5);
    assert_eq!(predict_last(&["a", "b", "c"]), "c");
    let data = series();
    assert_eq!(predict_last(&data), 1470.0);
    assert_eq!(predict_seasonal(&data), 1356.0);
    assert_eq!(predict_seasonal(&data[..SEASON]), 953.0);
}

#[test]
fn error_analysis_hands_each_forecast_every_observation_before_its_step() {
    let data = series();
    let lengths = std::cell::RefCell::new(Vec::new());
    let watch = |history: &[f32]| {
        lengths.borrow_mut().push(history.len());
        assert_eq!(history, &data[..history.len()]);
        history.len() as f32
    };
    let report = error_analysis(&data, "watch", &watch, &evaluate);
    assert_eq!(*lengths.borrow(), (48..60).collect::<Vec<usize>>());
    assert_eq!(report.method, "watch");
    assert_eq!(report.predicted, (48..60).map(|n| n as f32).collect::<Vec<f32>>());
    let expected = evaluate(&report.predicted, &data[48..60]);
    assert_eq!(report.eval.mae, expected.mae);
    assert_eq!(report.eval.rmse.to_bits(), expected.rmse.to_bits());
}

#[test]
fn error_analysis_of_the_last_observation() {
    let data = series();
    let report = error_analysis(&data, "naive_last", &predict_last::<f32>, &evaluate);
    assert_eq!(report.predicted, data[47..59].to_vec());
    // the signed errors cancel but for the first and last: (1390 - 1470) / 12
    assert!((report.eval.mae - 80.0 / 12.0).abs() < 1.0e-4);
    assert!((value_of(report.eval.rmse) - 71_965.5_f32.sqrt()).abs() < 1.0e-2);
}

#[test]
fn naive_analysis_reports_the_three_methods_in_order() {
    let data = series();
    let analysis = analyze(&data, &predict_mean, &evaluate);
    let names: Vec<&str> = analysis.reports.iter().map(|r| r.method).collect();
    assert_eq!(names, vec!["naive_mean", "naive_last", "naive_last_season"]);

    let means: Vec<f32> = (48..60).map(|n| predict_mean(&data[..n])).collect();
    assert_eq!(analysis.reports[0].predicted, means);
    assert_eq!(analysis.reports[1].predicted, data[47..59].to_vec());
    assert_eq!(analysis.reports[2].predicted, data[36..48].to_vec());
    for report in &analysis.reports {
        let expected = evaluate(&report.predicted, &data[48..60]);
        assert_eq!(report.eval.mae, expected.mae);
        assert_eq!(report.eval.rmse.to_bits(), expected.rmse.to_bits());
    }
    // the last season is the best of the three on this series
    let rmse: Vec<f32> = analysis.reports.iter().map(|r| value_of(r.eval.rmse)).collect();
    assert!(rmse[2] < rmse[1] && rmse[1] < rmse[0]);
}

#[test]
fn naive_analysis_asks_for_five_charts() {
    let data = series();
    let analysis = analyze(&data, &predict_mean, &evaluate);
    let charts = &analysis.charts;
    assert_eq!(charts.len(), 5);
    let names: Vec<&str> = charts.iter().map(|c| c.name).collect();
    assert_eq!(names, vec!["starting_data", "seasonal_dynamics", "naive_mean", "naive_last", "naive_last_season"]);
    let dirs: Vec<Option<&str>> = charts.iter().map(|c| c.dir).collect();
    assert_eq!(dirs, vec![None, None, Some("lab_1"), Some("lab_1"), Some("lab_1")]);
    let mixed: Vec<bool> = charts.iter().map(|c| c.mix_color).collect();
    assert_eq!(mixed, vec![false, true, true, true, true]);

    assert_eq!(charts[0].series, data);
    assert_eq!(charts[1].series, data);
    let mean = predict_mean(&data);
    for (chart, value) in [(&charts[2], mean), (&charts[3], 1470.0)] {
        assert_eq!(chart.series.len(), 60 + CHART_SEASONS * SEASON);
        assert_eq!(&chart.series[..60], &data[..]);
        assert!(chart.series[60..].iter().all(|v| *v == value));
    }
    assert_eq!(charts[4].series.len(), 96);
    assert_eq!(&charts[4].series[..60], &data[..]);
    for round in 0..3 {
        assert_eq!(&charts[4].series[60 + 12 * round..72 + 12 * round], &data[48..60]);
    }
}

#[test]
fn charts_of_a_single_season_repeat_it() {
    let data: Vec<u32> = (1..=12).collect();
    let charts = render_graphs(&data, &|d: &[u32]| d.iter().sum::<u32>() / d.len() as u32);
    assert_eq!(charts[2].series[12..], vec![6; 36][..]);
    assert_eq!(charts[3].series[12..], vec![12; 36][..]);
    let mut repeated = data.clone();
    for _ in 0..3 {
        repeated.extend(&data);
    }
    assert_eq!(charts[4].series, repeated);
}
