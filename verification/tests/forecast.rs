use sales_forecast::data::{values, VALUES};
use sales_forecast::forecast::{analyze, error_analysis, predict_last, predict_mean, predict_seasonal};

#[test]
fn mean_is_rounded_down() {
    assert_eq!(predict_mean(&[1, 2, 4]), 2);
    assert_eq!(predict_mean(&[7]), 7);
    assert_eq!(predict_mean(&[0, 0, 1]), 0);
    assert_eq!(predict_mean(&VALUES), 1689);
}

#[test]
fn mean_of_large_values_does_not_overflow() {
    assert_eq!(predict_mean(&[u32::MAX, u32::MAX, u32::MAX]), u32::MAX);
    assert_eq!(predict_mean(&[u32::MAX, u32::MAX - 2]), u32::MAX - 1);
}

#[test]
fn last_and_seasonal_pick_observations() {
    assert_eq!(predict_last(&[3, 1, 2]), 2);
    assert_eq!(predict_last(&VALUES), 1470);
    assert_eq!(predict_seasonal(&VALUES), 1356);
    let season: Vec<u32> = (10..22).collect();
    assert_eq!(predict_seasonal(&season), 10);
}

#[test]
fn error_analysis_rolls_the_mean_over_the_test_window() {
    let report = error_analysis(&values(), "naive_mean", &predict_mean);
    assert_eq!(report.method, "naive_mean");
    assert_eq!(report.predicted, vec![1632, 1626, 1621, 1624, 1631, 1639, 1650, 1666, 1676, 1683, 1687, 1693]);
    assert_eq!(report.mae, 393);
    assert_eq!(report.mse, 195_870);
}

#[test]
fn error_analysis_rolls_the_last_observation_over_the_test_window() {
    let report = error_analysis(&values(), "naive_last", &predict_last);
    assert_eq!(report.predicted, vec![1390, 1356, 1347, 1765, 1986, 2096, 2191, 2555, 2253, 2071, 1885, 2024]);
    assert_eq!(report.mae, 217);
    assert_eq!(report.mse, 71_965);
}

#[test]
fn error_analysis_rolls_the_last_season_over_the_test_window() {
    let report = error_analysis(&values(), "naive_last_season", &predict_seasonal);
    assert_eq!(report.predicted, vec![1341, 1301, 1677, 1894, 2065, 2098, 2466, 2125, 1936, 1803, 1837, 1390]);
    assert_eq!(report.mae, 88);
    assert_eq!(report.mse, 9_898);
}

#[test]
fn error_analysis_of_an_exact_forecast_finds_no_error() {
    let data = values();
    let oracle = |history: &[u32]| data[history.len()];
    let report = error_analysis(&data, "oracle", &oracle);
    assert_eq!(report.predicted, data[48..60].to_vec());
    assert_eq!(report.mae, 0);
    assert_eq!(report.mse, 0);
}

#[test]
fn error_analysis_of_extreme_errors_does_not_overflow() {
    let mut data = vec![0_u32; 60];
    for i in 48..60 {
        data[i] = u32::MAX;
    }
    let zero = |_history: &[u32]| 0_u32;
    let report = error_analysis(&data, "zero", &zero);
    assert_eq!(report.mae, u32::MAX);
    assert_eq!(report.mse, u32::MAX as u64 * u32::MAX as u64);
}

#[test]
fn whole_number_analysis_reports_the_three_methods_in_order() {
    let analysis = analyze();
    let names: Vec<&str> = analysis.reports.iter().map(|r| r.method).collect();
    assert_eq!(names, vec!["naive_mean", "naive_last", "naive_last_season"]);
    let maes: Vec<u32> = analysis.reports.iter().map(|r| r.mae).collect();
    assert_eq!(maes, vec![393, 217, 88]);
    let mses: Vec<u64> = analysis.reports.iter().map(|r| r.mse).collect();
    assert_eq!(mses, vec![195_870, 71_965, 9_898]);
}

#[test]
fn whole_number_analysis_asks_for_five_charts() {
    let analysis = analyze();
    let data = values();
    let charts = &analysis.charts;
    assert_eq!(charts.len(), 5);

    assert_eq!(charts[0].name, "starting_data");
    assert_eq!(charts[0].dir, None);
    assert!(!charts[0].mix_color);
    assert_eq!(charts[0].series, data);

    assert_eq!(charts[1].name, "seasonal_dynamics");
    assert_eq!(charts[1].dir, None);
    assert!(charts[1].mix_color);
    assert_eq!(charts[1].series, data);

    assert_eq!(charts[2].name, "naive_mean");
    assert_eq!(charts[2].dir, Some("lab_1"));
    assert!(charts[2].mix_color);
    assert_eq!(charts[2].series.len(), 96);
    assert_eq!(&charts[2].series[..60], &data[..]);
    assert!(charts[2].series[60..].iter().all(|v| *v == 1689));

    assert_eq!(charts[3].name, "naive_last");
    assert_eq!(charts[3].dir, Some("lab_1"));
    assert!(charts[3].mix_color);
    assert_eq!(charts[3].series.len(), 96);
    assert_eq!(&charts[3].series[..60], &data[..]);
    assert!(charts[3].series[60..].iter().all(|v| *v == 1470));

    assert_eq!(charts[4].name, "naive_last_season");
    assert_eq!(charts[4].dir, Some("lab_1"));
    assert!(charts[4].mix_color);
    assert_eq!(charts[4].series.len(), 96);
    assert_eq!(&charts[4].series[..60], &data[..]);
    for round in 0..3 {
        assert_eq!(&charts[4].series[60 + 12 * round..72 + 12 * round], &data[48..60]);
    }
}
