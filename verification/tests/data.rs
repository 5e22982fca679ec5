use sales_forecast::chart::{extended, joined, padded};
use sales_forecast::data::{test_window, train_window, values, SEASON, SERIES_LEN, TRAIN_LEN, VALUES};
use sales_forecast::eval::{score_forecast, ForecastError, ForecastEval};
use sales_forecast::score::Score;

#[test]
fn series_has_five_seasons() {
    assert_eq!(SEASON, 12);
    assert_eq!(TRAIN_LEN, 4 * SEASON);
    assert_eq!(SERIES_LEN, 5 * SEASON);
    assert_eq!(VALUES.len(), SERIES_LEN);
    assert_eq!(values(), VALUES.to_vec());
    assert_eq!(VALUES[0], 953);
    assert_eq!(VALUES[59], 1470);
    assert_eq!(VALUES.iter().sum::<u32>(), 101_361);
}

#[test]
fn windows_split_the_series_without_gap_or_overlap() {
    let data = values();
    let train = train_window(&data);
    let test = test_window(&data);
    assert_eq!(train.len(), 48);
    assert_eq!(test.len(), 12);
    assert_eq!(train, &data[0..48]);
    assert_eq!(test, &data[48..60]);
    assert_eq!(joined(train, test), data);
    assert_eq!(train[47], 1390);
    assert_eq!(test[0], 1356);
}

#[test]
fn windows_of_a_longer_series_ignore_what_follows() {
    let data: Vec<u32> = (0..100).collect();
    assert_eq!(train_window(&data), &data[0..48]);
    assert_eq!(test_window(&data), &data[48..60]);
}

#[test]
fn joined_keeps_order_and_handles_empty_parts() {
    assert_eq!(joined(&[1, 2], &[3]), vec![1, 2, 3]);
    assert_eq!(joined::<u8>(&[], &[]), Vec::<u8>::new());
    assert_eq!(joined(&[], &[4, 5]), vec![4, 5]);
    assert_eq!(joined(&[4, 5], &[]), vec![4, 5]);
}

#[test]
fn padded_appends_copies_of_one_value() {
    assert_eq!(padded(&[1, 2], 9, 3), vec![1, 2, 9, 9, 9]);
    assert_eq!(padded(&[1, 2], 9, 0), vec![1, 2]);
    assert_eq!(padded::<f32>(&[], 0.0, 2), vec![0.0, 0.0]);
}

fn spread(predicted: &[f32], test: &[f32]) -> ForecastEval<f32> {
    assert_eq!(predicted.len(), test.len());
    let mut sum = 0.0;
    for i in 0..predicted.len() {
        sum += predicted[i] - test[i];
    }
    ForecastEval { mae: sum, rmse: Score::from_bits((sum * sum).to_bits()) }
}

#[test]
fn forecast_of_another_length_is_not_scored() {
    let longer = score_forecast(&[1.0, 2.0, 3.0], &[1.0, 2.0], &spread);
    assert!(matches!(longer, Err(ForecastError::LengthMismatch)));
    let shorter = score_forecast(&[1.0], &[1.0, 2.0], &spread);
    assert!(matches!(shorter, Err(ForecastError::LengthMismatch)));
    let against_nothing = score_forecast(&[1.0], &[], &spread);
    assert!(matches!(against_nothing, Err(ForecastError::LengthMismatch)));
}

#[test]
fn forecast_of_the_same_length_is_scored_by_the_metric() {
    let eval = score_forecast(&[4.0, 6.0], &[1.0, 2.0], &spread).unwrap();
    assert_eq!(eval.mae, 7.0);
    assert_eq!(eval.rmse.to_bits(), 49.0_f32.to_bits());
    let empty = score_forecast(&[], &[], &spread).unwrap();
    assert_eq!(empty.mae, 0.0);
}

#[test]
fn extended_appends_the_tail_over_and_over() {
    assert_eq!(extended(&[1, 2], &[8, 9], 3), vec![1, 2, 8, 9, 8, 9, 8, 9]);
    assert_eq!(extended(&[1, 2], &[8, 9], 0), vec![1, 2]);
    assert_eq!(extended(&[1, 2], &[], 5), vec![1, 2]);
    assert_eq!(extended(&[], &[7], 2), vec![7, 7]);
}
