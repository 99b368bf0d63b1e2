use sensehub::app::handlers::calibration::{CalibrationHandler, CalibrationOutcome};
use sensehub::app::state::{CalibrationState, SampleRate};
use sensehub::config::CalibrationConfig;
use sensehub::types::DataPoint;

fn reading(timestamp: i64) -> DataPoint<f64> {
    DataPoint::new(0.1, 0.2, 0.3, 0.4, 0.5, 0.6, timestamp)
}

fn config(warmup_ms: u64, duration_ms: u64) -> CalibrationConfig {
    let mut config = CalibrationConfig::default();
    config.warmup_ms = warmup_ms;
    config.duration_ms = duration_ms;
    config
}

#[test]
fn evenly_spaced_readings_show_one_hundred_hertz() {
    let config = config(0, 6000);
    let mut state: CalibrationState<f64> = CalibrationState::default();
    let batch: Vec<DataPoint<f64>> = (0..100).map(|i| reading(i * 10)).collect();
    let outcome = CalibrationHandler::handle_calibration(&mut state, &batch, 1000, &config);
    assert_eq!(outcome, CalibrationOutcome::StillCalibrating);
    assert_eq!(state.calibration_data.len(), 100);
    assert_eq!(state.calibration_start_time, Some(1000));
    let outcome = CalibrationHandler::handle_calibration(&mut state, &Vec::new(), 7000, &config);
    let rate = SampleRate { samples: 99, millis: 990 };
    assert_eq!(outcome, CalibrationOutcome::Completed(rate));
    assert_eq!(rate.whole_hertz(), 100);
}

#[test]
fn rate_is_intervals_over_span() {
    let data: Vec<DataPoint<f64>> = vec![reading(1000), reading(1003), reading(1004), reading(1010)];
    let rate = CalibrationHandler::calculate_sample_rate_from_timestamps(&data);
    assert_eq!(rate, Some(SampleRate { samples: 3, millis: 10 }));
    assert_eq!(rate.unwrap().whole_hertz(), 300);
    // 7 intervals in 3 ms: 2333.3 Hz, rounded down.
    assert_eq!(SampleRate { samples: 7, millis: 3 }.whole_hertz(), 2333);
    assert_eq!(SampleRate { samples: u64::MAX, millis: 1 }.whole_hertz(), u64::MAX);
}

#[test]
fn one_reading_shows_no_rate() {
    assert_eq!(CalibrationHandler::calculate_sample_rate_from_timestamps(&vec![reading(5)]), None);
    let none: Vec<DataPoint<f64>> = Vec::new();
    assert_eq!(CalibrationHandler::calculate_sample_rate_from_timestamps(&none), None);
}

#[test]
fn equal_or_falling_timestamps_show_no_rate() {
    let same = vec![reading(5), reading(5)];
    assert_eq!(CalibrationHandler::calculate_sample_rate_from_timestamps(&same), None);
    let falling = vec![reading(9), reading(7), reading(8)];
    assert_eq!(CalibrationHandler::calculate_sample_rate_from_timestamps(&falling), None);
}

#[test]
fn a_single_reading_starts_calibration_over() {
    let config = config(0, 100);
    let mut state: CalibrationState<f64> = CalibrationState::default();
    let outcome = CalibrationHandler::handle_calibration(&mut state, &vec![reading(1)], 10, &config);
    assert_eq!(outcome, CalibrationOutcome::StillCalibrating);
    assert_eq!(state.calibration_data.len(), 1);
    let outcome = CalibrationHandler::handle_calibration(&mut state, &Vec::new(), 110, &config);
    assert_eq!(outcome, CalibrationOutcome::Aborted);
    assert!(state.is_calibrating);
    assert!(state.calibration_data.is_empty());
    assert_eq!(state.calibration_start_time, None);
    assert_eq!(state.calculated_sample_rate, None);
}

#[test]
fn two_readings_with_one_timestamp_start_calibration_over() {
    let config = config(0, 100);
    let mut state: CalibrationState<f64> = CalibrationState::default();
    let batch = vec![reading(42), reading(42)];
    CalibrationHandler::handle_calibration(&mut state, &batch, 10, &config);
    let outcome = CalibrationHandler::handle_calibration(&mut state, &Vec::new(), 500, &config);
    assert_eq!(outcome, CalibrationOutcome::Aborted);
    assert!(state.is_calibrating);
    assert_eq!(state.calibration_start_time, None);
    assert!(state.calibration_data.is_empty());
}

#[test]
fn readings_during_warm_up_and_after_measuring_are_dropped() {
    let config = CalibrationConfig::default();
    assert_eq!(config.warmup_ms, 2000);
    assert_eq!(config.duration_ms, 6000);
    let mut state: CalibrationState<f64> = CalibrationState::default();
    CalibrationHandler::process_calibration_data(&mut state, reading(0), 100, &config);
    assert_eq!(state.calibration_start_time, Some(100));
    assert!(state.calibration_data.is_empty());
    CalibrationHandler::process_calibration_data(&mut state, reading(1), 2099, &config);
    assert!(state.calibration_data.is_empty());
    CalibrationHandler::process_calibration_data(&mut state, reading(2), 2100, &config);
    CalibrationHandler::process_calibration_data(&mut state, reading(3), 8099, &config);
    assert_eq!(state.calibration_data.len(), 2);
    CalibrationHandler::process_calibration_data(&mut state, reading(4), 8100, &config);
    assert_eq!(state.calibration_data.len(), 2);
    assert_eq!(state.calibration_start_time, Some(100));
    let stamps: Vec<i64> = state.calibration_data.iter().map(|p| p.timestamp).collect();
    assert_eq!(stamps, vec![2, 3]);
}

#[test]
fn nothing_gathered_keeps_calibrating() {
    let config = config(2000, 6000);
    let mut state: CalibrationState<f64> = CalibrationState::default();
    let outcome = CalibrationHandler::handle_calibration(&mut state, &Vec::new(), 50, &config);
    assert_eq!(outcome, CalibrationOutcome::StillCalibrating);
    assert_eq!(state.calibration_start_time, None);
    CalibrationHandler::handle_calibration(&mut state, &vec![reading(0)], 100, &config);
    let outcome = CalibrationHandler::handle_calibration(&mut state, &Vec::new(), 9000, &config);
    assert_eq!(outcome, CalibrationOutcome::StillCalibrating);
    assert!(state.is_calibrating);
}
