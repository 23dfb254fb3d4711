use cider_core::seek_calibrator::{
    CalibrationSample, SeekCalibrator, DEFAULT_SEEK_OFFSET_MS, MAX_SEEK_OFFSET_MS,
    MIN_SEEK_OFFSET_MS,
};

#[test]
fn test_initial_offset() {
    let calibrator = SeekCalibrator::new();
    assert_eq!(calibrator.offset_ms(), DEFAULT_SEEK_OFFSET_MS);
}

#[test]
fn test_no_update_without_pending() {
    let mut calibrator = SeekCalibrator::new();
    let initial = calibrator.offset_ms();

    // Without marking seek performed, measure_if_pending should do nothing
    let updated = calibrator.measure_if_pending(-200);
    assert!(!updated);
    assert_eq!(calibrator.offset_ms(), initial);
}

#[test]
fn test_behind_increases_offset() {
    let mut calibrator = SeekCalibrator::new();
    let initial = calibrator.offset_ms();

    // Mark seek performed, then measure
    calibrator.mark_seek_performed();
    let updated = calibrator.measure_if_pending(-200); // We're behind by 200ms

    assert!(updated);
    assert!(calibrator.offset_ms() > initial);
}

#[test]
fn test_only_one_measurement_per_seek() {
    let mut calibrator = SeekCalibrator::new();

    // Mark seek performed
    calibrator.mark_seek_performed();

    // First measurement should update
    let updated1 = calibrator.measure_if_pending(-200);
    assert!(updated1);
    let after_first = calibrator.offset_ms();

    // Second measurement without new seek should NOT update
    let updated2 = calibrator.measure_if_pending(-200);
    assert!(!updated2);
    assert_eq!(calibrator.offset_ms(), after_first);
}

#[test]
fn test_ahead_decreases_offset() {
    let mut calibrator = SeekCalibrator::new();

    // Prime with some samples
    for _ in 0..10 {
        calibrator.mark_seek_performed();
        calibrator.measure_if_pending(0);
    }
    let initial = calibrator.offset_ms();

    // We're ahead by 200ms
    calibrator.mark_seek_performed();
    calibrator.measure_if_pending(200);

    // Offset should decrease
    assert!(calibrator.offset_ms() < initial);
}

#[test]
fn test_clamping() {
    let mut calibrator = SeekCalibrator::new();

    // Try to push way below minimum
    for _ in 0..100 {
        calibrator.mark_seek_performed();
        calibrator.measure_if_pending(1000); // Way ahead
    }
    assert!(calibrator.offset_ms() >= MIN_SEEK_OFFSET_MS);

    // Try to push way above maximum
    calibrator.reset();
    for _ in 0..100 {
        calibrator.mark_seek_performed();
        calibrator.measure_if_pending(-5000); // Way behind
    }
    assert!(calibrator.offset_ms() <= MAX_SEEK_OFFSET_MS);
}

#[test]
fn test_convergence() {
    let mut calibrator = SeekCalibrator::new();

    // Simulate: true Cider latency is 700ms
    // Drift = current_offset - 700 (if offset < 700, we're behind)
    let true_latency: i64 = 700;

    for _ in 0..50 {
        let current_offset = calibrator.offset_ms() as i64;
        // Simulate drift based on how close we are to true latency
        let simulated_drift = current_offset - true_latency;

        calibrator.mark_seek_performed();
        calibrator.measure_if_pending(simulated_drift);
    }

    // Should converge close to 700ms
    let offset = calibrator.offset_ms();
    assert!(offset >= 650 && offset <= 750, "Expected ~700ms, got {}ms", offset);
}

#[test]
fn warm_up_rate_is_two_fifths() {
    let mut calibrator = SeekCalibrator::new();
    calibrator.mark_seek_performed();
    assert!(calibrator.measure_if_pending(-200));
    // 500 + 0.4 * 200
    assert_eq!(calibrator.offset_ms(), 580);
    assert_eq!(
        calibrator.sample_history(),
        &[CalibrationSample {
            drift_ms: -200,
            ideal_offset_ms: 700,
            new_offset_ms: 580,
            rejected: false,
        }]
    );
}

#[test]
fn sixth_measurement_still_warms_up() {
    let mut calibrator = SeekCalibrator::new();
    for _ in 0..5 {
        calibrator.mark_seek_performed();
        calibrator.measure_if_pending(0);
    }
    assert_eq!(calibrator.offset_ms(), 500);
    calibrator.mark_seek_performed();
    calibrator.measure_if_pending(-200);
    // 500 + 0.4 * 200
    assert_eq!(calibrator.offset_ms(), 580);
}

#[test]
fn steady_rate_is_three_twentieths_from_the_seventh_measurement() {
    let mut calibrator = SeekCalibrator::new();
    for _ in 0..6 {
        calibrator.mark_seek_performed();
        calibrator.measure_if_pending(0);
    }
    assert_eq!(calibrator.offset_ms(), 500);
    calibrator.mark_seek_performed();
    calibrator.measure_if_pending(-200);
    // 500 + 0.15 * 200
    assert_eq!(calibrator.offset_ms(), 530);
}

#[test]
fn outliers_are_damped_and_marked() {
    let mut calibrator = SeekCalibrator::new();
    calibrator.mark_seek_performed();
    assert!(calibrator.measure_if_pending(-2000));
    // 500 + 0.05 * 2000
    assert_eq!(calibrator.offset_ms(), 600);
    let history = calibrator.sample_history();
    assert_eq!(history.len(), 1);
    assert!(history[0].rejected);
    assert_eq!(history[0].drift_ms, -2000);
    assert_eq!(history[0].ideal_offset_ms, 2500);
    assert_eq!(history[0].new_offset_ms, 600);

    // Exactly 1500 is no outlier.
    calibrator.mark_seek_performed();
    calibrator.measure_if_pending(1500);
    assert!(!calibrator.sample_history()[1].rejected);
    // 600 - 0.4 * 1500 = 0, kept at the lower bound.
    assert_eq!(calibrator.offset_ms(), 100);

    calibrator.mark_seek_performed();
    calibrator.measure_if_pending(1501);
    assert!(calibrator.sample_history()[2].rejected);
}

#[test]
fn preview_shows_the_ideal_offset() {
    let mut calibrator = SeekCalibrator::new();
    assert_eq!(calibrator.preview_calibration(-200), Some(700));
    assert_eq!(calibrator.preview_calibration(200), Some(300));
    assert_eq!(calibrator.preview_calibration(1500), Some(-1000));
    assert_eq!(calibrator.preview_calibration(1501), None);
    assert_eq!(calibrator.preview_calibration(-1501), None);
    assert_eq!(calibrator.preview_calibration(i64::MIN), None);
    // Previewing changes nothing.
    assert_eq!(calibrator.offset_ms(), 500);
    assert!(!calibrator.is_awaiting_measurement());
    calibrator.mark_seek_performed();
    assert!(calibrator.is_awaiting_measurement());
}

#[test]
fn history_keeps_the_latest_ten() {
    let mut calibrator = SeekCalibrator::new();
    for drift in 0..15 {
        calibrator.mark_seek_performed();
        calibrator.measure_if_pending(drift);
    }
    let history = calibrator.sample_history();
    assert_eq!(history.len(), 10);
    assert_eq!(history[0].drift_ms, 5);
    assert_eq!(history[9].drift_ms, 14);
}

#[test]
fn marking_twice_measures_once() {
    let mut calibrator = SeekCalibrator::new();
    calibrator.mark_seek_performed();
    calibrator.mark_seek_performed();
    assert!(calibrator.measure_if_pending(-100));
    assert!(!calibrator.measure_if_pending(-100));
    assert_eq!(calibrator.offset_ms(), 540);
}

#[test]
fn extreme_drifts_stay_within_bounds() {
    let mut calibrator = SeekCalibrator::new();
    calibrator.mark_seek_performed();
    calibrator.measure_if_pending(i64::MIN);
    assert_eq!(calibrator.offset_ms(), MAX_SEEK_OFFSET_MS);
    assert_eq!(calibrator.sample_history()[0].ideal_offset_ms, i64::MAX);
    calibrator.mark_seek_performed();
    calibrator.measure_if_pending(i64::MAX);
    assert_eq!(calibrator.offset_ms(), MIN_SEEK_OFFSET_MS);
    let default = SeekCalibrator::default();
    assert_eq!(default.offset_ms(), DEFAULT_SEEK_OFFSET_MS);
}
