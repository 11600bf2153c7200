use line_follower::color::{CalibrationReference, MarkerReference};
use line_follower::control::{
    default_config, differential_mix, run_on_readings, Config, ControlLoop, LoopError, LoopResult,
    StepOutcome,
};
use line_follower::pid::PidGains;
use line_follower::sensor::decode_raw_color;

fn marker(label: &str, reference: (i32, i32, i32), tolerance: i32) -> MarkerReference {
    MarkerReference { label: String::from(label), reference, tolerance }
}

fn test_config(max_iterations: usize) -> Config {
    Config {
        calibration: CalibrationReference { white: (100, 100, 100), black: (0, 0, 0) },
        markers: vec![marker("blue", (30, 86, 93), 30), marker("red", (124, 27, 17), 20)],
        gains: PidGains { kp: 5000, ki: 0, kd: 0 },
        base_speed: 100,
        max_iterations,
    }
}

#[test]
fn mix_moderate_bias() {
    // base_speed = 50, bias = 0.2: left = 60, right = 40.
    assert_eq!(differential_mix(50, 2000), (60, 40));
}

#[test]
fn mix_saturates_at_full_command() {
    // base_speed = 80, bias = 0.9: raw left = 80 + 72 = 152, clamped to 100.
    assert_eq!(differential_mix(80, 9000), (100, 8));
}

#[test]
fn mix_zero_bias_drives_straight() {
    assert_eq!(differential_mix(50, 0), (50, 50));
}

#[test]
fn mix_negative_bias_turns_left() {
    assert_eq!(differential_mix(50, -2000), (40, 60));
}

#[test]
fn mix_clamps_lower_bound() {
    assert_eq!(differential_mix(-80, 9000), (-100, -8));
}

#[test]
fn validate_accepts_distinct_points() {
    assert!(test_config(10).validate().is_ok());
}

#[test]
fn validate_rejects_equal_channel() {
    for channel in 0..3 {
        let mut config = test_config(10);
        match channel {
            0 => config.calibration.black.0 = config.calibration.white.0,
            1 => config.calibration.black.1 = config.calibration.white.1,
            _ => config.calibration.black.2 = config.calibration.white.2,
        }
        assert!(config.validate().is_err());
        assert!(!config.is_well_formed());
    }
}

#[test]
fn default_config_is_well_formed() {
    let config = default_config();
    assert!(config.is_well_formed());
    assert_eq!(config.markers.len(), 2);
    assert_eq!(config.markers[0].label, "blue");
    assert_eq!(config.markers[1].label, "red");
    assert_eq!(config.base_speed, 100);
    assert_eq!(config.max_iterations, 1000);
}

#[test]
fn run_times_out_when_nothing_matches() {
    let config = test_config(5);
    let readings = vec![(200, 200, 200); 5];
    assert_eq!(run_on_readings(config, &readings), LoopResult::Timeout);
}

#[test]
fn run_stops_on_first_matching_iteration() {
    let config = test_config(10);
    let readings = vec![(200, 200, 200), (200, 200, 200), (124, 27, 17), (200, 200, 200)];
    let result = run_on_readings(config, &readings);
    assert_eq!(result, LoopResult::Marker(1));
    let config = test_config(10);
    assert_eq!(config.markers[1].label, "red");
}

#[test]
fn run_returns_earlier_marker_on_overlap() {
    let mut config = test_config(10);
    config.markers = vec![marker("first", (50, 50, 50), 40), marker("second", (60, 60, 60), 40)];
    let readings = vec![(55, 55, 55)];
    assert_eq!(run_on_readings(config, &readings), LoopResult::Marker(0));
}

#[test]
fn run_aborts_when_readings_run_out() {
    let config = test_config(5);
    let readings = vec![(200, 200, 200); 3];
    assert_eq!(run_on_readings(config, &readings), LoopResult::Aborted(LoopError::SensorRead));
}

#[test]
fn step_drives_with_clamped_mix() {
    // Bright reading: brightness 1.0, error 1.0, bias 0.5 with kp = 0.5;
    // mix at base 100 gives raw (150, 50), clamped to (100, 50).
    let mut ctl = ControlLoop::new(test_config(2));
    let out = ctl.step((100, 100, 100));
    assert_eq!(out, StepOutcome::Drive { left: 100, right: 50, more: true });
    assert_eq!(ctl.iterations, 1);
    // Dark reading: error -1.0; the integral returns to zero and the turn
    // reverses. This second step exhausts the budget of two.
    let out = ctl.step((0, 0, 0));
    assert_eq!(out, StepOutcome::Drive { left: 50, right: 100, more: false });
    assert_eq!(ctl.pid.state.integral, 0);
    assert_eq!(ctl.iterations, 2);
}

#[test]
fn step_stops_on_marker_without_driving() {
    let mut ctl = ControlLoop::new(test_config(5));
    let out = ctl.step((124, 27, 17));
    assert_eq!(out, StepOutcome::Marker(1));
    assert_eq!(ctl.iterations, 0);
    assert_eq!(ctl.pid.state.integral, 0);
}

#[test]
fn run_with_budget_of_one() {
    let config = test_config(1);
    let readings = vec![(124, 27, 17)];
    assert_eq!(run_on_readings(config, &readings), LoopResult::Marker(1));
    let config = test_config(1);
    let readings = vec![(200, 200, 200), (124, 27, 17)];
    assert_eq!(run_on_readings(config, &readings), LoopResult::Timeout);
}

#[test]
fn run_ignores_readings_beyond_budget() {
    let config = test_config(2);
    let readings = vec![(200, 200, 200), (200, 200, 200), (124, 27, 17)];
    assert_eq!(run_on_readings(config, &readings), LoopResult::Timeout);
}

#[test]
fn decode_reads_three_little_endian_channels() {
    let data = vec![124, 0, 27, 0, 17, 0, 0, 0];
    assert_eq!(decode_raw_color(&data), Some((124, 27, 17)));
}

#[test]
fn decode_reads_signed_values() {
    let data = vec![0xFF, 0xFF, 0x00, 0x80, 0xFF, 0x7F, 0, 0];
    assert_eq!(decode_raw_color(&data), Some((-1, -32768, 32767)));
}

#[test]
fn decode_rejects_short_record() {
    let data = vec![124, 0, 27, 0, 17, 0, 0];
    assert_eq!(decode_raw_color(&data), None);
}
