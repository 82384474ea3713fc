use smarst_fan::config::Config;
use smarst_fan::status::{telemetry_samples, Status, TelemetryTopic};

#[test]
fn all_fields_present_yield_three_samples_in_order() {
    let status = Status { rpm: Some(1200), throttle: Some(500), temperature: Some(45_200) };
    let samples = telemetry_samples(&status);
    assert_eq!(samples.len(), 3);
    assert_eq!(samples[0].0, TelemetryTopic::Rpm);
    assert_eq!(samples[0].1, b"1200".to_vec());
    assert_eq!(samples[1].0, TelemetryTopic::Throttle);
    assert_eq!(samples[1].1, b"0.5".to_vec());
    assert_eq!(samples[2].0, TelemetryTopic::Temperature);
    assert_eq!(samples[2].1, b"45.2".to_vec());
}

#[test]
fn absent_field_publishes_nothing_without_blocking_others() {
    let status = Status { rpm: None, throttle: Some(250), temperature: Some(-12_300) };
    let samples = telemetry_samples(&status);
    assert_eq!(samples.len(), 2);
    assert_eq!(samples[0].0, TelemetryTopic::Throttle);
    assert_eq!(samples[0].1, b"0.25".to_vec());
    assert_eq!(samples[1].0, TelemetryTopic::Temperature);
    assert_eq!(samples[1].1, b"-12.3".to_vec());
}

#[test]
fn empty_snapshot_publishes_nothing() {
    let status = Status { rpm: None, throttle: None, temperature: None };
    assert!(telemetry_samples(&status).is_empty());
}

#[test]
fn whole_values_render_without_fraction() {
    let status = Status { rpm: Some(0), throttle: Some(1000), temperature: Some(45_000) };
    let samples = telemetry_samples(&status);
    assert_eq!(samples[0].1, b"0".to_vec());
    assert_eq!(samples[1].1, b"1".to_vec());
    assert_eq!(samples[2].1, b"45".to_vec());
}

#[test]
fn fraction_keeps_significant_digits_only() {
    let status = Status { rpm: None, throttle: Some(255), temperature: Some(7) };
    let samples = telemetry_samples(&status);
    assert_eq!(samples[0].1, b"0.255".to_vec());
    assert_eq!(samples[1].1, b"0.007".to_vec());
}

#[test]
fn valid_config_passes_validation() {
    let config = Config {
        tacho_gpio_pin: 17,
        pwm_chip: 0,
        pwm_channel: 1,
        tacho_enabled: true,
        target_temperature: 45_000,
        min_throttle: 0,
        max_throttle: 1000,
        proportional: 1,
        integral: 1,
        derivative: 0,
        pwm_frequency_hz: 25_000,
        cycle_period_ms: 300,
    };
    assert!(config.validate());
}

#[test]
fn crossed_throttle_bounds_fail_validation() {
    let config = Config {
        tacho_gpio_pin: 17,
        pwm_chip: 0,
        pwm_channel: 1,
        tacho_enabled: false,
        target_temperature: 45_000,
        min_throttle: 800,
        max_throttle: 300,
        proportional: 1,
        integral: 1,
        derivative: 0,
        pwm_frequency_hz: 25_000,
        cycle_period_ms: 300,
    };
    assert!(!config.validate());
}

#[test]
fn zero_frequency_fails_validation() {
    let config = Config {
        tacho_gpio_pin: 17,
        pwm_chip: 0,
        pwm_channel: 1,
        tacho_enabled: false,
        target_temperature: 45_000,
        min_throttle: 0,
        max_throttle: 1000,
        proportional: 1,
        integral: 1,
        derivative: 0,
        pwm_frequency_hz: 0,
        cycle_period_ms: 300,
    };
    assert!(!config.validate());
}

#[test]
fn largest_rpm_renders_all_digits() {
    let status = Status { rpm: Some(u64::MAX), throttle: None, temperature: None };
    let samples = telemetry_samples(&status);
    assert_eq!(samples[0].1, b"18446744073709551615".to_vec());
}
