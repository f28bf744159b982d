use auto_batching_proxy::config::{AppConfig, Args, LogLevel};
use std::time::Duration;

fn get_empty_args() -> Args {
    Args {
        port: None,
        max_wait_time_ms: None,
        max_batch_size: None,
        batch_check_interval_ms: None,
        include_batch_info: None,
        inference_url: None,
        inference_timeout_secs: None,
        max_inference_inputs: None,
        log_level: None,
    }
}

#[test]
fn test_build_from_default() {
    let config = AppConfig::build(None);
    assert!(config.is_ok());
    let config = config.unwrap();

    let defaults = AppConfig::default();
    assert_eq!(config.port, defaults.port);
    assert_eq!(config.max_wait_time_ms, defaults.max_wait_time_ms);
    assert_eq!(config.max_batch_size, defaults.max_batch_size);
    assert_eq!(
        config.batch_check_interval_ms,
        defaults.batch_check_interval_ms
    );
    assert_eq!(config.inference_url, defaults.inference_url);
    assert_eq!(
        config.inference_timeout_secs,
        defaults.inference_timeout_secs
    );
    assert_eq!(config.log_level, defaults.log_level);
}

#[test]
fn test_build_from_args() {
    let args = Args {
        port: Some(6000),
        max_wait_time_ms: Some(200),
        max_batch_size: Some(16),
        batch_check_interval_ms: Some(50),
        include_batch_info: Some(false),
        inference_url: Some("http://custom:9090/embed".to_string()),
        inference_timeout_secs: Some(60),
        max_inference_inputs: Some(16),
        log_level: Some(LogLevel::Debug),
    };

    let config = AppConfig::build(Some(args));
    assert!(config.is_ok());
    let config = config.unwrap();

    assert_eq!(config.port, 6000);
    assert_eq!(config.max_wait_time_ms, 200);
    assert_eq!(config.max_batch_size, 16);
    assert_eq!(config.batch_check_interval_ms, 50);
    assert_eq!(config.include_batch_info, false);
    assert_eq!(config.inference_url, "http://custom:9090/embed");
    assert_eq!(config.inference_timeout_secs, 60);
    assert_eq!(config.max_inference_inputs, 16);
    assert_eq!(config.log_level, "debug".to_string());
}

#[test]
fn test_build_from_partial_args() {
    let partial_args = Args {
        port: Some(5000),
        max_batch_size: Some(25),
        ..get_empty_args()
    };

    let config = AppConfig::build(Some(partial_args));
    assert!(config.is_ok());
    let config = config.unwrap();

    let defaults = AppConfig::default();
    assert_eq!(config.port, 5000);
    assert_eq!(config.max_wait_time_ms, defaults.max_wait_time_ms);
    assert_eq!(config.max_batch_size, 25);
    assert_eq!(
        config.batch_check_interval_ms,
        defaults.batch_check_interval_ms
    );
    assert_eq!(config.include_batch_info, defaults.include_batch_info);
    assert_eq!(config.inference_url, defaults.inference_url);
    assert_eq!(
        config.inference_timeout_secs,
        defaults.inference_timeout_secs
    );
}

#[test]
fn test_build_fails_when_max_batch_size_is_0() {
    let invalid_args = Args {
        max_batch_size: Some(0),
        ..get_empty_args()
    };

    let config = AppConfig::build(Some(invalid_args));
    assert!(config.is_err());
}

#[test]
fn test_build_fails_when_max_wait_time_ms_is_0() {
    let invalid_args = Args {
        max_wait_time_ms: Some(0),
        ..get_empty_args()
    };

    let config = AppConfig::build(Some(invalid_args));
    assert!(config.is_err());
}

#[test]
fn default_values_are_the_documented_ones() {
    let defaults = AppConfig::default();
    assert_eq!(defaults.port, 3000);
    assert_eq!(defaults.max_wait_time_ms, 500);
    assert_eq!(defaults.max_batch_size, 8);
    assert_eq!(defaults.batch_check_interval_ms, 10);
    assert_eq!(defaults.include_batch_info, false);
    assert_eq!(defaults.inference_url, "http://127.0.0.1:8080/embed");
    assert_eq!(defaults.inference_timeout_secs, 30);
    assert_eq!(defaults.max_inference_inputs, 32);
    assert_eq!(defaults.log_level, "info");
}

#[test]
fn build_reports_which_option_is_zero() {
    let wait = Args {
        max_wait_time_ms: Some(0),
        max_batch_size: Some(0),
        ..get_empty_args()
    };
    assert_eq!(
        AppConfig::build(Some(wait)).unwrap_err(),
        "max_wait_time_ms must be > 0"
    );
    let size = Args {
        max_batch_size: Some(0),
        ..get_empty_args()
    };
    assert_eq!(
        AppConfig::build(Some(size)).unwrap_err(),
        "max_batch_size must be > 0"
    );
}

#[test]
fn build_accepts_the_smallest_limits() {
    let args = Args {
        max_wait_time_ms: Some(1),
        max_batch_size: Some(1),
        max_inference_inputs: Some(0),
        ..get_empty_args()
    };
    let config = AppConfig::build(Some(args)).unwrap();
    assert_eq!(config.max_wait_time_ms, 1);
    assert_eq!(config.max_batch_size, 1);
    assert_eq!(config.max_inference_inputs, 0);
}

#[test]
fn log_level_names_are_lower_case() {
    assert_eq!(LogLevel::Critical.as_str(), "critical");
    assert_eq!(LogLevel::Normal.as_str(), "normal");
    assert_eq!(LogLevel::Debug.as_str(), "debug");
    assert_eq!(LogLevel::Off.as_str(), "off");
    let args = Args {
        log_level: Some(LogLevel::Off),
        ..get_empty_args()
    };
    assert_eq!(AppConfig::build(Some(args)).unwrap().log_level, "off");
}

#[test]
fn max_wait_time_duration_is_in_milliseconds() {
    let config = AppConfig::default();
    assert_eq!(config.max_wait_time_duration(), Duration::from_millis(500));
    let args = Args {
        max_wait_time_ms: Some(1500),
        ..get_empty_args()
    };
    let config = AppConfig::build(Some(args)).unwrap();
    assert_eq!(config.max_wait_time_duration(), Duration::new(1, 500_000_000));
}
