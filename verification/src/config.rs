//! The configuration record, its defaults and its validation.

use crate::clock::{duration_nanos, NANOS_PER_MILLI};
use std::time::Duration;
use vstd::prelude::*;

verus! {

/// Verbosity of the HTTP server's own log output.
#[derive(Debug, Clone, Copy, PartialEq, Eq, Structural)]
pub enum LogLevel {
    Critical,
    Normal,
    Debug,
    Off,
}

impl LogLevel {
    /// The lower-case name under which the level is configured.
    pub open spec fn name(self) -> Seq<char> {
        match self {
            LogLevel::Critical => "critical"@,
            LogLevel::Normal => "normal"@,
            LogLevel::Debug => "debug"@,
            LogLevel::Off => "off"@,
        }
    }

    pub fn as_str(&self) -> (text: &'static str)
        ensures
            text@ == self.name(),
    {
        match self {
            LogLevel::Critical => "critical",
            LogLevel::Normal => "normal",
            LogLevel::Debug => "debug",
            LogLevel::Off => "off",
        }
    }
}

/// The options a caller may set; an absent one keeps its default.
#[derive(Debug)]
pub struct Args {
    /// Port the proxy listens on.
    pub port: Option<u16>,
    /// Longest time, in milliseconds, that the oldest queued request may wait.
    pub max_wait_time_ms: Option<u64>,
    /// Largest number of requests in one batch.
    pub max_batch_size: Option<usize>,
    /// Period, in milliseconds, of the dispatcher's age check.
    pub batch_check_interval_ms: Option<u64>,
    /// Whether batch diagnostics are attached to each response.
    pub include_batch_info: Option<bool>,
    /// Full URL of the inference service.
    pub inference_url: Option<String>,
    /// Timeout, in seconds, of one call to the inference service.
    pub inference_timeout_secs: Option<u64>,
    /// Largest number of inputs in one call to the inference service.
    pub max_inference_inputs: Option<usize>,
    /// Log verbosity.
    pub log_level: Option<LogLevel>,
}

/// The immutable configuration that the proxy runs under.
#[derive(Debug)]
pub struct AppConfig {
    pub port: u16,
    pub max_wait_time_ms: u64,
    pub max_batch_size: usize,
    pub batch_check_interval_ms: u64,
    pub include_batch_info: bool,
    pub inference_url: String,
    pub inference_timeout_secs: u64,
    pub max_inference_inputs: usize,
    pub log_level: String,
}

/// The mathematical content of an [`AppConfig`].
pub struct ConfigView {
    pub port: u16,
    pub max_wait_time_ms: u64,
    pub max_batch_size: usize,
    pub batch_check_interval_ms: u64,
    pub include_batch_info: bool,
    pub inference_url: Seq<char>,
    pub inference_timeout_secs: u64,
    pub max_inference_inputs: usize,
    pub log_level: Seq<char>,
}

impl View for AppConfig {
    type V = ConfigView;

    open spec fn view(&self) -> ConfigView {
        ConfigView {
            port: self.port,
            max_wait_time_ms: self.max_wait_time_ms,
            max_batch_size: self.max_batch_size,
            batch_check_interval_ms: self.batch_check_interval_ms,
            include_batch_info: self.include_batch_info,
            inference_url: self.inference_url@,
            inference_timeout_secs: self.inference_timeout_secs,
            max_inference_inputs: self.max_inference_inputs,
            log_level: self.log_level@,
        }
    }
}

/// The configuration in force when no option is set.
pub open spec fn default_config() -> ConfigView {
    ConfigView {
        port: 3000,
        max_wait_time_ms: 500,
        max_batch_size: 8,
        batch_check_interval_ms: 10,
        include_batch_info: false,
        inference_url: "http://127.0.0.1:8080/embed"@,
        inference_timeout_secs: 30,
        max_inference_inputs: 32,
        log_level: "info"@,
    }
}

/// `chosen` where it is set, `fallback` where it is not.
pub open spec fn set_or<T>(chosen: Option<T>, fallback: T) -> T {
    match chosen {
        Some(value) => value,
        None => fallback,
    }
}

/// The defaults overridden by every option that `args` sets.
pub open spec fn merged_config(args: Option<Args>) -> ConfigView {
    let base = default_config();
    match args {
        None => base,
        Some(a) => ConfigView {
            port: set_or(a.port, base.port),
            max_wait_time_ms: set_or(a.max_wait_time_ms, base.max_wait_time_ms),
            max_batch_size: set_or(a.max_batch_size, base.max_batch_size),
            batch_check_interval_ms: set_or(
                a.batch_check_interval_ms,
                base.batch_check_interval_ms,
            ),
            include_batch_info: set_or(a.include_batch_info, base.include_batch_info),
            inference_url: match a.inference_url {
                Some(url) => url@,
                None => base.inference_url,
            },
            inference_timeout_secs: set_or(a.inference_timeout_secs, base.inference_timeout_secs),
            max_inference_inputs: set_or(a.max_inference_inputs, base.max_inference_inputs),
            log_level: match a.log_level {
                Some(level) => level.name(),
                None => base.log_level,
            },
        },
    }
}

/// The complaint that `args` draws, if any: the wait time is examined before
/// the batch size.
pub open spec fn config_error(args: Option<Args>) -> Option<Seq<char>> {
    match args {
        None => None,
        Some(a) => if a.max_wait_time_ms == Some(0u64) {
            Some("max_wait_time_ms must be > 0"@)
        } else if a.max_batch_size == Some(0usize) {
            Some("max_batch_size must be > 0"@)
        } else {
            None
        },
    }
}

impl ConfigView {
    /// Both triggers are usable: a batch may hold a request, and the age
    /// deadline is not already passed on arrival.
    pub open spec fn is_valid(self) -> bool {
        self.max_wait_time_ms > 0 && self.max_batch_size > 0
    }
}

impl Clone for AppConfig {
    fn clone(&self) -> (copy: Self)
        ensures
            copy == *self,
    {
        AppConfig {
            port: self.port,
            max_wait_time_ms: self.max_wait_time_ms,
            max_batch_size: self.max_batch_size,
            batch_check_interval_ms: self.batch_check_interval_ms,
            include_batch_info: self.include_batch_info,
            inference_url: self.inference_url.clone(),
            inference_timeout_secs: self.inference_timeout_secs,
            max_inference_inputs: self.max_inference_inputs,
            log_level: self.log_level.clone(),
        }
    }
}

impl Default for AppConfig {
    fn default() -> (config: Self)
        ensures
            config@ == default_config(),
    {
        AppConfig {
            port: 3000,
            max_wait_time_ms: 500,
            max_batch_size: 8,
            batch_check_interval_ms: 10,
            include_batch_info: false,
            inference_url: "http://127.0.0.1:8080/embed".to_owned(),
            inference_timeout_secs: 30,
            max_inference_inputs: 32,
            log_level: "info".to_owned(),
        }
    }
}

impl AppConfig {
    /// Merges the options that are set over the defaults and validates the
    /// outcome: a zero wait time or a zero batch size is refused.
    pub fn build(args: Option<Args>) -> (built: Result<Self, String>)
        ensures
            match built {
                Ok(config) => {
                    &&& config_error(args) is None
                    &&& config@ == merged_config(args)
                    &&& config@.is_valid()
                },
                Err(complaint) => config_error(args) == Some(complaint@),
            },
    {
        let mut config = AppConfig::default();
        if let Some(args) = args {
            if let Some(port) = args.port {
                config.port = port;
            }
            if let Some(max_wait_time_ms) = args.max_wait_time_ms {
                if max_wait_time_ms == 0 {
                    return Err("max_wait_time_ms must be > 0".to_owned());
                }
                config.max_wait_time_ms = max_wait_time_ms;
            }
            if let Some(max_batch_size) = args.max_batch_size {
                if max_batch_size == 0 {
                    return Err("max_batch_size must be > 0".to_owned());
                }
                config.max_batch_size = max_batch_size;
            }
            if let Some(batch_check_interval_ms) = args.batch_check_interval_ms {
                config.batch_check_interval_ms = batch_check_interval_ms;
            }
            if let Some(include_batch_info) = args.include_batch_info {
                config.include_batch_info = include_batch_info;
            }
            if let Some(inference_url) = args.inference_url {
                config.inference_url = inference_url;
            }
            if let Some(inference_timeout_secs) = args.inference_timeout_secs {
                config.inference_timeout_secs = inference_timeout_secs;
            }
            if let Some(max_inference_inputs) = args.max_inference_inputs {
                config.max_inference_inputs = max_inference_inputs;
            }
            if let Some(log_level) = args.log_level {
                config.log_level = log_level.as_str().to_owned();
            }
        }
        Ok(config)
    }

    /// The age at which the oldest queued request forces a batch out.
    pub fn max_wait_time_duration(&self) -> (wait: Duration)
        ensures
            duration_nanos(wait) == self.max_wait_time_ms * NANOS_PER_MILLI,
    {
        Duration::from_millis(self.max_wait_time_ms)
    }
}

} // verus!
