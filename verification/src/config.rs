//! Engine configuration: validated settings and the server parameters.
//!
//! Values are carried in fixed-point units: scan ranges in millimeters,
//! durations in milliseconds.  Loading from the environment is the caller's
//! concern; this module owns the validation rules.

use vstd::prelude::*;

verus! {

/// Largest accepted scan range, in millimeters.
pub const DEFAULT_MAX_SCAN_RANGE_MM: u64 = 50_000;

/// Smallest accepted scan range, in millimeters.
pub const DEFAULT_MIN_SCAN_RANGE_MM: u64 = 500;

/// Smallest accepted refresh rate, in hertz.
pub const DEFAULT_REFRESH_RATE_HZ: u32 = 30;

/// Largest accepted processing deadline, in milliseconds.
pub const DEFAULT_MAX_PROCESSING_TIME_MS: u32 = 100;

/// Default battery gate, in percent.
pub const DEFAULT_BATTERY_THRESHOLD_PERCENT: u8 = 15;

/// A configuration value outside its accepted range.
#[derive(Clone, Copy, Debug, PartialEq, Eq, Structural)]
pub enum ConfigError {
    /// A scan range outside `[DEFAULT_MIN_SCAN_RANGE_MM,
    /// DEFAULT_MAX_SCAN_RANGE_MM]`, or an empty range.
    InvalidScanRange { min_mm: u64, max_mm: u64 },
    /// A refresh rate below [`DEFAULT_REFRESH_RATE_HZ`].
    InvalidRefreshRate { value_hz: u32 },
    /// A processing deadline above [`DEFAULT_MAX_PROCESSING_TIME_MS`].
    InvalidProcessingTime { value_ms: u32 },
    /// A battery threshold outside `[5, 20]` percent.
    InvalidBatteryThreshold { value_percent: u8 },
}

/// Validated engine configuration.
#[derive(Clone, Debug)]
pub struct Settings {
    pub max_scan_range_mm: u64,
    pub min_scan_range_mm: u64,
    pub refresh_rate_hz: u32,
    pub max_processing_time_ms: u32,
    pub battery_threshold_percent: u8,
    pub debug_mode: bool,
    pub environment: String,
    pub feature_flags: Vec<(String, String)>,
}

impl Settings {
    /// Default settings, with the standard feature flags enabled.
    pub fn new() -> (s: Settings)
        ensures
            s.max_scan_range_mm == DEFAULT_MAX_SCAN_RANGE_MM,
            s.min_scan_range_mm == DEFAULT_MIN_SCAN_RANGE_MM,
            s.refresh_rate_hz == DEFAULT_REFRESH_RATE_HZ,
            s.max_processing_time_ms == DEFAULT_MAX_PROCESSING_TIME_MS,
            s.battery_threshold_percent == DEFAULT_BATTERY_THRESHOLD_PERCENT,
            s.debug_mode == false,
    {
        let mut feature_flags: Vec<(String, String)> = Vec::new();
        feature_flags.push(
            (String::from_str("high_precision_mode"), String::from_str("enabled")),
        );
        feature_flags.push((String::from_str("battery_optimization"), String::from_str("enabled")));
        Settings {
            max_scan_range_mm: DEFAULT_MAX_SCAN_RANGE_MM,
            min_scan_range_mm: DEFAULT_MIN_SCAN_RANGE_MM,
            refresh_rate_hz: DEFAULT_REFRESH_RATE_HZ,
            max_processing_time_ms: DEFAULT_MAX_PROCESSING_TIME_MS,
            battery_threshold_percent: DEFAULT_BATTERY_THRESHOLD_PERCENT,
            debug_mode: false,
            environment: String::from_str("production"),
            feature_flags,
        }
    }

    /// Sets the scan range after validation: the bounds must lie within
    /// `[DEFAULT_MIN_SCAN_RANGE_MM, DEFAULT_MAX_SCAN_RANGE_MM]` and the
    /// minimum must stay below the maximum.
    pub fn with_scan_range(self, min_range_mm: u64, max_range_mm: u64) -> (result: Result<
        Settings,
        ConfigError,
    >)
        ensures
            match result {
                Ok(s) => {
                    &&& min_range_mm >= DEFAULT_MIN_SCAN_RANGE_MM
                    &&& max_range_mm <= DEFAULT_MAX_SCAN_RANGE_MM
                    &&& min_range_mm < max_range_mm
                    &&& s.min_scan_range_mm == min_range_mm
                    &&& s.max_scan_range_mm == max_range_mm
                    &&& s.refresh_rate_hz == self.refresh_rate_hz
                    &&& s.max_processing_time_ms == self.max_processing_time_ms
                    &&& s.battery_threshold_percent == self.battery_threshold_percent
                },
                Err(ConfigError::InvalidScanRange { min_mm, max_mm }) => {
                    &&& min_mm == min_range_mm
                    &&& max_mm == max_range_mm
                    &&& (min_range_mm < DEFAULT_MIN_SCAN_RANGE_MM || max_range_mm
                        > DEFAULT_MAX_SCAN_RANGE_MM || min_range_mm >= max_range_mm)
                },
                Err(_) => false,
            },
    {
        if min_range_mm < DEFAULT_MIN_SCAN_RANGE_MM || max_range_mm > DEFAULT_MAX_SCAN_RANGE_MM {
            return Err(ConfigError::InvalidScanRange { min_mm: min_range_mm, max_mm: max_range_mm });
        }
        if min_range_mm >= max_range_mm {
            return Err(ConfigError::InvalidScanRange { min_mm: min_range_mm, max_mm: max_range_mm });
        }
        let mut s = self;
        s.min_scan_range_mm = min_range_mm;
        s.max_scan_range_mm = max_range_mm;
        Ok(s)
    }

    /// Sets the performance bounds after validation: the refresh rate must
    /// reach [`DEFAULT_REFRESH_RATE_HZ`] and the deadline must not exceed
    /// [`DEFAULT_MAX_PROCESSING_TIME_MS`].
    pub fn with_performance_settings(self, refresh_rate_hz: u32, max_processing_time_ms: u32) -> (result:
        Result<Settings, ConfigError>)
        ensures
            match result {
                Ok(s) => {
                    &&& refresh_rate_hz >= DEFAULT_REFRESH_RATE_HZ
                    &&& max_processing_time_ms <= DEFAULT_MAX_PROCESSING_TIME_MS
                    &&& s.refresh_rate_hz == refresh_rate_hz
                    &&& s.max_processing_time_ms == max_processing_time_ms
                    &&& s.min_scan_range_mm == self.min_scan_range_mm
                    &&& s.max_scan_range_mm == self.max_scan_range_mm
                    &&& s.battery_threshold_percent == self.battery_threshold_percent
                },
                Err(ConfigError::InvalidRefreshRate { value_hz }) => value_hz == refresh_rate_hz
                    && refresh_rate_hz < DEFAULT_REFRESH_RATE_HZ,
                Err(ConfigError::InvalidProcessingTime { value_ms }) => {
                    &&& value_ms == max_processing_time_ms
                    &&& refresh_rate_hz >= DEFAULT_REFRESH_RATE_HZ
                    &&& max_processing_time_ms > DEFAULT_MAX_PROCESSING_TIME_MS
                },
                Err(_) => false,
            },
    {
        if refresh_rate_hz < DEFAULT_REFRESH_RATE_HZ {
            return Err(ConfigError::InvalidRefreshRate { value_hz: refresh_rate_hz });
        }
        if max_processing_time_ms > DEFAULT_MAX_PROCESSING_TIME_MS {
            return Err(ConfigError::InvalidProcessingTime { value_ms: max_processing_time_ms });
        }
        let mut s = self;
        s.refresh_rate_hz = refresh_rate_hz;
        s.max_processing_time_ms = max_processing_time_ms;
        Ok(s)
    }
}

/// Whether every field of the settings lies within its accepted range.
pub open spec fn spec_settings_valid(s: Settings) -> bool {
    &&& s.min_scan_range_mm >= DEFAULT_MIN_SCAN_RANGE_MM
    &&& s.max_scan_range_mm <= DEFAULT_MAX_SCAN_RANGE_MM
    &&& s.refresh_rate_hz >= DEFAULT_REFRESH_RATE_HZ
    &&& s.max_processing_time_ms <= DEFAULT_MAX_PROCESSING_TIME_MS
    &&& 5 <= s.battery_threshold_percent <= 20
}

/// Validates a complete configuration, reporting the first field out of
/// range.
pub fn validate_settings(settings: &Settings) -> (result: Result<(), ConfigError>)
    ensures
        match result {
            Ok(()) => spec_settings_valid(*settings),
            Err(ConfigError::InvalidScanRange { min_mm, max_mm }) => {
                &&& min_mm == settings.min_scan_range_mm
                &&& max_mm == settings.max_scan_range_mm
                &&& (settings.min_scan_range_mm < DEFAULT_MIN_SCAN_RANGE_MM
                    || settings.max_scan_range_mm > DEFAULT_MAX_SCAN_RANGE_MM)
            },
            Err(ConfigError::InvalidRefreshRate { value_hz }) => value_hz
                == settings.refresh_rate_hz && settings.refresh_rate_hz < DEFAULT_REFRESH_RATE_HZ
                && !(settings.min_scan_range_mm < DEFAULT_MIN_SCAN_RANGE_MM
                || settings.max_scan_range_mm > DEFAULT_MAX_SCAN_RANGE_MM),
            Err(ConfigError::InvalidProcessingTime { value_ms }) => value_ms
                == settings.max_processing_time_ms && settings.max_processing_time_ms
                > DEFAULT_MAX_PROCESSING_TIME_MS && settings.refresh_rate_hz
                >= DEFAULT_REFRESH_RATE_HZ && !(settings.min_scan_range_mm
                < DEFAULT_MIN_SCAN_RANGE_MM || settings.max_scan_range_mm
                > DEFAULT_MAX_SCAN_RANGE_MM),
            Err(ConfigError::InvalidBatteryThreshold { value_percent }) => {
                &&& value_percent == settings.battery_threshold_percent
                &&& !(5 <= settings.battery_threshold_percent <= 20)
                &&& settings.min_scan_range_mm >= DEFAULT_MIN_SCAN_RANGE_MM
                &&& settings.max_scan_range_mm <= DEFAULT_MAX_SCAN_RANGE_MM
                &&& settings.refresh_rate_hz >= DEFAULT_REFRESH_RATE_HZ
                &&& settings.max_processing_time_ms <= DEFAULT_MAX_PROCESSING_TIME_MS
            },
        },
{
    if settings.min_scan_range_mm < DEFAULT_MIN_SCAN_RANGE_MM || settings.max_scan_range_mm
        > DEFAULT_MAX_SCAN_RANGE_MM {
        return Err(
            ConfigError::InvalidScanRange {
                min_mm: settings.min_scan_range_mm,
                max_mm: settings.max_scan_range_mm,
            },
        );
    }
    if settings.refresh_rate_hz < DEFAULT_REFRESH_RATE_HZ {
        return Err(ConfigError::InvalidRefreshRate { value_hz: settings.refresh_rate_hz });
    }
    if settings.max_processing_time_ms > DEFAULT_MAX_PROCESSING_TIME_MS {
        return Err(
            ConfigError::InvalidProcessingTime { value_ms: settings.max_processing_time_ms },
        );
    }
    if settings.battery_threshold_percent < 5 || settings.battery_threshold_percent > 20 {
        return Err(
            ConfigError::InvalidBatteryThreshold {
                value_percent: settings.battery_threshold_percent,
            },
        );
    }
    Ok(())
}

/// Transport parameters of the server, in integer units.
#[derive(Clone, Copy, Debug, PartialEq, Eq, Structural)]
pub struct ServerConfig {
    pub port: u16,
    pub max_concurrent_requests: u32,
    pub request_timeout_ms: u64,
    pub rate_limit_per_minute: u32,
    pub graceful_shutdown_timeout_ms: u64,
    pub health_check_interval_ms: u64,
}

impl Default for ServerConfig {
    /// The production defaults of the transport.
    fn default() -> (s: ServerConfig)
        ensures
            s.port == 50051,
            s.max_concurrent_requests == 1000,
            s.request_timeout_ms == 100,
            s.rate_limit_per_minute == 600,
            s.graceful_shutdown_timeout_ms == 30_000,
            s.health_check_interval_ms == 5000,
    {
        ServerConfig {
            port: 50051,
            max_concurrent_requests: 1000,
            request_timeout_ms: 100,
            rate_limit_per_minute: 600,
            graceful_shutdown_timeout_ms: 30_000,
            health_check_interval_ms: 5000,
        }
    }
}

} // verus!
