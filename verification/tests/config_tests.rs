use spatial_engine::config::{
    validate_settings, ConfigError, ServerConfig, Settings, DEFAULT_MAX_SCAN_RANGE_MM,
    DEFAULT_MIN_SCAN_RANGE_MM, DEFAULT_REFRESH_RATE_HZ,
};
use spatial_engine::location::DEFAULT_CONFIDENCE_PPK;
use spatial_engine::services::{
    init_spatial_services, HORIZONTAL_FOV_DEG, MAX_SCAN_RANGE_MM, MIN_REFRESH_RATE_HZ,
    MIN_SCAN_RANGE_MM,
};
use spatial_engine::spatial_index::{
    MAX_LIDAR_RANGE_MM, MIN_LIDAR_RANGE_MM, PRECISION_AT_10M_CM,
};

#[test]
fn test_default_settings() {
    let settings = Settings::new();
    assert_eq!(settings.max_scan_range_mm, DEFAULT_MAX_SCAN_RANGE_MM);
    assert_eq!(settings.min_scan_range_mm, DEFAULT_MIN_SCAN_RANGE_MM);
    assert_eq!(settings.refresh_rate_hz, DEFAULT_REFRESH_RATE_HZ);
}

#[test]
fn test_scan_range_validation() {
    let settings = Settings::new()
        .with_scan_range(1000, 45_000)
        .expect("Valid scan range should be accepted");
    assert_eq!(settings.min_scan_range_mm, 1000);
    assert_eq!(settings.max_scan_range_mm, 45_000);
}

#[test]
fn test_invalid_scan_range() {
    let result = Settings::new().with_scan_range(100, 60_000);
    assert!(result.is_err());
}

#[test]
fn test_performance_settings() {
    let settings = Settings::new()
        .with_performance_settings(60, 50)
        .expect("Valid performance settings should be accepted");
    assert_eq!(settings.refresh_rate_hz, 60);
    assert_eq!(settings.max_processing_time_ms, 50);
}

#[test]
fn test_validate_settings_battery() {
    let mut settings = Settings::new();
    settings.battery_threshold_percent = 3;
    assert!(matches!(
        validate_settings(&settings),
        Err(ConfigError::InvalidBatteryThreshold { value_percent: 3 })
    ));
    let settings = Settings::new();
    assert!(validate_settings(&settings).is_ok());
}

#[test]
fn test_invalid_refresh_rate() {
    let result = Settings::new().with_performance_settings(20, 50);
    assert!(matches!(
        result,
        Err(ConfigError::InvalidRefreshRate { value_hz: 20 })
    ));
}

#[test]
fn test_invalid_processing_time() {
    let result = Settings::new().with_performance_settings(60, 200);
    assert!(matches!(
        result,
        Err(ConfigError::InvalidProcessingTime { value_ms: 200 })
    ));
}

#[test]
fn test_server_config_default() {
    let config = ServerConfig::default();
    assert_eq!(config.port, 50051);
    assert_eq!(config.rate_limit_per_minute, 600);
    assert_eq!(config.request_timeout_ms, 100);
}

#[test]
fn test_lidar_range_constants() {
    assert!(MIN_LIDAR_RANGE_MM > 0);
    assert!(MAX_LIDAR_RANGE_MM >= MIN_LIDAR_RANGE_MM);
    assert_eq!(MAX_LIDAR_RANGE_MM, 50_000);
}

#[test]
fn test_precision_constants() {
    assert!(PRECISION_AT_10M_CM > 0);
    assert!(DEFAULT_CONFIDENCE_PPK > 0 && DEFAULT_CONFIDENCE_PPK <= 1000);
}

#[test]
fn test_service_initialization() {
    assert!(init_spatial_services().is_ok());
}

#[test]
fn test_core_constants() {
    assert_eq!(MIN_SCAN_RANGE_MM, 500);
    assert_eq!(MAX_SCAN_RANGE_MM, 50_000);
    assert_eq!(HORIZONTAL_FOV_DEG, 120);
    assert_eq!(MIN_REFRESH_RATE_HZ, 30);
}

#[test]
fn test_type_reexports() {
    let _: Option<spatial_engine::location::Location> = None;
    let _: Option<spatial_engine::location::LocationError> = None;
    let _: Option<spatial_engine::spatial_index::SpatialIndex> = None;
    let _: Option<spatial_engine::spatial_index::SpatialIndexError> = None;
    let _: Option<spatial_engine::spatial_index::OptimizationStats> = None;
    let _: Option<spatial_engine::lidar::ScanQuality> = None;
    let _: Option<spatial_engine::SpatialEngine> = None;
}
