use spatial_engine::engine::{EngineError, Settings, SpatialEngine};
use spatial_engine::lidar::{LiDARError, ScanPoint};
use spatial_engine::location::Location;

#[test]
fn test_engine_initialization() {
    let engine = SpatialEngine::new(Settings::default());
    assert!(engine.is_ok());
}

#[test]
fn test_engine_rejects_invalid_config() {
    let mut config = Settings::default();
    config.scan_range_mm = 100;
    assert!(matches!(
        SpatialEngine::new(config),
        Err(EngineError::Lidar(LiDARError::InvalidScanRange { value_mm: 100 }))
    ));
    let mut config = Settings::default();
    config.confidence_threshold_ppk = 100;
    assert!(matches!(
        SpatialEngine::new(config),
        Err(EngineError::Lidar(LiDARError::InvalidConfidence { value_ppk: 100 }))
    ));
}

#[test]
fn test_health_check() {
    let mut engine = SpatialEngine::new(Settings::default()).unwrap();
    assert!(engine.check_health(12_345).is_ok());
    assert!(engine.is_healthy());
}

#[test]
fn test_graceful_shutdown() {
    let mut engine = SpatialEngine::new(Settings::default()).unwrap();
    assert!(engine.shutdown().is_ok());
    assert!(!engine.is_healthy());
    let points = vec![ScanPoint { x_mm: 3000, y_mm: 0, z_mm: 0 }];
    assert!(matches!(
        engine.process_scan(points),
        Err(EngineError::ShuttingDown)
    ));
    let origin = Location::new(0, 0, 0, 1000, None).unwrap();
    assert!(matches!(
        engine.discover_nearby_users(origin, None),
        Err(EngineError::ShuttingDown)
    ));
    engine.finalize_shutdown();
    assert!(matches!(
        engine.discover_nearby_users(origin, None),
        Err(EngineError::ShuttingDown)
    ));
}

#[test]
fn test_battery_gate() {
    let mut engine = SpatialEngine::new(Settings::default()).unwrap();
    engine.set_battery_level(14);
    let points = vec![ScanPoint { x_mm: 3000, y_mm: 0, z_mm: 0 }];
    assert!(matches!(
        engine.process_scan(points),
        Err(EngineError::BatteryCritical { level_percent: 14 })
    ));
    let origin = Location::new(0, 0, 0, 1000, None).unwrap();
    assert!(matches!(
        engine.discover_nearby_users(origin, None),
        Err(EngineError::BatteryCritical { level_percent: 14 })
    ));
    assert!(matches!(
        engine.check_health(1),
        Err(EngineError::BatteryCritical { level_percent: 14 })
    ));
    assert!(!engine.is_healthy());
    engine.set_battery_level(15);
    let points = vec![ScanPoint { x_mm: 3000, y_mm: 0, z_mm: 0 }];
    assert!(engine.process_scan(points).is_ok());
}

#[test]
fn test_engine_scan_and_discover() {
    let mut engine = SpatialEngine::new(Settings::default()).unwrap();
    let points = vec![
        ScanPoint { x_mm: 2000, y_mm: 1000, z_mm: 500 },
        ScanPoint { x_mm: 2500, y_mm: 1500, z_mm: 500 },
    ];
    let map = engine.process_scan(points).unwrap();
    assert_eq!(map.points.len(), 2);

    let user = Location::new(9, 0, 0, 1000, None).unwrap();
    engine.register_user(user, "near".to_string()).unwrap();

    let origin = Location::new(0, 0, 0, 1000, None).unwrap();
    let result = engine.discover_nearby_users(origin, Some(50_000)).unwrap();
    assert!(!result.partial);
    assert_eq!(result.candidates.len(), 1);
    assert_eq!(result.candidates[0].1, "near");
}
