use spatial_engine::lidar::{LiDARProcessor, ScanPoint};
use spatial_engine::location::Location;
use spatial_engine::proximity::{validate_discovery_radius, ProximityError, ProximityService};
use spatial_engine::spatial_index::{IndexFrame, SpatialIndex, SpatialIndexError};

fn fresh_processor() -> LiDARProcessor {
    let index = SpatialIndex::new(None, IndexFrame::DeviceLocal);
    LiDARProcessor::new(index, None, None, None).unwrap()
}

fn fresh_service() -> ProximityService {
    let users = SpatialIndex::new(None, IndexFrame::Geodetic);
    let tags = SpatialIndex::new(None, IndexFrame::Geodetic);
    ProximityService::new(users, tags)
}

#[test]
fn test_validate_discovery_radius() {
    assert!(validate_discovery_radius(25_000).is_ok());
    assert!(validate_discovery_radius(0).is_err());
    assert!(validate_discovery_radius(100_000).is_err());
}

#[test]
fn test_discover_without_scan_is_partial() {
    let processor = fresh_processor();
    let mut service = fresh_service();
    let u1 = Location::new(37_774_900, -122_419_400, 10_000, 1000, None).unwrap();
    service.register_user(u1, "u1".to_string()).unwrap();
    let result = service
        .discover_nearby_users(&processor, u1, Some(50_000))
        .unwrap();
    assert!(result.partial);
    assert_eq!(result.candidates.len(), 1);
    assert_eq!(result.candidates[0].1, "u1");
    assert_eq!(result.candidates[0].2, 1000);
}

#[test]
fn test_visibility_filter_and_confidence() {
    let mut processor = fresh_processor();
    let mut scan = Vec::new();
    for i in 0..100i64 {
        scan.push(ScanPoint { x_mm: 2000 + 10 * i, y_mm: 1000, z_mm: 500 });
    }
    let map = processor.process_point_cloud(scan).unwrap();
    assert_eq!(map.points.len(), 100);

    let mut service = fresh_service();
    let far_user = Location::new(359, 0, 0, 1000, None).unwrap();
    service.register_user(far_user, "u2".to_string()).unwrap();
    let near_user = Location::new(9, 0, 0, 1000, None).unwrap();
    service.register_user(near_user, "u3".to_string()).unwrap();

    let origin = Location::new(0, 0, 0, 1000, None).unwrap();
    let result = service
        .discover_nearby_users(&processor, origin, Some(50_000))
        .unwrap();
    assert!(!result.partial);
    assert!(result.candidates.iter().any(|(_, id, _)| id == "u3"));
    assert!(!result.candidates.iter().any(|(_, id, _)| id == "u2"));
}

#[test]
fn test_discovery_ranking() {
    let processor = fresh_processor();
    let mut service = fresh_service();
    let origin = Location::new(0, 0, 0, 1000, None).unwrap();
    let ua = Location::new(90, 0, 0, 1000, None).unwrap();
    let ub = Location::new(45, 0, 0, 1000, None).unwrap();
    service.register_user(ua, "uA".to_string()).unwrap();
    service.register_user(ub, "uB".to_string()).unwrap();
    let result = service
        .discover_nearby_users(&processor, origin, Some(50_000))
        .unwrap();
    assert_eq!(result.candidates.len(), 2);
    assert_eq!(result.candidates[0].1, "uB");
    assert_eq!(result.candidates[1].1, "uA");
    assert_eq!(result.candidates[0].2, 900);
    assert_eq!(result.candidates[1].2, 799);
}

#[test]
fn test_discovery_cap() {
    let processor = fresh_processor();
    let mut service = fresh_service();
    for i in 0..150i64 {
        let loc = Location::new(0, 0, i, 1000, None).unwrap();
        service.register_user(loc, format!("u{}", i)).unwrap();
    }
    let origin = Location::new(0, 0, 0, 1000, None).unwrap();
    let result = service
        .discover_nearby_users(&processor, origin, None)
        .unwrap();
    assert_eq!(result.candidates.len(), 100);
}

#[test]
fn test_discovery_results_sorted() {
    let processor = fresh_processor();
    let mut service = fresh_service();
    for (i, lat) in [120i64, 20, 80, 40, 60].iter().enumerate() {
        let loc = Location::new(*lat, 0, 0, 1000, None).unwrap();
        service.register_tag(loc, format!("t{}", i)).unwrap();
    }
    let origin = Location::new(0, 0, 0, 1000, None).unwrap();
    let result = service
        .discover_nearby_tags(&processor, origin, Some(50_000))
        .unwrap();
    assert_eq!(result.candidates.len(), 5);
    for w in result.candidates.windows(2) {
        let d0 = origin.distance_mm(&w[0].0);
        let d1 = origin.distance_mm(&w[1].0);
        assert!(d0 <= d1);
    }
}

#[test]
fn test_discovery_invalid_radius() {
    let processor = fresh_processor();
    let service = fresh_service();
    let origin = Location::new(0, 0, 0, 1000, None).unwrap();
    let result = service.discover_nearby_users(&processor, origin, Some(60_000));
    assert!(matches!(
        result,
        Err(ProximityError::InvalidRadius { value_mm: 60_000 })
    ));
}

#[test]
fn test_discovery_entity_capacity() {
    let processor = fresh_processor();
    let mut service = fresh_service();
    for i in 0..1001i64 {
        let loc = Location::new(0, 0, i, 1000, None).unwrap();
        service.register_user(loc, format!("u{}", i)).unwrap();
    }
    let origin = Location::new(0, 0, 0, 1000, None).unwrap();
    let result = service.discover_nearby_users(&processor, origin, Some(10_000));
    assert!(matches!(
        result,
        Err(ProximityError::SpatialIndex(SpatialIndexError::QueryLimit { count: 1001 }))
    ));
}

#[test]
fn test_interaction_below_minimum_distance() {
    let processor = fresh_processor();
    let service = fresh_service();
    let a = Location::new(0, 0, 0, 1000, None).unwrap();
    let b = Location::new(0, 0, 300, 1000, None).unwrap();
    let result = service
        .check_interaction_possible(&processor, &a, &b)
        .unwrap();
    assert_eq!(result, (false, 0));
}

#[test]
fn test_interaction_with_environment() {
    let mut processor = fresh_processor();
    let map = processor
        .process_point_cloud(vec![ScanPoint { x_mm: 0, y_mm: 0, z_mm: 600 }])
        .unwrap();
    assert_eq!(map.points.len(), 1);
    let service = fresh_service();
    let a = Location::new(0, 0, 0, 1000, None).unwrap();
    let b = Location::new(0, 0, 2000, 1000, None).unwrap();
    let result = service
        .check_interaction_possible(&processor, &a, &b)
        .unwrap();
    assert_eq!(result, (true, 700));
}

#[test]
fn test_interaction_without_environment() {
    let processor = fresh_processor();
    let service = fresh_service();
    let a = Location::new(0, 0, 0, 1000, None).unwrap();
    let b = Location::new(0, 0, 2000, 1000, None).unwrap();
    let result = service
        .check_interaction_possible(&processor, &a, &b)
        .unwrap();
    assert_eq!(result, (false, 0));
}
