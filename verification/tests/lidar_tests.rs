use spatial_engine::lidar::{
    validate_scan_range, LiDARError, LiDARProcessor, PoseTransform, ScanPoint,
};
use spatial_engine::location::Location;
use spatial_engine::spatial_index::{IndexFrame, SpatialIndex};

fn fresh_processor() -> LiDARProcessor {
    let index = SpatialIndex::new(None, IndexFrame::DeviceLocal);
    LiDARProcessor::new(index, None, None, None).unwrap()
}

#[test]
fn test_validate_scan_range() {
    assert!(validate_scan_range(25_000).is_ok());
    assert!(matches!(
        validate_scan_range(100),
        Err(LiDARError::InvalidScanRange { value_mm: 100 })
    ));
    assert!(matches!(
        validate_scan_range(60_000),
        Err(LiDARError::InvalidScanRange { value_mm: 60_000 })
    ));
}

#[test]
fn test_processor_initialization() {
    let index = SpatialIndex::new(None, IndexFrame::DeviceLocal);
    assert!(LiDARProcessor::new(index, Some(25_000), Some(900), None).is_ok());

    let index = SpatialIndex::new(None, IndexFrame::DeviceLocal);
    assert!(matches!(
        LiDARProcessor::new(index, Some(100), None, None),
        Err(LiDARError::InvalidScanRange { value_mm: 100 })
    ));

    let index = SpatialIndex::new(None, IndexFrame::DeviceLocal);
    assert!(matches!(
        LiDARProcessor::new(index, None, Some(500), None),
        Err(LiDARError::InvalidConfidence { value_ppk: 500 })
    ));
}

#[test]
fn test_process_point_cloud_accepts_in_range() {
    let mut processor = fresh_processor();
    let points = vec![ScanPoint { x_mm: 3000, y_mm: 4000, z_mm: 0 }];
    let map = processor.process_point_cloud(points).unwrap();
    assert_eq!(map.points.len(), 1);
    assert_eq!(map.points[0], ScanPoint { x_mm: 3000, y_mm: 4000, z_mm: 0 });
    assert_eq!(map.confidence_threshold_ppk, 850);
}

#[test]
fn test_process_point_cloud_filters_range() {
    let mut processor = fresh_processor();
    let points = vec![
        ScanPoint { x_mm: 100, y_mm: 0, z_mm: 0 },
        ScanPoint { x_mm: 60_000, y_mm: 0, z_mm: 0 },
        ScanPoint { x_mm: 0, y_mm: 0, z_mm: 2_000_000_000 },
    ];
    let map = processor.process_point_cloud(points).unwrap();
    assert!(map.points.is_empty());
}

#[test]
fn test_excessive_point_cloud() {
    let mut processor = fresh_processor();
    let points = vec![ScanPoint { x_mm: 3000, y_mm: 0, z_mm: 0 }; 100_001];
    let result = processor.process_point_cloud(points);
    assert!(matches!(
        result,
        Err(LiDARError::ExcessivePointCloud { size: 100_001 })
    ));
    let center = Location::new(35, 26, 0, 1000, None).unwrap();
    let ctx = processor.query_environment(&center, 1000).unwrap();
    assert!(ctx.points.is_empty());
}

#[test]
fn test_accepted_point_found_at_its_location() {
    let mut processor = fresh_processor();
    let points = vec![ScanPoint { x_mm: 3000, y_mm: 4000, z_mm: 0 }];
    let map = processor.process_point_cloud(points).unwrap();
    assert_eq!(map.points.len(), 1);
    let synthetic = Location::new(35, 26, 0, 1000, None).unwrap();
    let ctx = processor.query_environment(&synthetic, 500).unwrap();
    assert!(!ctx.points.is_empty());
    assert!(ctx.points.iter().any(|(_, id, _)| id == "point_0"));
}

#[test]
fn test_point_ids_are_monotonic() {
    let mut processor = fresh_processor();
    let points = vec![
        ScanPoint { x_mm: 3000, y_mm: 4000, z_mm: 0 },
        ScanPoint { x_mm: -3000, y_mm: 4000, z_mm: 100 },
    ];
    let map = processor.process_point_cloud(points).unwrap();
    assert_eq!(map.points.len(), 2);
    let center = Location::new(0, 0, 0, 1000, None).unwrap();
    let ctx = processor.query_environment(&center, 50_000).unwrap();
    let mut ids: Vec<String> = ctx.points.iter().map(|(_, id, _)| id.clone()).collect();
    ids.sort();
    assert_eq!(ids, vec!["point_0".to_string(), "point_1".to_string()]);
}

#[test]
fn test_pose_translation() {
    let index = SpatialIndex::new(None, IndexFrame::DeviceLocal);
    let pose = PoseTransform::from_rows(
        (1_000_000, 0, 0, 1000),
        (0, 1_000_000, 0, 0),
        (0, 0, 1_000_000, 0),
    )
    .unwrap();
    let mut processor = LiDARProcessor::new(index, None, None, Some(pose)).unwrap();
    let points = vec![ScanPoint { x_mm: 1000, y_mm: 1000, z_mm: 1000 }];
    let map = processor.process_point_cloud(points).unwrap();
    assert_eq!(map.points.len(), 1);
    assert_eq!(map.points[0], ScanPoint { x_mm: 2000, y_mm: 1000, z_mm: 1000 });
}

#[test]
fn test_pose_rejects_ill_formed() {
    let result = PoseTransform::from_rows(
        (9_000_000_000, 0, 0, 0),
        (0, 1_000_000, 0, 0),
        (0, 0, 1_000_000, 0),
    );
    assert!(matches!(result, Err(LiDARError::InvalidTransform)));
}

#[test]
fn test_environment_query_validates_radius() {
    let processor = fresh_processor();
    let center = Location::new(0, 0, 0, 1000, None).unwrap();
    assert!(matches!(
        processor.query_environment(&center, 100),
        Err(LiDARError::InvalidScanRange { value_mm: 100 })
    ));
    assert!(matches!(
        processor.query_environment(&center, 60_000),
        Err(LiDARError::InvalidScanRange { value_mm: 60_000 })
    ));
}
