use spatial_engine::location::Location;
use spatial_engine::spatial_index::{
    IndexFrame, SpatialIndex, SpatialIndexError, DEFAULT_INDEX_NODE_SIZE,
};

#[test]
fn test_spatial_index_creation() {
    let index = SpatialIndex::new(None, IndexFrame::Geodetic);
    assert_eq!(index.node_size(), DEFAULT_INDEX_NODE_SIZE);
    assert_eq!(index.len(), 0);
}

#[test]
fn test_point_insertion() {
    let mut index = SpatialIndex::new(None, IndexFrame::Geodetic);
    let location = Location::new(37_774_900, -122_419_400, 10_000, 1000, None).unwrap();
    assert!(index.insert(location, "test_point".to_string()).is_ok());
    assert_eq!(index.len(), 1);
}

#[test]
fn test_radius_query() {
    let mut index = SpatialIndex::new(None, IndexFrame::Geodetic);
    let location = Location::new(37_774_900, -122_419_400, 10_000, 1000, None).unwrap();
    index.insert(location, "test_point".to_string()).unwrap();
    let results = index.query_radius(location, 10_000).unwrap();
    assert!(!results.is_empty());
    assert_eq!(results[0].1, "test_point");
    assert_eq!(results[0].2, 1000);
}

#[test]
fn test_optimization() {
    let mut index = SpatialIndex::new(None, IndexFrame::Geodetic);
    let location = Location::new(37_774_900, -122_419_400, 10_000, 1000, None).unwrap();
    index.insert(location, "test_point".to_string()).unwrap();
    let stats = index.optimize_index().unwrap();
    assert_eq!(stats.initial_size, stats.final_size);
    assert_eq!(stats.final_size, 1);
}

#[test]
fn test_query_rejects_excessive_radius() {
    let index = SpatialIndex::new(None, IndexFrame::Geodetic);
    let center = Location::new(0, 0, 0, 1000, None).unwrap();
    let result = index.query_radius(center, 51_000);
    assert!(matches!(
        result,
        Err(SpatialIndexError::InvalidRadius { radius_mm: 51_000 })
    ));
}

#[test]
fn test_query_capacity_exceeded() {
    let mut index = SpatialIndex::new(None, IndexFrame::Geodetic);
    for i in 0..1001i64 {
        let location = Location::new(0, 0, i, 1000, None).unwrap();
        index.insert(location, format!("p{}", i)).unwrap();
    }
    let origin = Location::new(0, 0, 0, 1000, None).unwrap();
    let result = index.query_radius(origin, 10_000);
    assert!(matches!(
        result,
        Err(SpatialIndexError::QueryLimit { count: 1001 })
    ));
}

#[test]
fn test_bulk_rebuild_preserves_entries() {
    let mut index = SpatialIndex::new(None, IndexFrame::Geodetic);
    for i in 0..500i64 {
        let location = Location::new(0, 0, i * 10, 1000, None).unwrap();
        index.insert(location, format!("p{}", i)).unwrap();
    }
    let origin = Location::new(0, 0, 0, 1000, None).unwrap();
    let mut before: Vec<String> = index
        .query_radius(origin, 50_000)
        .unwrap()
        .into_iter()
        .map(|(_, id, _)| id)
        .collect();
    let stats = index.optimize_index().unwrap();
    assert_eq!(stats.initial_size, 500);
    assert_eq!(stats.final_size, 500);
    let mut after: Vec<String> = index
        .query_radius(origin, 50_000)
        .unwrap()
        .into_iter()
        .map(|(_, id, _)| id)
        .collect();
    before.sort();
    after.sort();
    assert_eq!(before.len(), 500);
    assert_eq!(before, after);
}

#[test]
fn test_device_local_rejects_origin() {
    let mut index = SpatialIndex::new(None, IndexFrame::DeviceLocal);
    let origin = Location::new(0, 0, 0, 1000, None).unwrap();
    let result = index.insert(origin, "too_close".to_string());
    assert!(matches!(
        result,
        Err(SpatialIndexError::PointValidation { distance_mm: 0 })
    ));
    assert_eq!(index.len(), 0);
}

#[test]
fn test_query_at_entry_location_small_radius() {
    let mut index = SpatialIndex::new(None, IndexFrame::DeviceLocal);
    let loc = Location::new(35, 26, 0, 1000, None).unwrap();
    index.insert(loc, "nearby".to_string()).unwrap();
    let results = index.query_radius(loc, 100).unwrap();
    assert_eq!(results.len(), 1);
    assert_eq!(results[0].1, "nearby");
}
