use spatial_engine::geo::haversine_distance;
use spatial_engine::location::{Location, LocationError};

#[test]
fn test_location_creation() {
    let location = Location::new(37_774_900, -122_419_400, 0, 1000, None).unwrap();
    assert_eq!(location.latitude(), 37_774_900);
    assert_eq!(location.longitude(), -122_419_400);
    assert_eq!(location.altitude(), 0);
    assert_eq!(location.accuracy(), 1000);
    assert_eq!(location.confidence(), 950);
}

#[test]
fn test_invalid_latitude() {
    let result = Location::new(91_000_000, 0, 0, 1000, None);
    assert!(result.is_err());
    assert!(matches!(
        result,
        Err(LocationError::InvalidLatitude { value_udeg: 91_000_000 })
    ));
}

#[test]
fn test_invalid_longitude() {
    let result = Location::new(0, 180_000_001, 0, 1000, None);
    assert!(matches!(
        result,
        Err(LocationError::InvalidLongitude { value_udeg: 180_000_001 })
    ));
}

#[test]
fn test_invalid_altitude() {
    let result = Location::new(0, 0, 10_000_001, 1000, None);
    assert!(matches!(
        result,
        Err(LocationError::InvalidAltitude { value_mm: 10_000_001 })
    ));
}

#[test]
fn test_invalid_accuracy() {
    let result = Location::new(0, 0, 0, 9, None);
    assert!(matches!(result, Err(LocationError::InvalidAccuracy { value_mm: 9 })));
    let result = Location::new(0, 0, 0, 50_001, None);
    assert!(matches!(
        result,
        Err(LocationError::InvalidAccuracy { value_mm: 50_001 })
    ));
}

#[test]
fn test_distance_calculation() {
    let loc1 = Location::new(37_774_900, -122_419_400, 0, 1000, None).unwrap();
    let loc2 = Location::new(37_774_900, -122_429_400, 0, 1000, None).unwrap();
    assert!(loc1.calculate_distance(&loc2).is_ok());
    assert_eq!(loc1.calculate_distance(&loc2).unwrap(), 877_414);
}

#[test]
fn test_radius_check() {
    let loc1 = Location::new(37_774_900, -122_419_400, 0, 1000, None).unwrap();
    let loc2 = Location::new(37_774_900, -122_419_500, 0, 1000, None).unwrap();
    assert!(loc1.is_within_radius(&loc2, 50_000).unwrap());
}

#[test]
fn test_radius_rejects_out_of_range() {
    let loc1 = Location::new(0, 0, 0, 1000, None).unwrap();
    let loc2 = Location::new(45, 0, 0, 1000, None).unwrap();
    assert!(matches!(
        loc1.is_within_radius(&loc2, 0),
        Err(LocationError::InvalidRadius { radius_mm: 0 })
    ));
    assert!(matches!(
        loc1.is_within_radius(&loc2, 50_001),
        Err(LocationError::InvalidRadius { radius_mm: 50_001 })
    ));
}

#[test]
fn test_distance_below_resolution() {
    let loc = Location::new(10_000_000, 20_000_000, 5000, 1000, None).unwrap();
    assert!(matches!(
        loc.calculate_distance(&loc),
        Err(LocationError::InsufficientResolution { distance_mm: 0 })
    ));
}

#[test]
fn test_distance_self_is_zero() {
    let loc = Location::new(37_774_900, -122_419_400, 250_000, 1000, None).unwrap();
    assert_eq!(loc.distance_mm(&loc), 0);
}

#[test]
fn test_distance_symmetry() {
    let a = Location::new(37_774_900, -122_419_400, 0, 1000, None).unwrap();
    let b = Location::new(-33_868_800, 151_209_300, 58_000, 1000, None).unwrap();
    assert_eq!(a.distance_mm(&b), b.distance_mm(&a));
}

#[test]
fn test_haversine_one_degree_equator() {
    assert_eq!(haversine_distance(0, 0, 0, 1_000_000), 111_194_923);
}

#[test]
fn test_small_distance_values() {
    let a = Location::new(0, 0, 0, 1000, None).unwrap();
    let b = Location::new(45, 0, 0, 1000, None).unwrap();
    let c = Location::new(90, 0, 0, 1000, None).unwrap();
    assert_eq!(a.distance_mm(&b), 4994);
    assert_eq!(a.distance_mm(&c), 10_002);
}

#[test]
fn test_confidence_defaults_and_cap() {
    let with_default = Location::new(0, 0, 0, 1000, None).unwrap();
    assert_eq!(with_default.confidence(), 950);
    let capped = Location::new(0, 0, 0, 1000, Some(1500)).unwrap();
    assert_eq!(capped.confidence(), 1000);
    let given = Location::new(0, 0, 0, 1000, Some(720)).unwrap();
    assert_eq!(given.confidence(), 720);
}

#[test]
fn test_to_point3_origin() {
    let origin = Location::new(0, 0, 0, 1000, None).unwrap();
    let p = origin.to_point3();
    assert_eq!(p.x_cm, 637_100_000);
    assert_eq!(p.y_cm, 0);
    assert_eq!(p.z_cm, 0);
}
