//! Tests of coordinate validation and of the great-circle distance.

use campus_geo::{location_values, GeographicPoint, ValidationError};

// Benchmark pair: New York to Los Angeles, in microdegrees.
const NY_LAT: i64 = 40_712_800;
const NY_LON: i64 = -74_006_000;
const LA_LAT: i64 = 34_052_200;
const LA_LON: i64 = -118_243_700;
const EXPECTED_DISTANCE: i64 = 3_944_000; // meters, +/- 50 km accepted

#[test]
fn test_known_distance() {
    let ny = GeographicPoint::new(NY_LAT, NY_LON, "纽约".to_string()).unwrap();
    let la = GeographicPoint::new(LA_LAT, LA_LON, "洛杉矶".to_string()).unwrap();

    let distance = ny.haversine_distance_meters_to(&la);
    println!("{distance}");
    assert!((distance as i64 - EXPECTED_DISTANCE).abs() <= 50_000);
}

#[test]
fn test_same_point() {
    let point = GeographicPoint::new(35_000_000, 139_000_000, "?".to_string()).unwrap();
    assert_eq!(point.haversine_distance_meters_to(&point), 0);
}

#[test]
fn test_invalid_latitude() {
    assert!(GeographicPoint::new(100_000_000, 0, "?".to_string()).is_err());
    assert!(GeographicPoint::new(-100_000_000, 0, "?".to_string()).is_err());
}

#[test]
fn test_invalid_longitude() {
    assert!(GeographicPoint::new(0, 200_000_000, "?".to_string()).is_err());
    assert!(GeographicPoint::new(0, -200_000_000, "?".to_string()).is_err());
}

#[test]
fn test_short_distance() {
    let values = location_values();
    let points = &values[..30 - 7];
    println!("\nOptimized results:");
    for i in 0..points.len() {
        for j in (i + 1)..points.len() {
            let distance = points[i].haversine_distance_meters_to(&points[j]);
            assert!(distance < 1500);
            println!("Pair ({i}, {j}): {distance} m");
        }
    }
}

#[test]
fn test_boundary_coordinates_accepted() {
    assert!(GeographicPoint::new(90_000_000, 0, "n".to_string()).is_ok());
    assert!(GeographicPoint::new(-90_000_000, 0, "s".to_string()).is_ok());
    assert!(GeographicPoint::new(0, 180_000_000, "e".to_string()).is_ok());
    assert!(GeographicPoint::new(0, -180_000_000, "w".to_string()).is_ok());
}

#[test]
fn test_error_variants() {
    assert_eq!(
        GeographicPoint::new(100_000_000, 0, "?".to_string()).unwrap_err(),
        ValidationError::InvalidLatitude,
    );
    assert_eq!(
        GeographicPoint::new(0, 200_000_000, "?".to_string()).unwrap_err(),
        ValidationError::InvalidLongitude,
    );
    // Latitude is checked first when both are out of range.
    assert_eq!(
        GeographicPoint::new(100_000_000, 200_000_000, "?".to_string()).unwrap_err(),
        ValidationError::InvalidLatitude,
    );
}

#[test]
fn test_distance_symmetric() {
    let p = GeographicPoint::new(34_133_171, 108_837_420, "p".to_string()).unwrap();
    let q = GeographicPoint::new(34_052_200, -118_243_700, "q".to_string()).unwrap();
    assert_eq!(
        p.haversine_distance_meters_to(&q),
        q.haversine_distance_meters_to(&p),
    );
}

#[test]
fn test_identical_coordinates_different_labels() {
    let p = GeographicPoint::new(34_130_000, 108_840_000, "one".to_string()).unwrap();
    let q = GeographicPoint::new(34_130_000, 108_840_000, "two".to_string()).unwrap();
    assert_eq!(p.haversine_distance_meters_to(&q), 0);
}

#[test]
fn test_accessors_roundtrip() {
    let p = GeographicPoint::new(34_130_000, -108_840_000, "here".to_string()).unwrap();
    assert_eq!(p.latitude_udeg(), 34_130_000);
    assert_eq!(p.longitude_udeg(), -108_840_000);
    assert_eq!(p.address(), "here".to_string());
}
