//! Tests of the nearest-reference matching policy and the campus dataset.

use campus_geo::{
    campus_preprocessor, location_keys, location_values, GeographicPoint, LocationPreprocessor,
    ValidationError, DEFAULT_THRESHOLD_M,
};

#[test]
fn print_addrs() {
    println!("{:?}", location_keys());
}

#[test]
fn print_locations() {
    println!("{:?}", location_values());
}

fn point(lat: i64, lon: i64, label: &str) -> GeographicPoint {
    GeographicPoint::new(lat, lon, label.to_string()).unwrap()
}

// A query on the south campus; the two references below sit 50 m and 150 m
// due north of it.
const QUERY_LAT: i64 = 34_130_000;
const QUERY_LON: i64 = 108_840_000;

#[test]
fn test_threshold_policy_closest_wins_in_order() {
    let query = point(QUERY_LAT, QUERY_LON, "");
    let r1 = point(34_130_450, 108_840_000, "X"); // 50 m away
    let r2 = point(34_131_350, 108_840_000, "Y"); // 150 m away
    assert_eq!(query.haversine_distance_meters_to(&r1), 50);
    assert_eq!(query.haversine_distance_meters_to(&r2), 150);
    let matcher = LocationPreprocessor::new(vec![r1, r2]);
    assert_eq!(matcher.resolve(&query, 200), Some("X".to_string()));
}

#[test]
fn test_threshold_policy_closest_wins_out_of_order() {
    let query = point(QUERY_LAT, QUERY_LON, "");
    let r1 = point(34_130_450, 108_840_000, "X"); // 50 m away
    let r2 = point(34_131_350, 108_840_000, "Y"); // 150 m away
    let matcher = LocationPreprocessor::new(vec![r2, r1]);
    assert_eq!(matcher.resolve(&query, 200), Some("X".to_string()));
}

#[test]
fn test_threshold_excludes_far_reference() {
    let query = point(QUERY_LAT, QUERY_LON, "");
    let r1 = point(34_130_450, 108_840_000, "X"); // 50 m away
    let r2 = point(34_131_350, 108_840_000, "Y"); // 150 m away
    let matcher = LocationPreprocessor::new(vec![r2.clone(), r1]);
    // With a 100 m threshold only the 50 m reference qualifies.
    assert_eq!(matcher.resolve(&query, 100), Some("X".to_string()));
    // With a 120 m threshold and only the far reference, nothing matches.
    let only_far = LocationPreprocessor::new(vec![r2]);
    assert_eq!(only_far.resolve(&query, 120), None);
}

#[test]
fn test_tie_break_first_in_order_wins() {
    let query = point(QUERY_LAT, QUERY_LON, "");
    let first = point(34_130_450, 108_840_000, "first");
    let second = point(34_130_450, 108_840_000, "second");
    let matcher = LocationPreprocessor::new(vec![first.clone(), second.clone()]);
    assert_eq!(matcher.resolve(&query, 200), Some("first".to_string()));
    let swapped = LocationPreprocessor::new(vec![second, first]);
    assert_eq!(swapped.resolve(&query, 200), Some("second".to_string()));
}

#[test]
fn test_no_match_fallback() {
    let matcher = campus_preprocessor();
    // New York is far beyond the threshold of every campus reference.
    let query = point(40_712_800, -74_006_000, "");
    assert_eq!(matcher.resolve(&query, DEFAULT_THRESHOLD_M), None);
    // The original address comes back untouched.
    let out = matcher
        .do_preprocess(40_712_800, -74_006_000, "原始地址".to_string())
        .unwrap();
    assert_eq!(out, "原始地址".to_string());
}

#[test]
fn test_do_preprocess_rewrites_on_campus() {
    let matcher = campus_preprocessor();
    // The coordinate of the first campus building.
    let out = matcher
        .do_preprocess(34_133_171, 108_837_420, "不可靠的地址".to_string())
        .unwrap();
    assert_eq!(
        out,
        "西安市长安区兴隆街道内环北路西安电子科技大学(南校区)".to_string(),
    );
}

#[test]
fn test_do_preprocess_rejects_bad_coordinates() {
    let matcher = campus_preprocessor();
    assert_eq!(
        matcher.do_preprocess(100_000_000, 0, "a".to_string()).unwrap_err(),
        ValidationError::InvalidLatitude,
    );
    assert_eq!(
        matcher.do_preprocess(0, 200_000_000, "a".to_string()).unwrap_err(),
        ValidationError::InvalidLongitude,
    );
}
