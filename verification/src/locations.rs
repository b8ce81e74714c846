//! The fixed campus reference dataset: thirty named reference points, each
//! built through the validating constructor, in the fixed order that the
//! matching policy's tie-break observes.  The data is held as ordinary
//! builder functions rather than global state, so the collection is
//! immutable and every entry provably satisfies the coordinate invariant.

use vstd::prelude::*;
use vstd::pervasive::unreached;
use crate::point::{GeographicPoint, LAT_LIMIT_UDEG, LON_LIMIT_UDEG};
use crate::matcher::LocationPreprocessor;

verus! {

/// Builds one validated reference point; usable only for in-range data.
fn reference_point(lat_udeg: i64, lon_udeg: i64, addr: &str) -> (r: GeographicPoint)
    requires
        -LAT_LIMIT_UDEG <= lat_udeg <= LAT_LIMIT_UDEG,
        -LON_LIMIT_UDEG <= lon_udeg <= LON_LIMIT_UDEG,
    ensures
        r.valid(),
        r.lat() == lat_udeg as int,
        r.lon() == lon_udeg as int,
        r.label() == addr@,
{
    match GeographicPoint::new(lat_udeg, lon_udeg, String::from_str(addr)) {
        Ok(p) => p,
        Err(_) => unreached(),
    }
}

/// The names of the thirty campus reference points, in collection order.
pub fn location_keys() -> (r: Vec<String>)
    ensures
        r@.len() == 30,
{
    let mut keys: Vec<String> = Vec::new();
    keys.push(String::from_str("A楼"));
    keys.push(String::from_str("B楼"));
    keys.push(String::from_str("C楼"));
    keys.push(String::from_str("D楼"));
    keys.push(String::from_str("EI楼"));
    keys.push(String::from_str("EII楼"));
    keys.push(String::from_str("EIII楼"));
    keys.push(String::from_str("F楼"));
    keys.push(String::from_str("G楼"));
    keys.push(String::from_str("信远楼"));
    keys.push(String::from_str("图书馆"));
    keys.push(String::from_str("大学生活动中心"));
    keys.push(String::from_str("北操场"));
    keys.push(String::from_str("北篮球场"));
    keys.push(String::from_str("北乒乓球场"));
    keys.push(String::from_str("游泳中心"));
    keys.push(String::from_str("南操场"));
    keys.push(String::from_str("南篮球场"));
    keys.push(String::from_str("南乒乓球场"));
    keys.push(String::from_str("远望谷体育馆"));
    keys.push(String::from_str("博物馆"));
    keys.push(String::from_str("网安大楼"));
    keys.push(String::from_str("礼仪广场"));
    keys.push(String::from_str("西大楼"));
    keys.push(String::from_str("阶梯楼"));
    keys.push(String::from_str("北校区体育馆"));
    keys.push(String::from_str("北校区室外篮球场"));
    keys.push(String::from_str("北校区操场"));
    keys.push(String::from_str("北校区图书馆"));
    keys.push(String::from_str("北校区会议中心"));
    keys
}

/// The thirty campus reference points, in the same order as
/// [`location_keys`].  The first twenty-three lie on the south campus, the
/// last seven on the north campus.
pub fn location_values() -> (r: Vec<GeographicPoint>)
    ensures
        r@.len() == 30,
        forall|i: int| 0 <= i < r@.len() ==> r@[i].valid(),
{
    let mut v: Vec<GeographicPoint> = Vec::new();
    v.push(reference_point(34_133_171, 108_837_420, "西安市长安区兴隆街道内环北路西安电子科技大学(南校区)"));
    v.push(reference_point(34_132_297, 108_838_367, "西安市长安区兴隆街道内环北路西安电子科技大学(南校区)"));
    v.push(reference_point(34_131_125, 108_838_983, "西安市长安区兴隆街道内环北路西安电子科技大学(南校区)"));
    v.push(reference_point(34_130_856, 108_841_579, "西安市长安区兴隆街道内环北路西安电子科技大学(南校区)"));
    v.push(reference_point(34_130_878, 108_839_863, "西安市长安区兴隆街道内环北路西安电子科技大学(南校区)"));
    v.push(reference_point(34_130_856, 108_841_579, "西安市长安区兴隆街道内环北路西安电子科技大学(南校区)"));
    v.push(reference_point(34_130_056, 108_843_268, "西安市长安区兴隆街道内环北路西安电子科技大学(南校区)"));
    v.push(reference_point(34_130_654, 108_843_016, "西安市长安区兴隆街道内环北路西安电子科技大学(南校区)"));
    v.push(reference_point(34_129_660, 108_845_244, "西安市长安区兴隆街道内环北路西安电子科技大学(南校区)"));
    v.push(reference_point(34_131_640, 108_845_415, "西安市长安区兴隆街道外环北路西安电子科技大学(南校区)"));
    v.push(reference_point(34_131_125, 108_838_983, "西安市长安区兴隆街道内环南路西安电子科技大学(南校区)"));
    v.push(reference_point(34_134_972, 108_835_282, "西安市长安区兴隆街道梧桐大道西安电子科技大学(南校区)"));
    v.push(reference_point(34_137_362, 108_837_906, "西安市长安区兴隆街道梧桐大道西安电子科技大学(南校区)"));
    v.push(reference_point(34_134_972, 108_835_282, "西安市长安区兴隆街道梧桐大道西安电子科技大学(南校区)"));
    v.push(reference_point(34_134_972, 108_835_282, "西安市长安区兴隆街道梧桐大道西安电子科技大学(南校区)"));
    v.push(reference_point(34_134_972, 108_835_282, "西安市长安区兴隆街道梧桐大道西安电子科技大学(南校区)"));
    v.push(reference_point(34_132_559, 108_832_542, "西安市长安区兴隆街道梧桐大道西安电子科技大学(南校区)"));
    v.push(reference_point(34_128_472, 108_832_443, "西安市长安区兴隆街道梧桐大道西安电子科技大学(南校区)"));
    v.push(reference_point(34_129_376, 108_834_375, "西安市长安区兴隆街道梧桐大道西安电子科技大学(南校区)"));
    v.push(reference_point(34_126_418, 108_844_544, "西安市长安区兴隆街道内环南路西安电子科技大学(南校区)"));
    v.push(reference_point(34_125_589, 108_844_337, "西安市长安区兴隆街道内环南路西安电子科技大学(南校区)"));
    v.push(reference_point(34_128_353, 108_842_010, "西安市长安区兴隆街道内环南路西安电子科技大学(南校区)"));
    v.push(reference_point(34_132_006, 108_842_118, "西安市长安区兴隆街道内环北路西安电子科技大学(南校区)"));
    v.push(reference_point(34_240_976, 108_923_468, "西安市雁塔区电子城街道电子大道北段西安电子科技大学"));
    v.push(reference_point(34_238_268, 108_926_841, "西安市雁塔区电子城街道电子大道北段西安电子科技大学"));
    v.push(reference_point(34_232_305, 108_915_958, "西安市雁塔区电子城街道电子大道北段西安电子科技大学"));
    v.push(reference_point(34_232_459, 108_917_250, "西安市雁塔区电子城街道电子大道北段西安电子科技大学"));
    v.push(reference_point(34_231_810, 108_918_339, "西安市雁塔区电子城街道电子大道北段西安电子科技大学"));
    v.push(reference_point(34_231_394, 108_916_595, "西安市雁塔区电子城街道电子大道北段西安电子科技大学"));
    v.push(reference_point(34_230_493, 108_917_517, "西安市雁塔区电子城街道电子大道北段西安电子科技大学"));
    v
}

/// A matcher over the campus reference set, built once at start-up and then
/// shared read-only.
pub fn campus_preprocessor() -> (r: LocationPreprocessor)
    ensures
        r.wf(),
        r.refs().len() == 30,
{
    LocationPreprocessor::new(location_values())
}

} // verus!
