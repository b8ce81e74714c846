//! Validated geographic coordinates and the great-circle distance between
//! them.
//!
//! A coordinate is stored in integer microdegrees (one millionth of a
//! degree, about 0.11 m of latitude), which keeps the whole computation in
//! integers.  The distance follows the haversine formula
//! `2 R atan2(sqrt(a), sqrt(1-a))` with
//! `a = sin^2(dphi/2) + cos(phi1) cos(phi2) sin^2(dlam/2)`,
//! evaluated in `SCALE` fixed-point units; it is numerically stable near
//! coincident and near antipodal points, and the spherical approximation is
//! adequate for campus-scale matching.

use vstd::prelude::*;
use vstd::arithmetic::mul::lemma_mul_is_commutative;
use vstd::arithmetic::div_mod::{lemma_div_is_ordered, lemma_div_pos_is_pos};
use crate::fixed::{ms, clamp_unit, mul_fp, isqrt_fp, sqrt_floor, SCALE};
use crate::trig::{
    sin_poly, cos_poly, atan2_spec, sin_fp, cos_fp, atan2_fp, HALF_PI_FP, PI_FP,
};

verus! {

/// Mean Earth radius in meters, the `R` of the haversine formula.
pub const EARTH_RADIUS_M: u128 = 6_371_393;

/// `SCALE` fixed-point radians per microdegree, rounded to nearest.
pub const RAD_PER_UDEG: i128 = 17_453_292_520;

/// Largest magnitude a converted angle can take: 180 degrees in fixed-point
/// radians (slightly above `PI_FP` because `RAD_PER_UDEG` is rounded up).
pub const MAX_RAD_FP: i128 = 3_141_592_653_600_000_000;

/// Inclusive latitude bound in microdegrees (90 degrees).
pub const LAT_LIMIT_UDEG: i64 = 90_000_000;

/// Inclusive longitude bound in microdegrees (180 degrees).
pub const LON_LIMIT_UDEG: i64 = 180_000_000;

/// Why a coordinate was rejected at construction.
#[derive(Debug, Clone, Copy, PartialEq, Eq, Structural)]
pub enum ValidationError {
    /// Latitude outside `[-90, 90]` degrees.
    InvalidLatitude,
    /// Longitude outside `[-180, 180]` degrees.
    InvalidLongitude,
}

/// A validated coordinate with an associated label (a canonical address).
/// Construction through [`GeographicPoint::new`] is the only validation
/// gate: every value of this type satisfies [`GeographicPoint::valid`].
#[derive(Debug, Clone)]
pub struct GeographicPoint {
    lat_udeg: i64,
    lon_udeg: i64,
    addr: String,
}

/// Absolute value.
pub open spec fn abs_val(a: int) -> int {
    if a >= 0 {
        a
    } else {
        -a
    }
}

/// Absolute difference; symmetric in its arguments.
pub open spec fn abs_diff(a: int, b: int) -> int {
    if a >= b {
        a - b
    } else {
        b - a
    }
}

/// Microdegrees to fixed-point radians.
pub open spec fn rad_of_udeg(d: int) -> int {
    d * RAD_PER_UDEG
}

/// Folds an angle in `[0, pi]` into `[0, pi/2]` by `sin(pi - x) == sin(x)`,
/// saturating at the ends.
pub open spec fn fold_quarter(h: int) -> int {
    if h <= HALF_PI_FP {
        h
    } else if h <= PI_FP {
        PI_FP - h
    } else {
        0
    }
}

/// The haversine great-circle distance in meters between two coordinates
/// given in microdegrees, as the fixed-point pipeline computes it.  Opaque:
/// the matching policy treats the distance as a black box, and only the
/// lemmas and the distance function itself look inside.
#[verifier::opaque]
pub open spec fn haversine_m_spec(lat1: int, lon1: int, lat2: int, lon2: int) -> int {
    let phi1 = rad_of_udeg(lat1);
    let phi2 = rad_of_udeg(lat2);
    let lam1 = rad_of_udeg(lon1);
    let lam2 = rad_of_udeg(lon2);
    let s1 = sin_poly(fold_quarter(abs_diff(phi1, phi2) / 2));
    let s2 = sin_poly(fold_quarter(abs_diff(lam1, lam2) / 2));
    let cc = ms(cos_poly(abs_val(phi1)), cos_poly(abs_val(phi2)));
    let a = clamp_unit(ms(s1, s1) + ms(cc, ms(s2, s2)));
    let y = sqrt_floor(a * (SCALE as int));
    let x = sqrt_floor((SCALE - a) * (SCALE as int));
    let c = 2 * atan2_spec(y, x);
    (EARTH_RADIUS_M as int) * c / (SCALE as int)
}

/// The distance between two points; reads only the coordinates, never the
/// labels.
pub open spec fn distance_spec(p: GeographicPoint, q: GeographicPoint) -> int {
    haversine_m_spec(p.lat(), p.lon(), q.lat(), q.lon())
}

impl GeographicPoint {
    /// Latitude in microdegrees.
    pub closed spec fn lat(self) -> int {
        self.lat_udeg as int
    }

    /// Longitude in microdegrees.
    pub closed spec fn lon(self) -> int {
        self.lon_udeg as int
    }

    /// The label carried by this point.
    pub closed spec fn label(self) -> Seq<char> {
        self.addr@
    }

    /// Both coordinates are within range; established by construction.
    pub closed spec fn valid(self) -> bool {
        &&& -LAT_LIMIT_UDEG <= self.lat_udeg <= LAT_LIMIT_UDEG
        &&& -LON_LIMIT_UDEG <= self.lon_udeg <= LON_LIMIT_UDEG
    }

    /// Creates a point from microdegree coordinates and a label, rejecting
    /// out-of-range coordinates.  Latitude is checked first, as the error
    /// contract states.
    pub fn new(lat_udeg: i64, lon_udeg: i64, addr: String) -> (r: Result<
        GeographicPoint,
        ValidationError,
    >)
        ensures
            r is Ok <==> (-LAT_LIMIT_UDEG <= lat_udeg <= LAT_LIMIT_UDEG
                && -LON_LIMIT_UDEG <= lon_udeg <= LON_LIMIT_UDEG),
            r is Ok ==> {
                let p = r->Ok_0;
                &&& p.valid()
                &&& p.lat() == lat_udeg as int
                &&& p.lon() == lon_udeg as int
                &&& p.label() == addr@
            },
            !(-LAT_LIMIT_UDEG <= lat_udeg <= LAT_LIMIT_UDEG) ==> r == Result::<
                GeographicPoint,
                ValidationError,
            >::Err(ValidationError::InvalidLatitude),
            (-LAT_LIMIT_UDEG <= lat_udeg <= LAT_LIMIT_UDEG) && !(-LON_LIMIT_UDEG <= lon_udeg
                <= LON_LIMIT_UDEG) ==> r == Result::<GeographicPoint, ValidationError>::Err(
                ValidationError::InvalidLongitude,
            ),
    {
        if lat_udeg < -LAT_LIMIT_UDEG || lat_udeg > LAT_LIMIT_UDEG {
            return Err(ValidationError::InvalidLatitude);
        }
        if lon_udeg < -LON_LIMIT_UDEG || lon_udeg > LON_LIMIT_UDEG {
            return Err(ValidationError::InvalidLongitude);
        }
        Ok(GeographicPoint { lat_udeg, lon_udeg, addr })
    }

    /// The label, cloned out.
    pub fn address(&self) -> (r: String)
        ensures
            r@ == self.label(),
    {
        self.addr.clone()
    }

    /// Latitude accessor in microdegrees.
    pub fn latitude_udeg(&self) -> (r: i64)
        ensures
            r as int == self.lat(),
    {
        self.lat_udeg
    }

    /// Longitude accessor in microdegrees.
    pub fn longitude_udeg(&self) -> (r: i64)
        ensures
            r as int == self.lon(),
    {
        self.lon_udeg
    }

    /// Great-circle distance to another point in whole meters, by the
    /// haversine formula in fixed-point arithmetic.  Labels play no part.
    pub fn haversine_distance_meters_to(&self, point2: &GeographicPoint) -> (r: u64)
        requires
            self.valid(),
            point2.valid(),
        ensures
            r as int == distance_spec(*self, *point2),
            r < 30_000_000,
    {
        let phi1 = rad_fp(self.lat_udeg);
        let phi2 = rad_fp(point2.lat_udeg);
        let lam1 = rad_fp(self.lon_udeg);
        let lam2 = rad_fp(point2.lon_udeg);
        let s1 = sin_fp(fold_quarter_fp(abs_diff_fp(phi1, phi2) / 2));
        let s2 = sin_fp(fold_quarter_fp(abs_diff_fp(lam1, lam2) / 2));
        let c1 = cos_fp(abs_fp(phi1));
        let c2 = cos_fp(abs_fp(phi2));
        proof {
            crate::fixed::lemma_ms_bound(c1 as int, c2 as int, SCALE as int, SCALE as int);
            crate::fixed::lemma_ms_bound(s1 as int, s1 as int, SCALE as int, SCALE as int);
            crate::fixed::lemma_ms_bound(s2 as int, s2 as int, SCALE as int, SCALE as int);
        }
        let cc = mul_fp(c1, c2);
        let sq2 = mul_fp(s2, s2);
        proof {
            crate::fixed::lemma_ms_bound(cc as int, sq2 as int, SCALE as int, SCALE as int);
        }
        let a_raw = mul_fp(s1, s1) + mul_fp(cc, sq2);
        let a = if a_raw > SCALE {
            SCALE
        } else {
            a_raw
        };
        let y = isqrt_fp(a * SCALE);
        let x = isqrt_fp((SCALE - a) * SCALE);
        let c = 2 * atan2_fp(y, x);
        let d = EARTH_RADIUS_M * c / SCALE;
        proof {
            reveal(haversine_m_spec);
            lemma_div_pos_is_pos((EARTH_RADIUS_M * c) as int, SCALE as int);
            assert((EARTH_RADIUS_M * c) as int
                <= (EARTH_RADIUS_M as int) * 2 * (HALF_PI_FP as int));
            lemma_div_is_ordered(
                (EARTH_RADIUS_M * c) as int,
                (EARTH_RADIUS_M as int) * 2 * (HALF_PI_FP as int),
                SCALE as int,
            );
        }
        d as u64
    }
}

/// Converts microdegrees to fixed-point radians.
fn rad_fp(d: i64) -> (r: i128)
    requires
        -180_000_000 <= d <= 180_000_000,
    ensures
        r as int == rad_of_udeg(d as int),
        -MAX_RAD_FP <= r <= MAX_RAD_FP,
{
    (d as i128) * RAD_PER_UDEG
}

/// Absolute difference of two fixed-point angles.
fn abs_diff_fp(a: i128, b: i128) -> (r: u128)
    requires
        -MAX_RAD_FP <= a <= MAX_RAD_FP,
        -MAX_RAD_FP <= b <= MAX_RAD_FP,
    ensures
        r as int == abs_diff(a as int, b as int),
        r <= 2 * MAX_RAD_FP,
{
    if a >= b {
        (a - b) as u128
    } else {
        (b - a) as u128
    }
}

/// Absolute value of a fixed-point angle.
fn abs_fp(a: i128) -> (r: u128)
    requires
        -MAX_RAD_FP <= a <= MAX_RAD_FP,
    ensures
        r as int == abs_val(a as int),
        r <= MAX_RAD_FP,
{
    if a >= 0 {
        a as u128
    } else {
        (-a) as u128
    }
}

/// Folds a half-angle into the sine polynomial's domain.
fn fold_quarter_fp(h: u128) -> (r: u128)
    requires
        h <= MAX_RAD_FP,
    ensures
        r as int == fold_quarter(h as int),
        r <= HALF_PI_FP,
{
    if h <= HALF_PI_FP {
        h
    } else if h <= PI_FP {
        PI_FP - h
    } else {
        0
    }
}

/// The distance is symmetric: both sides fold the same absolute differences
/// and multiply the same cosines.
pub proof fn lemma_distance_symmetric(p: GeographicPoint, q: GeographicPoint)
    ensures
        distance_spec(p, q) == distance_spec(q, p),
{
    reveal(haversine_m_spec);
    lemma_mul_is_commutative(
        cos_poly(abs_val(rad_of_udeg(p.lat()))),
        cos_poly(abs_val(rad_of_udeg(q.lat()))),
    );
}

/// Two points with identical coordinates are at distance zero, whatever
/// their labels.
pub proof fn lemma_distance_identity(p: GeographicPoint, q: GeographicPoint)
    requires
        p.lat() == q.lat(),
        p.lon() == q.lon(),
    ensures
        distance_spec(p, q) == 0,
{
    reveal(haversine_m_spec);
    let cc = ms(
        cos_poly(abs_val(rad_of_udeg(p.lat()))),
        cos_poly(abs_val(rad_of_udeg(q.lat()))),
    );
    assert(abs_diff(rad_of_udeg(p.lat()), rad_of_udeg(q.lat())) == 0);
    assert(sin_poly(0) == 0);
    assert(ms(cc, ms(0, 0)) == 0);
    assert(sqrt_floor(0) == 0);
    assert(sqrt_floor((SCALE - 0) * (SCALE as int)) >= 0) by {
        crate::fixed::lemma_sqrt_floor_props((SCALE - 0) * (SCALE as int));
    }
    assert(atan2_spec(0, sqrt_floor((SCALE - 0) * (SCALE as int))) == 0);
}

} // verus!
