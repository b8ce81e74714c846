//! Nearest-reference-point matching: given a query coordinate and an ordered
//! set of reference points, pick the address of the closest reference within
//! a distance threshold.
//!
//! The policy scans references in their fixed order keeping a running best:
//! a reference becomes the new best only when its distance is below both the
//! threshold and the running best, so on equal distances the earlier
//! reference wins.  [`best_index`] states this policy as a function of the
//! inputs, and the lemmas below prove its characteristic properties.

use vstd::prelude::*;
use crate::point::{GeographicPoint, ValidationError, haversine_m_spec, LAT_LIMIT_UDEG,
    LON_LIMIT_UDEG};

verus! {

/// Distance threshold in meters used by [`LocationPreprocessor::do_preprocess`],
/// as in the reference deployment.
pub const DEFAULT_THRESHOLD_M: u64 = 200;

/// Distance from the query coordinate to the reference at index `i`.
pub open spec fn query_dist(lat: int, lon: int, refs: Seq<GeographicPoint>, i: int) -> int {
    haversine_m_spec(lat, lon, refs[i].lat(), refs[i].lon())
}

/// Index of the winning reference among `refs[0..n]`: the first one whose
/// distance is under the threshold and strictly below every later winner's.
/// `None` when no reference in the prefix is within the threshold.
pub open spec fn best_index_upto(
    lat: int,
    lon: int,
    refs: Seq<GeographicPoint>,
    threshold: int,
    n: int,
) -> Option<int>
    decreases n,
{
    if n <= 0 {
        None
    } else {
        let prev = best_index_upto(lat, lon, refs, threshold, n - 1);
        let d = query_dist(lat, lon, refs, n - 1);
        match prev {
            None => if d < threshold {
                Some(n - 1)
            } else {
                None
            },
            Some(b) => if d < threshold && d < query_dist(lat, lon, refs, b) {
                Some(n - 1)
            } else {
                Some(b)
            },
        }
    }
}

/// The reference the matching policy selects over the whole collection.
pub open spec fn best_index(
    lat: int,
    lon: int,
    refs: Seq<GeographicPoint>,
    threshold: int,
) -> Option<int> {
    best_index_upto(lat, lon, refs, threshold, refs.len() as int)
}

/// What the policy guarantees of its choice: the winner is within the
/// threshold, no reference is strictly closer, and every earlier reference
/// is strictly farther (ties are won by the earliest); when there is no
/// winner, no reference is within the threshold.
pub proof fn lemma_best_index_upto_props(
    lat: int,
    lon: int,
    refs: Seq<GeographicPoint>,
    threshold: int,
    n: int,
)
    requires
        0 <= n <= refs.len(),
    ensures
        match best_index_upto(lat, lon, refs, threshold, n) {
            None => forall|j: int|
                0 <= j < n ==> query_dist(lat, lon, refs, j) >= threshold,
            Some(i) => {
                &&& 0 <= i < n
                &&& query_dist(lat, lon, refs, i) < threshold
                &&& forall|j: int|
                    0 <= j < n ==> query_dist(lat, lon, refs, i) <= query_dist(lat, lon, refs, j)
                &&& forall|j: int|
                    0 <= j < i ==> query_dist(lat, lon, refs, j) > query_dist(lat, lon, refs, i)
            },
        },
    decreases n,
{
    if n > 0 {
        lemma_best_index_upto_props(lat, lon, refs, threshold, n - 1);
    }
}

/// The properties of [`lemma_best_index_upto_props`], for the whole
/// collection.
pub proof fn lemma_best_index_props(
    lat: int,
    lon: int,
    refs: Seq<GeographicPoint>,
    threshold: int,
)
    ensures
        match best_index(lat, lon, refs, threshold) {
            None => forall|j: int|
                0 <= j < refs.len() ==> query_dist(lat, lon, refs, j) >= threshold,
            Some(i) => {
                &&& 0 <= i < refs.len()
                &&& query_dist(lat, lon, refs, i) < threshold
                &&& forall|j: int|
                    0 <= j < refs.len() ==> query_dist(lat, lon, refs, i) <= query_dist(
                        lat,
                        lon,
                        refs,
                        j,
                    )
                &&& forall|j: int|
                    0 <= j < i ==> query_dist(lat, lon, refs, j) > query_dist(lat, lon, refs, i)
            },
        },
{
    lemma_best_index_upto_props(lat, lon, refs, threshold, refs.len() as int);
}

/// When exactly one reference is strictly closest and it is within the
/// threshold, it wins regardless of where it stands in the order.
pub proof fn lemma_closest_wins(
    lat: int,
    lon: int,
    refs: Seq<GeographicPoint>,
    threshold: int,
    i: int,
)
    requires
        0 <= i < refs.len(),
        query_dist(lat, lon, refs, i) < threshold,
        forall|j: int|
            0 <= j < refs.len() && j != i ==> query_dist(lat, lon, refs, j) > query_dist(
                lat,
                lon,
                refs,
                i,
            ),
    ensures
        best_index(lat, lon, refs, threshold) == Some(i),
{
    lemma_best_index_props(lat, lon, refs, threshold);
}

/// Two references at the same distance, both under the threshold: the one
/// that appears first in the collection's order wins.
pub proof fn lemma_tie_breaks_to_first(
    lat: int,
    lon: int,
    refs: Seq<GeographicPoint>,
    threshold: int,
)
    requires
        refs.len() == 2,
        query_dist(lat, lon, refs, 0) == query_dist(lat, lon, refs, 1),
        query_dist(lat, lon, refs, 0) < threshold,
    ensures
        best_index(lat, lon, refs, threshold) == Some(0int),
{
    lemma_best_index_props(lat, lon, refs, threshold);
}

/// When every reference is at or beyond the threshold there is no match.
pub proof fn lemma_no_match(lat: int, lon: int, refs: Seq<GeographicPoint>, threshold: int)
    requires
        forall|j: int| 0 <= j < refs.len() ==> query_dist(lat, lon, refs, j) >= threshold,
    ensures
        best_index(lat, lon, refs, threshold) is None,
{
    lemma_best_index_props(lat, lon, refs, threshold);
}

/// Rewrites unreliable addresses: holds an immutable ordered collection of
/// reference points and resolves query coordinates against it.
pub struct LocationPreprocessor {
    references: Vec<GeographicPoint>,
}

impl LocationPreprocessor {
    /// The reference points, in their fixed iteration order.
    pub closed spec fn refs(self) -> Seq<GeographicPoint> {
        self.references@
    }

    /// Every reference point holds validated coordinates.
    pub closed spec fn wf(self) -> bool {
        forall|i: int| 0 <= i < self.references@.len() ==> self.references@[i].valid()
    }

    /// Builds a matcher over an ordered collection of validated reference
    /// points.
    pub fn new(references: Vec<GeographicPoint>) -> (r: LocationPreprocessor)
        requires
            forall|i: int| 0 <= i < references@.len() ==> references@[i].valid(),
        ensures
            r.wf(),
            r.refs() == references@,
    {
        LocationPreprocessor { references }
    }

    /// The address of the closest reference within `threshold_m` meters of
    /// the query, or `None` when every reference is at least `threshold_m`
    /// away.  Ties go to the reference that appears first.
    pub fn resolve(&self, query: &GeographicPoint, threshold_m: u64) -> (r: Option<String>)
        requires
            self.wf(),
            query.valid(),
        ensures
            match best_index(query.lat(), query.lon(), self.refs(), threshold_m as int) {
                None => r is None,
                Some(i) => r is Some && r->0@ == self.refs()[i].label(),
            },
    {
        let ghost lat = query.lat();
        let ghost lon = query.lon();
        let mut best: Option<usize> = None;
        let mut best_distance: u64 = u64::MAX;
        let mut idx: usize = 0;
        while idx < self.references.len()
            invariant
                self.wf(),
                query.valid(),
                lat == query.lat(),
                lon == query.lon(),
                idx <= self.references@.len(),
                match best {
                    None => {
                        &&& best_index_upto(lat, lon, self.refs(), threshold_m as int, idx as int)
                            is None
                        &&& best_distance == u64::MAX
                    },
                    Some(b) => {
                        &&& b < idx
                        &&& best_index_upto(lat, lon, self.refs(), threshold_m as int, idx as int)
                            == Some(b as int)
                        &&& best_distance as int == query_dist(lat, lon, self.refs(), b as int)
                        &&& best_distance < u64::MAX
                    },
                },
            decreases self.references@.len() - idx,
        {
            let v = &self.references[idx];
            let distance = query.haversine_distance_meters_to(v);
            if distance < threshold_m && distance < best_distance {
                best = Some(idx);
                best_distance = distance;
            }
            idx = idx + 1;
        }
        match best {
            None => None,
            Some(b) => Some(self.references[b].address()),
        }
    }

    /// Resolves a record's coordinate and returns its rewritten address:
    /// the closest reference's address when one lies within
    /// [`DEFAULT_THRESHOLD_M`] meters, otherwise the original address
    /// untouched.  Out-of-range coordinates are rejected as at
    /// [`GeographicPoint::new`].
    pub fn do_preprocess(&self, lat_udeg: i64, lon_udeg: i64, addr: String) -> (r: Result<
        String,
        ValidationError,
    >)
        requires
            self.wf(),
        ensures
            r is Ok <==> (-LAT_LIMIT_UDEG <= lat_udeg <= LAT_LIMIT_UDEG
                && -LON_LIMIT_UDEG <= lon_udeg <= LON_LIMIT_UDEG),
            !(-LAT_LIMIT_UDEG <= lat_udeg <= LAT_LIMIT_UDEG) ==> r == Result::<
                String,
                ValidationError,
            >::Err(ValidationError::InvalidLatitude),
            (-LAT_LIMIT_UDEG <= lat_udeg <= LAT_LIMIT_UDEG) && !(-LON_LIMIT_UDEG <= lon_udeg
                <= LON_LIMIT_UDEG) ==> r == Result::<String, ValidationError>::Err(
                ValidationError::InvalidLongitude,
            ),
            r is Ok ==> match best_index(
                lat_udeg as int,
                lon_udeg as int,
                self.refs(),
                DEFAULT_THRESHOLD_M as int,
            ) {
                None => r->Ok_0@ == addr@,
                Some(i) => r->Ok_0@ == self.refs()[i].label(),
            },
    {
        let query = match GeographicPoint::new(lat_udeg, lon_udeg, String::new()) {
            Ok(q) => q,
            Err(e) => {
                return Err(e);
            },
        };
        match self.resolve(&query, DEFAULT_THRESHOLD_M) {
            None => Ok(addr),
            Some(resolved) => Ok(resolved),
        }
    }
}

} // verus!
