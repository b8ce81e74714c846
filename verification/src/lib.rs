//! Resolves an approximate geographic coordinate into a canonical address by
//! matching it against a fixed set of reference points.
//!
//! Coordinates are carried as integer microdegrees and the great-circle
//! (haversine) distance is computed in fixed-point integer arithmetic, so the
//! whole numeric core is verified: the distance is proved symmetric and zero
//! for coincident coordinates, and the nearest-reference selection policy
//! (closest reference under a threshold, first-seen wins on ties) is pinned
//! down by the contracts.

pub mod fixed;
pub mod trig;
pub mod point;
pub mod matcher;
pub mod locations;

pub use matcher::{LocationPreprocessor, DEFAULT_THRESHOLD_M};
pub use point::{GeographicPoint, ValidationError};
pub use locations::{campus_preprocessor, location_keys, location_values};
