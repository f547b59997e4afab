//! Solar-position and event-time library.
//!
//! Computes the Sun's elevation and azimuth for a given instant and
//! geographic coordinate, and resolves the instants at which the Sun
//! crosses elevation thresholds (sunrise, sunset, twilights, custom
//! thresholds) or reaches its daily maximum elevation (solar noon).
//!
//! All angles are fixed-point integers in microdegrees (degrees scaled
//! by 1_000_000), so that every computation is exact integer arithmetic
//! with a precise contract.

pub mod fixed;
pub mod trig;
pub mod domain;
pub mod instant;
pub mod calc;
pub mod parse;
