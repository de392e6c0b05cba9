//! Degrees, minutes and seconds (D°M'S'') angles and the bearings that
//! go with them, as used in navigation.
//!
//! The seconds of an angle are carried as a type parameter: the library
//! decides everything that rests on degrees, minutes and bearings, and
//! hands the seconds through as given.

mod bearing;
mod dms;

pub use bearing::Bearing;
pub use dms::DMS;

