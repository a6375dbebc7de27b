//! Conversion of GPS exchange documents (waypoints, routes, tracks and their
//! metadata) into a geographic-visualization document tree.
//!
//! The mapping from the source model to the target tree is verified: every
//! public function states over spec functions exactly which tree it builds.
//! Reading the source bytes and writing the markup are left to the caller.

pub mod convert;
pub mod describe;
pub mod geometry;
pub mod instant;
pub mod laws;
pub mod placemark;
pub mod session;
pub mod source;
pub mod target;
