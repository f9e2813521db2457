//! Client-side marshalling layer for a native road-routing engine.
//!
//! The library turns routing queries (table, route, trip, map matching and
//! nearest) into the dense, sentinel-encoded argument lists that the native
//! call boundary takes, reads the engine's reply envelope, and projects typed
//! responses. Every numeric value that crosses the boundary is carried as an
//! IEEE 754 binary64 bit pattern (`Scalar`), so nothing here computes with
//! floating point: the library only moves, checks and encodes values.

pub mod scalar;
pub mod codec;
pub mod errors;
pub mod point;
pub mod options;
pub mod tables;
pub mod route;
pub mod trip;
pub mod map_match;
pub mod nearest;
pub mod reply;
pub mod waypoints;
pub mod geometry;
pub mod algorithm;
pub mod config;

pub use algorithm::Algorithm;
pub use config::{EngineConfig, OsrmConfig};
pub use errors::{Capability, Issue, OsrmError, PointOption};
pub use point::Point;
pub use scalar::Scalar;
