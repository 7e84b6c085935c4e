//! Session controller for an interactive geospatial visualization.
//!
//! The crate owns a camera view state, an append-only registry of renderable
//! layers backed by synthetic oceanographic datasets, and a performance and
//! health monitor, and it synchronizes these into an external rendering
//! engine reached through the ports in [`ports`].  All real-valued
//! quantities (degrees of longitude and latitude, sample weights) are carried
//! as integers in thousandths of a unit, so that every rule about them can be
//! stated and proved exactly.

pub mod controller;
pub mod data;
pub mod doubles;
pub mod json;
pub mod metrics;
pub mod ports;
pub mod sanity;
pub mod value;
