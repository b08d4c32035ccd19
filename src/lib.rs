//! Geometry and interaction state of a slippy-map viewer.
//!
//! Geographic positions are held as Web-Mercator world-pixel coordinates, so
//! that tile enumeration, viewport arithmetic and the panning state machine
//! are exact integer computations.

pub mod model;
pub mod state;
pub mod component;
