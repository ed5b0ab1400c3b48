//! Integer core of a Monte Carlo ray tracer.
//!
//! The geometry, the materials and the colour arithmetic work on floating
//! point values; this crate holds the decisions around them: the height of
//! the image, the order in which pixels and samples are taken, when a traced
//! path ends, and the plain-text image encoding the renderer writes.

pub mod camera;
pub mod hittable_list;
pub mod ppm;
pub mod schedule;
pub mod trace;
