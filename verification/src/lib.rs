//! Geometry of microfluidic channel centerlines.
//!
//! A channel's centerline is an ordered sequence of straight and circular-arc
//! pieces.  This crate models that path, derives the renderer triple (radius,
//! large-arc flag, sweep flag) of an arc from its endpoints, center and
//! rotation direction, renders a path as a string of move/line/arc commands,
//! and computes path lengths.

pub mod channel;
pub mod laws;
pub mod network;
pub mod numerics;
pub mod primitives;
