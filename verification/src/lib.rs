//! A minimal GPU compositing layer: it owns a shader program and the
//! vertex state for one full-screen quad, draws that quad once per frame
//! through a graphics-context capability, and releases the GPU objects
//! it owns exactly once at teardown.

pub mod context;
pub mod errors;
pub mod geometry;
pub mod painter;
