//! The drawing subsystem: resource handles, brush and stroke descriptors,
//! and the drawing context that forwards operations to the native surface.

pub mod context;
pub mod descriptor;
pub mod resource;
