//! Verified core of a small ray tracer: the tags that keep points and
//! vectors apart, the decisions taken at a ray/surface intersection, the
//! order in which pixels are produced and the text encoding of the image.
pub mod vec3;
pub mod hittable;
pub mod raster;
pub mod color;
pub mod ppm;
