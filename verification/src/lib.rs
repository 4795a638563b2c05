//! Julia set rendering: the integer core.
//!
//! The library holds every step of a render that works on whole numbers:
//! counting the iterations of one orbit against the cap, scaling that count
//! to an intensity, shading the intensity, and laying the shaded rows out in
//! an image buffer. Sampling the complex plane and iterating the map are
//! floating-point work and belong to the caller.

pub mod color;
pub mod escape;
mod canvas;
pub mod raster;
