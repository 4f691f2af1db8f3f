//! A Monte Carlo sphere renderer's verified core: bitmap encoding,
//! framebuffer layout, render settings, the path integrator's control
//! decisions, and exact raster tests for flat shapes.

pub mod bitmap;
pub mod framebuffer;
pub mod render;
pub mod screen;
pub mod shapes;
