//! Integer core of a recursive sphere ray caster: render configuration,
//! the recursion-depth policy of the shading engine, the row-major
//! framebuffer and the binary PPM (P6) image layout.
pub mod config;
pub mod framebuffer;
pub mod ppm;
