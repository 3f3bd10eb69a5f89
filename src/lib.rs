//! Keeps a display's colour temperature in step with the sun: gamma ramps,
//! the sun schedule, and the per-output state of the gamma-control protocol.
pub mod color;
pub mod sun;
pub mod wayland;
