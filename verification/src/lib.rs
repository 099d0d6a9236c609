//! Control core of a small orbit plotter.
//!
//! The plotter integrates a point body around a fixed attractor and draws the
//! trajectory as a trailing-point image. The floating-point dynamics and the
//! raster drawing live in the surrounding application; this crate holds the
//! integer decisions that drive them: the step discipline of the integrator,
//! the termination rules of the two traversal passes, and the circular trail
//! buffer with its flush-on-wrap cadence.

pub mod drive;
pub mod stepper;
pub mod trail;
