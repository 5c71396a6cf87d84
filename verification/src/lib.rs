//! A library of animated lighting effects for fixed-size LED strips.
//!
//! A *sequence* renders one frame (an array of `N` colors) from a small
//! configuration value; a *chaser* owns a step counter and produces the next
//! sequence configuration on every animation tick.

pub mod chaser;
pub mod color;
pub mod interpolate;
pub mod sequence;
pub mod time;
