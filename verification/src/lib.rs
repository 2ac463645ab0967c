//! Vector path geometry for a canvas: a builder that turns drawing operations
//! into the exact sequence of primitive path commands, and the immutable path
//! that it yields.
//!
//! Coordinates, radii and angles are IEEE 754 single-precision values held by
//! their bit patterns, so that every statement about them is a statement about
//! integers.

pub mod scalar;
pub mod geometry;
pub mod arc;
pub mod command;
pub mod path;
pub mod builder;
pub mod laws;

pub use arc::{Approximation, Arc, Curve, Elliptical, Sweep};
pub use builder::Builder;
pub use command::Command;
pub use geometry::{Point, Vector};
pub use path::Path;
