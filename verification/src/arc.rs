//! Circular and elliptical arcs, and what a geometry engine makes of them.

use vstd::prelude::*;
use crate::geometry::{Point, Vector};
use crate::scalar::{FULL_TURN, ZERO};

verus! {

/// A segment of a circle, drawn clockwise.
#[derive(Clone, Copy, Debug, PartialEq, Eq, Structural)]
pub struct Arc {
    pub center: Point,
    /// The bits of the radius.
    pub radius: u32,
    /// The bits of the angle at which the arc starts, in radians.
    pub start_angle: u32,
    /// The bits of the angle at which the arc ends, in radians.
    pub end_angle: u32,
}

/// A segment of an ellipse, drawn clockwise.
#[derive(Clone, Copy, Debug, PartialEq, Eq, Structural)]
pub struct Elliptical {
    pub center: Point,
    /// The radii along the two axes.
    pub radii: Vector,
    /// The bits of the rotation of the ellipse, in radians.
    pub rotation: u32,
    pub start_angle: u32,
    pub end_angle: u32,
}

/// An elliptical arc as a geometry engine takes it: from a start angle over a
/// sweep.
#[derive(Clone, Copy, Debug, PartialEq, Eq, Structural)]
pub struct Sweep {
    pub center: Point,
    pub radii: Vector,
    pub x_rotation: u32,
    pub start_angle: u32,
    pub sweep_angle: u32,
}

/// One quadratic Bezier piece of a decomposed arc.
#[derive(Clone, Copy, Debug, PartialEq, Eq, Structural)]
pub struct Curve {
    pub ctrl: Point,
    pub to: Point,
}

/// An arc decomposed by a geometry engine: the point at which it starts, and
/// the quadratic pieces that follow one another from there.
#[derive(Clone, Debug)]
pub struct Approximation {
    pub start: Point,
    pub curves: Vec<Curve>,
}

impl Arc {
    /// The arc that goes once round a circle, from angle zero over a full turn.
    pub open spec fn circle_spec(center: Point, radius: u32) -> Arc {
        Arc { center, radius, start_angle: ZERO, end_angle: FULL_TURN }
    }

    #[verifier::when_used_as_spec(circle_spec)]
    pub fn circle(center: Point, radius: u32) -> (arc: Arc)
        ensures
            arc == Arc::circle_spec(center, radius),
    {
        Arc { center, radius, start_angle: ZERO, end_angle: FULL_TURN }
    }

    /// The same arc as a segment of an ellipse: both radii are the circle's,
    /// and nothing is rotated.
    pub open spec fn elliptical_spec(self) -> Elliptical {
        Elliptical {
            center: self.center,
            radii: Vector { x: self.radius, y: self.radius },
            rotation: ZERO,
            start_angle: self.start_angle,
            end_angle: self.end_angle,
        }
    }

    #[verifier::when_used_as_spec(elliptical_spec)]
    pub fn elliptical(self) -> (e: Elliptical)
        ensures
            e == self.elliptical_spec(),
    {
        Elliptical {
            center: self.center,
            radii: Vector { x: self.radius, y: self.radius },
            rotation: ZERO,
            start_angle: self.start_angle,
            end_angle: self.end_angle,
        }
    }
}

impl Elliptical {
    /// The arc as handed to a geometry engine. The end angle is taken as the
    /// sweep, the angular extent from the start angle, not as an absolute
    /// angle.
    pub open spec fn sweep_spec(self) -> Sweep {
        Sweep {
            center: self.center,
            radii: self.radii,
            x_rotation: self.rotation,
            start_angle: self.start_angle,
            sweep_angle: self.end_angle,
        }
    }

    #[verifier::when_used_as_spec(sweep_spec)]
    pub fn sweep(self) -> (s: Sweep)
        ensures
            s == self.sweep_spec(),
    {
        Sweep {
            center: self.center,
            radii: self.radii,
            x_rotation: self.rotation,
            start_angle: self.start_angle,
            sweep_angle: self.end_angle,
        }
    }
}

} // verus!
