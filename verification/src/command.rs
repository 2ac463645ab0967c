//! The primitive commands that a path is made of, and where they leave the
//! cursor.

use vstd::prelude::*;
use crate::geometry::{Point, Vector};

verus! {

/// One primitive path command.
#[derive(Clone, Copy, Debug, PartialEq, Eq, Structural)]
pub enum Command {
    /// Starts a new sub-path at the point, drawing nothing.
    MoveTo(Point),
    /// A straight segment from the cursor to the point.
    LineTo(Point),
    /// A quadratic Bezier segment from the cursor.
    QuadraticTo { ctrl: Point, to: Point },
    /// A cubic Bezier segment from the cursor.
    CubicTo { ctrl1: Point, ctrl2: Point, to: Point },
    /// An elliptical arc from the cursor to `to`, in the manner of SVG.
    ArcTo { radii: Vector, x_rotation: u32, large_arc: bool, sweep: bool, to: Point },
    /// A straight segment back to the start of the current sub-path.
    Close,
}

impl Command {
    /// Whether the command draws a segment; only a move draws none.
    pub open spec fn draws_spec(self) -> bool {
        !(self is MoveTo)
    }

    #[verifier::when_used_as_spec(draws_spec)]
    pub fn draws(self) -> (r: bool)
        ensures
            r == self.draws_spec(),
    {
        match self {
            Command::MoveTo(_) => false,
            _ => true,
        }
    }

    /// Where the current sub-path starts after the command, given where it
    /// started before.
    pub open spec fn start_after_spec(self, start: Point) -> Point {
        match self {
            Command::MoveTo(p) => p,
            _ => start,
        }
    }

    /// Where the cursor is after the command, given where the current sub-path
    /// started before it. No command depends on the cursor before it.
    pub open spec fn cursor_after_spec(self, start: Point) -> Point {
        match self {
            Command::MoveTo(p) => p,
            Command::LineTo(p) => p,
            Command::QuadraticTo { to, .. } => to,
            Command::CubicTo { to, .. } => to,
            Command::ArcTo { to, .. } => to,
            Command::Close => start,
        }
    }

    #[verifier::when_used_as_spec(start_after_spec)]
    pub fn start_after(self, start: Point) -> (p: Point)
        ensures
            p == self.start_after_spec(start),
    {
        match self {
            Command::MoveTo(p) => p,
            _ => start,
        }
    }

    #[verifier::when_used_as_spec(cursor_after_spec)]
    pub fn cursor_after(self, start: Point) -> (p: Point)
        ensures
            p == self.cursor_after_spec(start),
    {
        match self {
            Command::MoveTo(p) => p,
            Command::LineTo(p) => p,
            Command::QuadraticTo { to, .. } => to,
            Command::CubicTo { to, .. } => to,
            Command::ArcTo { to, .. } => to,
            Command::Close => start,
        }
    }
}

/// The start of the current sub-path after a sequence of commands: the point
/// of the last move, or the origin where there was none.
pub open spec fn start_of(commands: Seq<Command>) -> Point
    decreases commands.len(),
{
    if commands.len() == 0 {
        Point::origin_spec()
    } else {
        commands.last().start_after_spec(start_of(commands.drop_last()))
    }
}

/// The cursor after a sequence of commands: the end point of the last one,
/// the start of the sub-path that a final close returned to, or the origin
/// where there is no command.
pub open spec fn cursor_of(commands: Seq<Command>) -> Point {
    if commands.len() == 0 {
        Point::origin_spec()
    } else {
        commands.last().cursor_after_spec(start_of(commands.drop_last()))
    }
}

/// The points that a sequence of commands visits, one for each command: where
/// the cursor is after it.
pub open spec fn vertices_of(commands: Seq<Command>) -> Seq<Point> {
    Seq::new(commands.len(), |i: int| cursor_of(commands.take(i + 1)))
}

/// The segment that the command at `index` draws: from the cursor before it to
/// the cursor after it.
pub open spec fn segment_at(commands: Seq<Command>, index: int) -> (Point, Point) {
    (cursor_of(commands.take(index)), cursor_of(commands.take(index + 1)))
}

/// How many of the commands draw a segment.
pub open spec fn segment_count(commands: Seq<Command>) -> nat
    decreases commands.len(),
{
    if commands.len() == 0 {
        0
    } else {
        segment_count(commands.drop_last()) + if commands.last().draws_spec() { 1nat } else { 0nat }
    }
}

/// Whether the sequence ends by closing its last sub-path.
pub open spec fn ends_closed(commands: Seq<Command>) -> bool {
    commands.len() > 0 && commands.last() == Command::Close
}

/// Appending one command moves start and cursor by that command alone.
pub proof fn lemma_push(commands: Seq<Command>, command: Command)
    ensures
        start_of(commands.push(command)) == command.start_after_spec(start_of(commands)),
        cursor_of(commands.push(command)) == command.cursor_after_spec(start_of(commands)),
        segment_count(commands.push(command)) == segment_count(commands) + if command.draws_spec() {
            1nat
        } else {
            0nat
        },
{
    assert(commands.push(command).drop_last() =~= commands);
}

/// A prefix one command longer is the shorter prefix with that command
/// appended.
pub proof fn lemma_take_next(commands: Seq<Command>, index: int)
    requires
        0 <= index < commands.len(),
    ensures
        commands.take(index + 1) == commands.take(index).push(commands[index]),
{
    assert(commands.take(index + 1) =~= commands.take(index).push(commands[index]));
}

} // verus!
