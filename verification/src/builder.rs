//! The path builder.

use vstd::prelude::*;
use crate::arc::{Approximation, Curve};
use crate::command::{cursor_of, lemma_push, start_of, Command};
use crate::geometry::{Point, Vector};
use crate::path::Path;
use crate::scalar::ZERO;

verus! {

/// The commands that draw a rectangle from its top-left corner and the corner
/// opposite to it: a move to the first, lines to the right, down and to the
/// left, and a close.
pub open spec fn rectangle_commands(top_left: Point, opposite: Point) -> Seq<Command> {
    seq![
        Command::MoveTo(top_left),
        Command::LineTo(Point { x: opposite.x, y: top_left.y }),
        Command::LineTo(opposite),
        Command::LineTo(Point { x: top_left.x, y: opposite.y }),
        Command::Close,
    ]
}

/// The arc command of an arc of the given radius that ends at `to`: both radii
/// equal, no rotation, neither flag set.
pub open spec fn tangent_arc(to: Point, radius: u32) -> Command {
    Command::ArcTo {
        radii: Vector { x: radius, y: radius },
        x_rotation: ZERO,
        large_arc: false,
        sweep: false,
        to,
    }
}

/// The commands of an arc from `a` to `b` when the cursor is at `cursor`: the
/// arc alone where the cursor is at `a` already, and otherwise one line to `a`
/// before it.
pub open spec fn arc_to_commands(cursor: Point, a: Point, b: Point, radius: u32) -> Seq<Command> {
    if cursor.coincides_spec(a) {
        seq![tangent_arc(b, radius)]
    } else {
        seq![Command::LineTo(a), tangent_arc(b, radius)]
    }
}

/// The commands of a decomposed arc: a move to its start, which begins a new
/// sub-path there, then one quadratic segment for each piece.
pub open spec fn ellipse_commands(start: Point, curves: Seq<Curve>) -> Seq<Command> {
    seq![Command::MoveTo(start)] + Seq::new(
        curves.len(),
        |i: int| Command::QuadraticTo { ctrl: curves[i].ctrl, to: curves[i].to },
    )
}

/// A path builder: it gathers commands, keeps track of the cursor, and is used
/// up when the path is built.
#[derive(Debug)]
pub struct Builder {
    commands: Vec<Command>,
    cursor: Point,
    start: Point,
}

impl View for Builder {
    type V = Seq<Command>;

    closed spec fn view(&self) -> Seq<Command> {
        self.commands@
    }
}

impl Builder {
    /// The builder's invariant: the cursor and the start of the current
    /// sub-path that it keeps are those of its commands.
    pub closed spec fn wf(&self) -> bool {
        self.cursor == cursor_of(self.commands@) && self.start == start_of(self.commands@)
    }

    /// An empty builder, with the cursor at the origin.
    pub fn new() -> (builder: Builder)
        ensures
            builder.wf(),
            builder@ == Seq::<Command>::empty(),
    {
        Builder { commands: Vec::new(), cursor: Point::origin(), start: Point::origin() }
    }

    /// Appends one command and moves the cursor as that command says.
    fn push(&mut self, command: Command)
        requires
            old(self).wf(),
        ensures
            final(self).wf(),
            final(self)@ == old(self)@.push(command),
    {
        proof {
            lemma_push(self.commands@, command);
        }
        self.cursor = command.cursor_after(self.start);
        self.start = command.start_after(self.start);
        self.commands.push(command);
    }

    /// The cursor: the end point of the last command, or the start of the
    /// sub-path that was just closed.
    pub fn current_position(&self) -> (p: Point)
        requires
            self.wf(),
        ensures
            p == cursor_of(self@),
    {
        self.cursor
    }

    /// Starts a new sub-path at `point`.
    pub fn move_to(&mut self, point: Point)
        requires
            old(self).wf(),
        ensures
            final(self).wf(),
            final(self)@ == old(self)@.push(Command::MoveTo(point)),
    {
        self.push(Command::MoveTo(point));
    }

    /// Draws a straight line from the cursor to `point`.
    pub fn line_to(&mut self, point: Point)
        requires
            old(self).wf(),
        ensures
            final(self).wf(),
            final(self)@ == old(self)@.push(Command::LineTo(point)),
    {
        self.push(Command::LineTo(point));
    }

    /// Draws a circular arc of the given radius that ends at `b`, after a
    /// straight line to `a` unless the cursor is there already.
    pub fn arc_to(&mut self, a: Point, b: Point, radius: u32)
        requires
            old(self).wf(),
        ensures
            final(self).wf(),
            final(self)@ == old(self)@ + arc_to_commands(cursor_of(old(self)@), a, b, radius),
    {
        let cursor: Point = self.current_position();
        if !cursor.coincides(a) {
            self.push(Command::LineTo(a));
        }
        self.push(
            Command::ArcTo {
                radii: Vector { x: radius, y: radius },
                x_rotation: ZERO,
                large_arc: false,
                sweep: false,
                to: b,
            },
        );
        assert(final(self)@ =~= old(self)@ + arc_to_commands(cursor_of(old(self)@), a, b, radius));
    }

    /// Draws a decomposed arc: jumps to its start, whatever the cursor was,
    /// then draws its pieces in order.
    pub fn ellipse(&mut self, arc: &Approximation)
        requires
            old(self).wf(),
        ensures
            final(self).wf(),
            final(self)@ == old(self)@ + ellipse_commands(arc.start, arc.curves@),
    {
        self.push(Command::MoveTo(arc.start));
        let mut i: usize = 0;
        while i < arc.curves.len()
            invariant
                i <= arc.curves.len(),
                self.wf(),
                self@ == old(self)@ + ellipse_commands(arc.start, arc.curves@).take(i + 1),
            decreases arc.curves.len() - i,
        {
            let curve: Curve = arc.curves[i];
            self.push(Command::QuadraticTo { ctrl: curve.ctrl, to: curve.to });
            assert(self@ =~= old(self)@ + ellipse_commands(arc.start, arc.curves@).take(i + 2));
            i += 1;
        }
        assert(ellipse_commands(arc.start, arc.curves@).take(i + 1) =~= ellipse_commands(
            arc.start,
            arc.curves@,
        ));
    }

    /// Draws a cubic Bezier curve from the cursor to `to`.
    pub fn bezier_curve_to(&mut self, control_a: Point, control_b: Point, to: Point)
        requires
            old(self).wf(),
        ensures
            final(self).wf(),
            final(self)@ == old(self)@.push(
                Command::CubicTo { ctrl1: control_a, ctrl2: control_b, to },
            ),
    {
        self.push(Command::CubicTo { ctrl1: control_a, ctrl2: control_b, to });
    }

    /// Draws a quadratic Bezier curve from the cursor to `to`.
    pub fn quadratic_curve_to(&mut self, control: Point, to: Point)
        requires
            old(self).wf(),
        ensures
            final(self).wf(),
            final(self)@ == old(self)@.push(Command::QuadraticTo { ctrl: control, to }),
    {
        self.push(Command::QuadraticTo { ctrl: control, to });
    }

    /// Draws the rectangle between `top_left` and the corner opposite to it,
    /// clockwise, as a closed sub-path of its own.
    pub fn rectangle(&mut self, top_left: Point, opposite: Point)
        requires
            old(self).wf(),
        ensures
            final(self).wf(),
            final(self)@ == old(self)@ + rectangle_commands(top_left, opposite),
    {
        self.move_to(top_left);
        self.line_to(Point { x: opposite.x, y: top_left.y });
        self.line_to(opposite);
        self.line_to(Point { x: top_left.x, y: opposite.y });
        self.close();
        assert(final(self)@ =~= old(self)@ + rectangle_commands(top_left, opposite));
    }

    /// Closes the current sub-path with a straight line to its start.
    pub fn close(&mut self)
        requires
            old(self).wf(),
        ensures
            final(self).wf(),
            final(self)@ == old(self)@.push(Command::Close),
    {
        self.push(Command::Close);
    }

    /// Uses the builder up and yields the path of its commands.
    pub fn build(self) -> (path: Path)
        ensures
            path@ == self@,
    {
        Path::from_commands(self.commands)
    }
}

} // verus!
