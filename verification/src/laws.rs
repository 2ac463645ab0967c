//! What holds of every path that the builder makes.

use vstd::prelude::*;
use crate::arc::{Arc, Curve};
use crate::builder::{arc_to_commands, ellipse_commands, rectangle_commands, tangent_arc};
use crate::command::{
    cursor_of, ends_closed, lemma_push, segment_at, segment_count, start_of, vertices_of, Command,
};
use crate::geometry::Point;

verus! {

/// A path of one move and nothing else is a single sub-path that starts at the
/// point of the move and has no segment: it visits that point alone and is not
/// closed.
pub proof fn single_move_is_degenerate(p: Point)
    ensures
        ({
            let path = Seq::<Command>::empty().push(Command::MoveTo(p));
            &&& path.len() == 1
            &&& start_of(path) == p
            &&& vertices_of(path) == seq![p]
            &&& segment_count(path) == 0
            &&& !ends_closed(path)
        }),
{
    let empty = Seq::<Command>::empty();
    let path = empty.push(Command::MoveTo(p));
    lemma_push(empty, Command::MoveTo(p));
    assert(path.take(1) =~= path);
    assert(vertices_of(path) =~= seq![p]);
}

/// A move to one point and a line to another make a path with exactly one
/// segment, which goes from the first point to the second with their
/// coordinates unchanged.
pub proof fn single_line_connects(from: Point, to: Point)
    ensures
        ({
            let path = Seq::<Command>::empty().push(Command::MoveTo(from)).push(Command::LineTo(to));
            &&& path.len() == 2
            &&& segment_count(path) == 1
            &&& path[1].draws_spec()
            &&& segment_at(path, 1) == (from, to)
            &&& vertices_of(path) == seq![from, to]
        }),
{
    let empty = Seq::<Command>::empty();
    let moved = empty.push(Command::MoveTo(from));
    let path = moved.push(Command::LineTo(to));
    lemma_push(empty, Command::MoveTo(from));
    lemma_push(moved, Command::LineTo(to));
    assert(path.take(1) =~= moved);
    assert(path.take(2) =~= path);
    assert(vertices_of(path) =~= seq![from, to]);
}

/// Whatever was drawn before, a rectangle adds a closed sub-path of four
/// segments that visits the top-left corner, the corner to its right, the
/// opposite corner and the corner below the first, in that order, and returns
/// to the top-left corner, where it leaves the cursor.
pub proof fn rectangle_visits_corners(before: Seq<Command>, top_left: Point, opposite: Point)
    ensures
        ({
            let path = before + rectangle_commands(top_left, opposite);
            &&& path.len() == before.len() + 5
            &&& vertices_of(path).skip(before.len() as int) == seq![
                top_left,
                Point { x: opposite.x, y: top_left.y },
                opposite,
                Point { x: top_left.x, y: opposite.y },
                top_left,
            ]
            &&& segment_count(path) == segment_count(before) + 4
            &&& ends_closed(path)
            &&& cursor_of(path) == top_left
            &&& start_of(path) == top_left
        }),
{
    let right = Point { x: opposite.x, y: top_left.y };
    let below = Point { x: top_left.x, y: opposite.y };
    let n = before.len() as int;
    let path = before + rectangle_commands(top_left, opposite);
    let s1 = before.push(Command::MoveTo(top_left));
    let s2 = s1.push(Command::LineTo(right));
    let s3 = s2.push(Command::LineTo(opposite));
    let s4 = s3.push(Command::LineTo(below));
    let s5 = s4.push(Command::Close);
    lemma_push(before, Command::MoveTo(top_left));
    lemma_push(s1, Command::LineTo(right));
    lemma_push(s2, Command::LineTo(opposite));
    lemma_push(s3, Command::LineTo(below));
    lemma_push(s4, Command::Close);
    assert(path =~= s5);
    assert(path.take(n + 1) =~= s1);
    assert(path.take(n + 2) =~= s2);
    assert(path.take(n + 3) =~= s3);
    assert(path.take(n + 4) =~= s4);
    assert(path.take(n + 5) =~= s5);
    assert(vertices_of(path).skip(n) =~= seq![top_left, right, opposite, below, top_left]);
}

/// An arc from `a` to `b` is the arc command alone where the cursor is at `a`,
/// and the arc command after exactly one line to `a` where it is elsewhere.
/// Either way the cursor ends at `b`.
pub proof fn arc_to_keeps_continuity(before: Seq<Command>, a: Point, b: Point, radius: u32)
    ensures
        ({
            let added = arc_to_commands(cursor_of(before), a, b, radius);
            &&& cursor_of(before).coincides_spec(a) ==> added == seq![tangent_arc(b, radius)]
            &&& !cursor_of(before).coincides_spec(a) ==> added == seq![
                Command::LineTo(a),
                tangent_arc(b, radius),
            ]
            &&& added.last() == tangent_arc(b, radius)
            &&& cursor_of(before + added) == b
            &&& start_of(before + added) == start_of(before)
        }),
{
    let arc = tangent_arc(b, radius);
    let added = arc_to_commands(cursor_of(before), a, b, radius);
    if cursor_of(before).coincides_spec(a) {
        lemma_push(before, arc);
        assert(before + added =~= before.push(arc));
    } else {
        let lined = before.push(Command::LineTo(a));
        lemma_push(before, Command::LineTo(a));
        lemma_push(lined, arc);
        assert(before + added =~= lined.push(arc));
    }
}

/// A decomposed arc begins a sub-path of its own at the arc's start, wherever
/// the cursor was, and leaves the cursor at the end of its last piece, or at
/// its start where it has no piece.
pub proof fn ellipse_restarts_at_arc(before: Seq<Command>, start: Point, curves: Seq<Curve>)
    ensures
        ({
            let path = before + ellipse_commands(start, curves);
            &&& path.len() == before.len() + 1 + curves.len()
            &&& path[before.len() as int] == Command::MoveTo(start)
            &&& cursor_of(path.take(before.len() as int + 1)) == start
            &&& cursor_of(path) == if curves.len() == 0 { start } else { curves.last().to }
        }),
{
    let n = before.len() as int;
    let added = ellipse_commands(start, curves);
    let path = before + added;
    lemma_push(before, Command::MoveTo(start));
    assert(path.take(n + 1) =~= before.push(Command::MoveTo(start)));
    if curves.len() == 0 {
        assert(path =~= before.push(Command::MoveTo(start)));
    } else {
        let last = Command::QuadraticTo { ctrl: curves.last().ctrl, to: curves.last().to };
        assert(path.last() == last);
    }
}

/// The arc of a circle goes from angle zero over a full turn, and as an
/// ellipse has both radii equal to the circle's and no rotation, so that its
/// sweep is a full turn.
pub proof fn circle_is_full_turn(center: Point, radius: u32)
    ensures
        ({
            let sweep = Arc::circle_spec(center, radius).elliptical_spec().sweep_spec();
            &&& sweep.center == center
            &&& sweep.radii.x == radius
            &&& sweep.radii.y == radius
            &&& sweep.x_rotation == crate::scalar::ZERO
            &&& sweep.start_angle == crate::scalar::ZERO
            &&& sweep.sweep_angle == crate::scalar::FULL_TURN
        }),
{
}

} // verus!
