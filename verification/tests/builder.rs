use path_builder::{Approximation, Builder, Command, Curve, Point, Vector};

fn pt(x: f32, y: f32) -> Point {
    Point::new(x.to_bits(), y.to_bits())
}

fn arc_command(radius: f32, to: Point) -> Command {
    Command::ArcTo {
        radii: Vector::new(radius.to_bits(), radius.to_bits()),
        x_rotation: 0.0f32.to_bits(),
        large_arc: false,
        sweep: false,
        to,
    }
}

#[test]
fn new_builder_is_empty_with_cursor_at_origin() {
    let b = Builder::new();
    assert_eq!(b.current_position(), pt(0.0, 0.0));
    let path = b.build();
    assert!(path.is_empty());
    assert_eq!(path.len(), 0);
    assert_eq!(path.commands(), Vec::<Command>::new());
    assert_eq!(path.vertices(), Vec::<Point>::new());
    assert_eq!(path.segments(), 0);
    assert!(!path.is_closed());
}

#[test]
fn move_only_gives_degenerate_sub_path() {
    let p = pt(3.5, -2.25);
    let mut b = Builder::new();
    b.move_to(p);
    assert_eq!(b.current_position(), p);
    let path = b.build();
    assert_eq!(path.commands(), vec![Command::MoveTo(p)]);
    assert_eq!(path.vertices(), vec![p]);
    assert_eq!(path.segments(), 0);
    assert!(!path.is_closed());
}

#[test]
fn move_then_line_gives_one_exact_segment() {
    let from = pt(0.1, 0.2);
    let to = pt(1.0e-30, 3.0e30);
    let mut b = Builder::new();
    b.move_to(from);
    b.line_to(to);
    assert_eq!(b.current_position(), to);
    let path = b.build();
    assert_eq!(path.commands(), vec![Command::MoveTo(from), Command::LineTo(to)]);
    assert_eq!(path.segments(), 1);
    assert_eq!(path.vertices(), vec![from, to]);
    assert_eq!(f32::from_bits(path.vertices()[0].x), 0.1f32);
    assert_eq!(f32::from_bits(path.vertices()[1].y), 3.0e30f32);
}

#[test]
fn closed_triangle_scenario() {
    let mut b = Builder::new();
    b.move_to(pt(0.0, 0.0));
    b.line_to(pt(10.0, 0.0));
    b.line_to(pt(10.0, 10.0));
    b.close();
    assert_eq!(b.current_position(), pt(0.0, 0.0));
    let path = b.build();
    assert_eq!(
        path.commands(),
        vec![
            Command::MoveTo(pt(0.0, 0.0)),
            Command::LineTo(pt(10.0, 0.0)),
            Command::LineTo(pt(10.0, 10.0)),
            Command::Close,
        ]
    );
    assert_eq!(
        path.vertices(),
        vec![pt(0.0, 0.0), pt(10.0, 0.0), pt(10.0, 10.0), pt(0.0, 0.0)]
    );
    assert_eq!(path.segments(), 3);
    assert!(path.is_closed());
}

#[test]
fn rectangle_visits_its_corners_clockwise() {
    let (x, y, w, h) = (2.0f32, 3.0f32, 4.0f32, 5.0f32);
    let mut b = Builder::new();
    b.rectangle(pt(x, y), pt(x + w, y + h));
    assert_eq!(b.current_position(), pt(2.0, 3.0));
    let path = b.build();
    assert_eq!(
        path.commands(),
        vec![
            Command::MoveTo(pt(2.0, 3.0)),
            Command::LineTo(pt(6.0, 3.0)),
            Command::LineTo(pt(6.0, 8.0)),
            Command::LineTo(pt(2.0, 8.0)),
            Command::Close,
        ]
    );
    assert_eq!(
        path.vertices(),
        vec![pt(2.0, 3.0), pt(6.0, 3.0), pt(6.0, 8.0), pt(2.0, 8.0), pt(2.0, 3.0)]
    );
    assert_eq!(path.segments(), 4);
    assert!(path.is_closed());
}

#[test]
fn rectangle_of_negative_size_is_mirrored() {
    let mut b = Builder::new();
    b.move_to(pt(9.0, 9.0));
    b.rectangle(pt(0.0, 0.0), pt(-1.0, -2.0));
    let path = b.build();
    assert_eq!(
        path.vertices(),
        vec![pt(9.0, 9.0), pt(0.0, 0.0), pt(-1.0, 0.0), pt(-1.0, -2.0), pt(0.0, -2.0), pt(0.0, 0.0)]
    );
    assert_eq!(path.len(), 6);
}

#[test]
fn arc_to_from_its_start_adds_no_line() {
    let a = pt(1.0, 1.0);
    let c = pt(5.0, 5.0);
    let mut b = Builder::new();
    b.move_to(a);
    b.arc_to(a, c, 2.0f32.to_bits());
    assert_eq!(b.current_position(), c);
    let path = b.build();
    assert_eq!(path.commands(), vec![Command::MoveTo(a), arc_command(2.0, c)]);
    assert_eq!(path.segments(), 1);
}

#[test]
fn arc_to_from_elsewhere_adds_one_line() {
    let a = pt(1.0, 1.0);
    let c = pt(5.0, 5.0);
    let mut b = Builder::new();
    b.move_to(pt(0.0, 1.0));
    b.arc_to(a, c, 2.0f32.to_bits());
    assert_eq!(b.current_position(), c);
    let path = b.build();
    assert_eq!(
        path.commands(),
        vec![Command::MoveTo(pt(0.0, 1.0)), Command::LineTo(a), arc_command(2.0, c)]
    );
    assert_eq!(path.segments(), 2);
}

#[test]
fn arc_to_takes_the_two_zeros_as_one_place() {
    let mut b = Builder::new();
    b.move_to(pt(0.0, 4.0));
    b.arc_to(pt(-0.0, 4.0), pt(1.0, 1.0), 1.0f32.to_bits());
    assert_eq!(b.build().len(), 2);
}

#[test]
fn arc_to_never_finds_the_cursor_at_a_point_that_is_no_number() {
    let nowhere = pt(f32::NAN, 0.0);
    let mut b = Builder::new();
    b.move_to(nowhere);
    b.arc_to(nowhere, pt(1.0, 1.0), 1.0f32.to_bits());
    let path = b.build();
    assert_eq!(path.len(), 3);
    assert_eq!(path.command(1), Some(Command::LineTo(nowhere)));
}

#[test]
fn arc_to_on_a_new_builder_starts_from_the_origin() {
    let mut b = Builder::new();
    b.arc_to(pt(0.0, 0.0), pt(1.0, 0.0), 1.0f32.to_bits());
    assert_eq!(b.build().commands(), vec![arc_command(1.0, pt(1.0, 0.0))]);
}

#[test]
fn curves_advance_the_cursor() {
    let mut b = Builder::new();
    b.move_to(pt(0.0, 0.0));
    b.quadratic_curve_to(pt(1.0, 2.0), pt(3.0, 4.0));
    assert_eq!(b.current_position(), pt(3.0, 4.0));
    b.bezier_curve_to(pt(5.0, 6.0), pt(7.0, 8.0), pt(9.0, 10.0));
    assert_eq!(b.current_position(), pt(9.0, 10.0));
    let path = b.build();
    assert_eq!(
        path.commands(),
        vec![
            Command::MoveTo(pt(0.0, 0.0)),
            Command::QuadraticTo { ctrl: pt(1.0, 2.0), to: pt(3.0, 4.0) },
            Command::CubicTo { ctrl1: pt(5.0, 6.0), ctrl2: pt(7.0, 8.0), to: pt(9.0, 10.0) },
        ]
    );
    assert_eq!(path.vertices(), vec![pt(0.0, 0.0), pt(3.0, 4.0), pt(9.0, 10.0)]);
}

#[test]
fn close_returns_to_the_last_move() {
    let mut b = Builder::new();
    b.move_to(pt(1.0, 1.0));
    b.line_to(pt(2.0, 2.0));
    b.move_to(pt(7.0, 7.0));
    b.line_to(pt(8.0, 8.0));
    b.close();
    assert_eq!(b.current_position(), pt(7.0, 7.0));
    b.line_to(pt(9.0, 9.0));
    b.close();
    assert_eq!(b.current_position(), pt(7.0, 7.0));
    let path = b.build();
    assert_eq!(path.segments(), 5);
    assert_eq!(path.vertices()[6], pt(7.0, 7.0));
}

#[test]
fn ellipse_jumps_to_the_start_and_draws_the_pieces() {
    let start = pt(10.0, 0.0);
    let curves = vec![
        Curve { ctrl: pt(10.0, 10.0), to: pt(0.0, 10.0) },
        Curve { ctrl: pt(-10.0, 10.0), to: pt(-10.0, 0.0) },
    ];
    let mut b = Builder::new();
    b.move_to(pt(50.0, 50.0));
    b.line_to(pt(60.0, 60.0));
    b.ellipse(&Approximation { start, curves });
    assert_eq!(b.current_position(), pt(-10.0, 0.0));
    let path = b.build();
    assert_eq!(
        path.commands(),
        vec![
            Command::MoveTo(pt(50.0, 50.0)),
            Command::LineTo(pt(60.0, 60.0)),
            Command::MoveTo(start),
            Command::QuadraticTo { ctrl: pt(10.0, 10.0), to: pt(0.0, 10.0) },
            Command::QuadraticTo { ctrl: pt(-10.0, 10.0), to: pt(-10.0, 0.0) },
        ]
    );
    assert_eq!(path.segments(), 3);
}

#[test]
fn ellipse_without_pieces_only_moves() {
    let mut b = Builder::new();
    b.ellipse(&Approximation { start: pt(4.0, 4.0), curves: Vec::new() });
    assert_eq!(b.current_position(), pt(4.0, 4.0));
    b.close();
    assert_eq!(b.current_position(), pt(4.0, 4.0));
    assert_eq!(b.build().commands(), vec![Command::MoveTo(pt(4.0, 4.0)), Command::Close]);
}

#[test]
fn command_by_index() {
    let mut b = Builder::new();
    b.move_to(pt(1.0, 2.0));
    b.close();
    let path = b.build();
    assert_eq!(path.command(0), Some(Command::MoveTo(pt(1.0, 2.0))));
    assert_eq!(path.command(1), Some(Command::Close));
    assert_eq!(path.command(2), None);
    assert!(path.is_closed());
}

#[test]
fn commands_say_what_they_do() {
    let start = pt(1.0, 1.0);
    let p = pt(2.0, 3.0);
    assert!(!Command::MoveTo(p).draws());
    assert!(Command::LineTo(p).draws());
    assert!(Command::Close.draws());
    assert_eq!(Command::MoveTo(p).start_after(start), p);
    assert_eq!(Command::LineTo(p).start_after(start), start);
    assert_eq!(Command::Close.cursor_after(start), start);
    assert_eq!(Command::LineTo(p).cursor_after(start), p);
    assert_eq!(arc_command(1.0, p).cursor_after(start), p);
}
