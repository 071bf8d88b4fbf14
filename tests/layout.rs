use pic::geometry::{Direction, Point};
use pic::layout::{do_command, emit_primitive, lay_out, Pic};
use pic::parse::{Command, PicParser};
use pic::shape::{Arrow, Circle, Ellipse, Line, Primitive, Rect, ShapeKind};

fn centers(pic: &Pic) -> Vec<Point> {
    pic.objects().iter().map(|o| o.center()).collect()
}

#[test]
fn two_boxes_facing_right() {
    let mut pic = Pic::new();
    emit_primitive(&mut pic, ShapeKind::Rect);
    assert_eq!(pic.objects()[0].west(), Point(0, 0));
    assert_eq!(pic.current_location(), Point(6, 0));
    emit_primitive(&mut pic, ShapeKind::Rect);
    // 0.375in and 1.125in, 0.75in apart
    assert_eq!(centers(&pic), vec![Point(3, 0), Point(9, 0)]);
    assert_eq!(pic.current_location(), Point(12, 0));
}

#[test]
fn circle_turn_down_circle() {
    let mut pic = Pic::new();
    emit_primitive(&mut pic, ShapeKind::Circle);
    assert_eq!(pic.current_location(), Point(4, 0));
    do_command(&mut pic, Command::Down);
    assert_eq!(pic.current_location(), Point(4, 0));
    assert_eq!(pic.direction(), Direction::Down);
    emit_primitive(&mut pic, ShapeKind::Circle);
    assert_eq!(centers(&pic), vec![Point(2, 0), Point(4, 2)]);
    assert_eq!(pic.current_location(), Point(4, 4));
}

#[test]
fn scenario_from_text() {
    let elements = PicParser::parse("circle\ndown\ncircle\n").unwrap();
    let pic = lay_out(&elements);
    assert_eq!(centers(&pic), vec![Point(2, 0), Point(4, 2)]);
    assert_eq!(pic.current_location(), Point(4, 4));
}

#[test]
fn mixed_run_keeps_anchors_joined() {
    for dir in [Direction::Left, Direction::Right, Direction::Up, Direction::Down] {
        let mut pic = Pic::new();
        pic.set_direction(dir);
        let kinds = [ShapeKind::Rect, ShapeKind::Circle, ShapeKind::Ellipse, ShapeKind::Line, ShapeKind::Arrow, ShapeKind::Rect];
        let mut cursor = Vec::new();
        for k in kinds {
            cursor.push(pic.current_location());
            emit_primitive(&mut pic, k);
        }
        let objs = pic.objects();
        for i in 0..objs.len() {
            let (entry, exit) = match dir {
                Direction::Left => (objs[i].east(), objs[i].west()),
                Direction::Right => (objs[i].west(), objs[i].east()),
                Direction::Up => (objs[i].south(), objs[i].north()),
                Direction::Down => (objs[i].north(), objs[i].south()),
            };
            assert_eq!(entry, cursor[i]);
            if i + 1 < objs.len() {
                assert_eq!(exit, cursor[i + 1]);
            } else {
                assert_eq!(exit, pic.current_location());
            }
        }
    }
}

#[test]
fn box_then_circle_centers_apart_by_half_extents() {
    let mut pic = Pic::new();
    emit_primitive(&mut pic, ShapeKind::Rect);
    emit_primitive(&mut pic, ShapeKind::Circle);
    let c = centers(&pic);
    assert_eq!(c[1].0 - c[0].0, 3 + 2);
    assert_eq!(c[1].1, c[0].1);
}

#[test]
fn ellipse_and_box_going_up() {
    let mut pic = Pic::new();
    do_command(&mut pic, Command::Up);
    emit_primitive(&mut pic, ShapeKind::Ellipse);
    emit_primitive(&mut pic, ShapeKind::Rect);
    assert_eq!(centers(&pic), vec![Point(0, -2), Point(0, -6)]);
    assert_eq!(pic.current_location(), Point(0, -8));
}

#[test]
fn ellipse_going_left() {
    let mut pic = Pic::new();
    do_command(&mut pic, Command::Left);
    emit_primitive(&mut pic, ShapeKind::Ellipse);
    assert_eq!(centers(&pic), vec![Point(-3, 0)]);
    assert_eq!(pic.current_location(), Point(-6, 0));
}

#[test]
fn line_going_down() {
    let mut pic = Pic::new();
    do_command(&mut pic, Command::Down);
    emit_primitive(&mut pic, ShapeKind::Line);
    assert_eq!(pic.objects()[0], Primitive::Line(Line { start: Point(0, 0), end: Point(0, 4) }));
    assert_eq!(pic.current_location(), Point(0, 4));
}

#[test]
fn arrow_going_left() {
    let mut pic = Pic::new();
    do_command(&mut pic, Command::Left);
    emit_primitive(&mut pic, ShapeKind::Arrow);
    let shaft = Line { start: Point(0, 0), end: Point(-4, 0) };
    assert_eq!(pic.objects()[0], Primitive::Arrow(Arrow { shaft }));
    assert_eq!(pic.current_location(), Point(-4, 0));
}

#[test]
fn turning_does_not_move_the_cursor() {
    let mut pic = Pic::new();
    emit_primitive(&mut pic, ShapeKind::Rect);
    let here = pic.current_location();
    for c in [Command::Left, Command::Up, Command::Down, Command::Right] {
        do_command(&mut pic, c);
        assert_eq!(pic.current_location(), here);
    }
    assert_eq!(pic.objects().len(), 1);
}

#[test]
fn move_steps_half_an_inch() {
    let mut pic = Pic::new();
    do_command(&mut pic, Command::Move);
    assert_eq!(pic.current_location(), Point(4, 0));
    do_command(&mut pic, Command::Up);
    do_command(&mut pic, Command::Move);
    assert_eq!(pic.current_location(), Point(4, -4));
    do_command(&mut pic, Command::Left);
    pic.move_point();
    assert_eq!(pic.current_location(), Point(0, -4));
    do_command(&mut pic, Command::Down);
    pic.move_point();
    assert_eq!(pic.current_location(), Point(0, 0));
    assert!(pic.objects().is_empty());
}

#[test]
fn move_leaves_a_gap() {
    let elements = PicParser::parse("box; move; box").unwrap();
    let pic = lay_out(&elements);
    assert_eq!(centers(&pic), vec![Point(3, 0), Point(13, 0)]);
}

#[test]
fn empty_diagram() {
    let pic = lay_out(&PicParser::parse("").unwrap());
    assert!(pic.objects().is_empty());
    assert_eq!(pic.current_location(), Point(0, 0));
    assert_eq!(pic.direction(), Direction::Right);
}

#[test]
fn shape_constructors() {
    assert_eq!(Rect::new(Point(1, 2)).center, Point(1, 2));
    assert_eq!(Circle::new(Point(-1, 2)).center, Point(-1, 2));
    assert_eq!(Ellipse::new(Point(5, 5)).center, Point(5, 5));
    assert_eq!(Line::new(Point(1, 1), Direction::Up), Line { start: Point(1, 1), end: Point(1, -3) });
    assert_eq!(Arrow::new(Point(1, 1), Direction::Right).shaft.end, Point(5, 1));
    let p = Primitive::new(ShapeKind::Ellipse, Point(2, 2), Direction::Left);
    assert_eq!(p, Primitive::Ellipse(Ellipse { center: Point(2, 2) }));
}

#[test]
fn centered_anchors() {
    let r = Primitive::Rect(Rect::new(Point(0, 0)));
    assert_eq!((r.north(), r.east(), r.south(), r.west()), (Point(0, -2), Point(3, 0), Point(0, 2), Point(-3, 0)));
    let c = Primitive::Circle(Circle::new(Point(8, 8)));
    assert_eq!((c.north(), c.east(), c.south(), c.west()), (Point(8, 6), Point(10, 8), Point(8, 10), Point(6, 8)));
    let e = Primitive::Ellipse(Ellipse::new(Point(0, 0)));
    assert_eq!((e.north(), e.east(), e.south(), e.west()), (Point(0, -2), Point(3, 0), Point(0, 2), Point(-3, 0)));
}

#[test]
fn line_anchors_pick_the_farther_end() {
    let l = Line { start: Point(4, 0), end: Point(0, 0) };
    assert_eq!(l.east(), Point(4, 0));
    assert_eq!(l.west(), Point(0, 0));
    assert_eq!(l.center(), Point(2, 0));
    let v = Line { start: Point(0, 4), end: Point(0, 0) };
    assert_eq!(v.north(), Point(0, 0));
    assert_eq!(v.south(), Point(0, 4));
    // a tie goes to the end point
    assert_eq!(v.east(), Point(0, 0));
    assert_eq!(v.west(), Point(0, 0));
}

#[test]
fn relocation_is_rigid() {
    let mut l = Line { start: Point(0, 0), end: Point(4, 0) };
    l.set_location(Point(10, -3));
    assert_eq!(l, Line { start: Point(8, -3), end: Point(12, -3) });
    let mut p = Primitive::Arrow(Arrow::new(Point(0, 0), Direction::Down));
    p.set_location(Point(1, 1));
    assert_eq!(p, Primitive::Arrow(Arrow { shaft: Line { start: Point(1, -1), end: Point(1, 3) } }));
    let mut r = Primitive::Rect(Rect::new(Point(0, 0)));
    r.set_location(Point(7, 7));
    assert_eq!(r.center(), Point(7, 7));
}

#[test]
fn arrow_head_geometry() {
    let a = Arrow::new(Point(0, 0), Direction::Right);
    assert_eq!(a.tip(), Point(4, 0));
    assert_eq!(a.head_back(), Point(-1, 0));
    let b = Arrow::new(Point(3, 3), Direction::Up);
    assert_eq!(b.tip(), Point(3, -1));
    assert_eq!(b.head_back(), Point(0, 1));
}
