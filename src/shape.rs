use vstd::prelude::*;
use crate::geometry::{Point, Direction, COORD_LIMIT, abs_diff};

verus! {

/// Half the width of a box, in eighths of an inch (a box is 0.75in wide).
pub const RECT_HALF_WIDTH: i64 = 3;
/// Half the height of a box (a box is 0.5in high).
pub const RECT_HALF_HEIGHT: i64 = 2;
/// Horizontal radius of an ellipse (0.375in).
pub const ELLIPSE_RX: i64 = 3;
/// Vertical radius of an ellipse (0.25in).
pub const ELLIPSE_RY: i64 = 2;
/// Radius of a circle (0.25in).
pub const CIRCLE_RADIUS: i64 = 2;
/// Length of a line drawn from a direction (0.5in).
pub const LINE_LENGTH: i64 = 4;
/// Margin kept between a shape's center and the edge of the working range.
pub const MARGIN: i64 = 8;

/// A coordinate at least `margin` inside the working range.
pub open spec fn within(v: int, margin: int) -> bool {
    -COORD_LIMIT + margin <= v <= COORD_LIMIT - margin
}

impl Point {
    /// Both coordinates lie at least `margin` inside the working range.
    pub open spec fn within(self, margin: int) -> bool {
        within(self.0 as int, margin) && within(self.1 as int, margin)
    }
}

/// The boundary point of an axis-aligned figure centered at `c` with
/// half-extents `hw` (horizontal) and `hh` (vertical) on the given side
/// (Left: west, Right: east, Up: north, Down: south).
pub open spec fn box_anchor(c: Point, hw: int, hh: int, side: Direction) -> Point {
    match side {
        Direction::Left => Point((c.0 - hw) as i64, c.1),
        Direction::Right => Point((c.0 + hw) as i64, c.1),
        Direction::Up => Point(c.0, (c.1 - hh) as i64),
        Direction::Down => Point(c.0, (c.1 + hh) as i64),
    }
}

/// A box of fixed size (0.75in by 0.5in), given by its center.
#[derive(Clone, Copy, Debug, PartialEq, Eq, Structural)]
pub struct Rect {
    pub center: Point,
}

impl Rect {
    pub fn new(position: Point) -> (r: Rect)
        ensures
            r.center == position,
    {
        Rect { center: position }
    }
}

/// An ellipse of fixed radii (0.375in by 0.25in), given by its center.
#[derive(Clone, Copy, Debug, PartialEq, Eq, Structural)]
pub struct Ellipse {
    pub center: Point,
}

impl Ellipse {
    pub fn new(position: Point) -> (r: Ellipse)
        ensures
            r.center == position,
    {
        Ellipse { center: position }
    }
}

/// A circle of fixed radius (0.25in), given by its center.
#[derive(Clone, Copy, Debug, PartialEq, Eq, Structural)]
pub struct Circle {
    pub center: Point,
}

impl Circle {
    pub fn new(position: Point) -> (r: Circle)
        ensures
            r.center == position,
    {
        Circle { center: position }
    }
}

/// A straight segment from `start` to `end`.
#[derive(Clone, Copy, Debug, PartialEq, Eq, Structural)]
pub struct Line {
    pub start: Point,
    pub end: Point,
}

impl Line {
    /// The segment is horizontal or vertical, `LINE_LENGTH` long, and its
    /// ends lie inside the working range.
    pub open spec fn wf(self) -> bool {
        &&& self.start.within(0)
        &&& self.end.within(0)
        &&& ((self.start.1 == self.end.1 && abs_diff(self.start.0 as int, self.end.0 as int)
            == LINE_LENGTH) || (self.start.0 == self.end.0 && abs_diff(
            self.start.1 as int,
            self.end.1 as int,
        ) == LINE_LENGTH))
    }

    /// The segment runs along the axis of travel of `d`.
    pub open spec fn along(self, d: Direction) -> bool {
        match d {
            Direction::Left | Direction::Right => self.start.1 == self.end.1,
            Direction::Up | Direction::Down => self.start.0 == self.end.0,
        }
    }

    /// Midpoint of the segment.
    pub open spec fn center_at(self) -> Point {
        Point(
            ((self.start.0 + self.end.0) / 2) as i64,
            ((self.start.1 + self.end.1) / 2) as i64,
        )
    }

    /// The end that lies farthest toward the given side; on a tie, `end`.
    pub open spec fn anchor(self, side: Direction) -> Point {
        match side {
            Direction::Up => if self.start.1 < self.end.1 { self.start } else { self.end },
            Direction::Down => if self.start.1 > self.end.1 { self.start } else { self.end },
            Direction::Right => if self.start.0 > self.end.0 { self.start } else { self.end },
            Direction::Left => if self.start.0 < self.end.0 { self.start } else { self.end },
        }
    }

    /// The same segment shifted so that its midpoint is `c`.
    pub open spec fn moved_to(self, c: Point) -> Line {
        let dx = c.0 - self.center_at().0;
        let dy = c.1 - self.center_at().1;
        Line {
            start: Point((self.start.0 + dx) as i64, (self.start.1 + dy) as i64),
            end: Point((self.end.0 + dx) as i64, (self.end.1 + dy) as i64),
        }
    }

    /// A segment of `LINE_LENGTH` from `start` in direction `dir`.
    pub fn new(start: Point, dir: Direction) -> (r: Line)
        requires
            start.within(LINE_LENGTH as int),
        ensures
            r.start == start,
            r.end == dir.advance(start, LINE_LENGTH as int),
            r.wf(),
            r.along(dir),
    {
        let length: i64 = LINE_LENGTH;
        let end = match dir {
            Direction::Left => Point::add(start, Point(-length, 0)),
            Direction::Right => Point::add(start, Point(length, 0)),
            Direction::Down => Point::add(start, Point(0, length)),
            Direction::Up => Point::add(start, Point(0, -length)),
        };
        Line { start: start, end: end }
    }

    pub fn center(&self) -> (r: Point)
        requires
            self.wf(),
        ensures
            r == self.center_at(),
    {
        let Point(x0, y0) = self.start;
        let Point(x1, y1) = self.end;
        Point((x0 + x1) / 2, (y0 + y1) / 2)
    }

    pub fn north(&self) -> (r: Point)
        ensures
            r == self.anchor(Direction::Up),
    {
        if self.start.1 < self.end.1 {
            self.start
        } else {
            self.end
        }
    }

    pub fn south(&self) -> (r: Point)
        ensures
            r == self.anchor(Direction::Down),
    {
        if self.start.1 > self.end.1 {
            self.start
        } else {
            self.end
        }
    }

    /// The end farther east, comparing the two ends' x coordinates.
    pub fn east(&self) -> (r: Point)
        ensures
            r == self.anchor(Direction::Right),
    {
        if self.start.0 > self.end.0 {
            self.start
        } else {
            self.end
        }
    }

    /// The end farther west, comparing the two ends' x coordinates.
    pub fn west(&self) -> (r: Point)
        ensures
            r == self.anchor(Direction::Left),
    {
        if self.start.0 < self.end.0 {
            self.start
        } else {
            self.end
        }
    }

    /// Moves the segment as a rigid body so that its midpoint is `loc`.
    pub fn set_location(&mut self, loc: Point)
        requires
            old(self).wf(),
            loc.within(LINE_LENGTH as int),
        ensures
            *final(self) == old(self).moved_to(loc),
            final(self).wf(),
            final(self).center_at() == loc,
            old(self).along(Direction::Right) ==> final(self).along(Direction::Right),
            old(self).along(Direction::Down) ==> final(self).along(Direction::Down),
    {
        let center = self.center();
        let offset = Point::sub(loc, center);
        self.start = Point::add(self.start, offset);
        self.end = Point::add(self.end, offset);
    }
}

/// A line with a filled triangular head at its end.
#[derive(Clone, Copy, Debug, PartialEq, Eq, Structural)]
pub struct Arrow {
    pub shaft: Line,
}

impl Arrow {
    pub fn new(start: Point, dir: Direction) -> (r: Arrow)
        requires
            start.within(LINE_LENGTH as int),
        ensures
            r.shaft.start == start,
            r.shaft.end == dir.advance(start, LINE_LENGTH as int),
            r.shaft.wf(),
            r.shaft.along(dir),
    {
        Arrow { shaft: Line::new(start, dir) }
    }

    /// The point of the head: the end of the shaft.
    pub fn tip(&self) -> (r: Point)
        ensures
            r == self.shaft.end,
    {
        self.shaft.end
    }

    /// The vector one eighth of an inch long that points from the tip back
    /// along the shaft; the head's two wings are this vector turned either
    /// way about the tip.
    pub fn head_back(&self) -> (r: Point)
        requires
            self.shaft.wf(),
        ensures
            self.shaft.start == Point(
                (self.shaft.end.0 + LINE_LENGTH * r.0) as i64,
                (self.shaft.end.1 + LINE_LENGTH * r.1) as i64,
            ),
            abs_diff(r.0 as int, 0) + abs_diff(r.1 as int, 0) == 1,
    {
        let Point(x0, y0) = self.shaft.start;
        let Point(x1, y1) = self.shaft.end;
        Point((x0 - x1) / LINE_LENGTH, (y0 - y1) / LINE_LENGTH)
    }
}

/// The kinds of shape that the language can draw.
#[derive(Clone, Copy, Debug, PartialEq, Eq, Structural)]
pub enum ShapeKind {
    Rect,
    Circle,
    Ellipse,
    Line,
    Arrow,
}

/// One drawable shape.
#[derive(Clone, Copy, Debug, PartialEq, Eq, Structural)]
pub enum Primitive {
    Rect(Rect),
    Ellipse(Ellipse),
    Circle(Circle),
    Line(Line),
    Arrow(Arrow),
}

impl Primitive {
    /// Centered shapes keep `MARGIN` from the edge of the working range;
    /// lines and arrows are well formed segments.
    pub open spec fn wf(self) -> bool {
        match self {
            Primitive::Rect(r) => r.center.within(MARGIN as int),
            Primitive::Ellipse(e) => e.center.within(MARGIN as int),
            Primitive::Circle(c) => c.center.within(MARGIN as int),
            Primitive::Line(l) => l.wf(),
            Primitive::Arrow(a) => a.shaft.wf(),
        }
    }

    pub open spec fn kind(self) -> ShapeKind {
        match self {
            Primitive::Rect(_) => ShapeKind::Rect,
            Primitive::Ellipse(_) => ShapeKind::Ellipse,
            Primitive::Circle(_) => ShapeKind::Circle,
            Primitive::Line(_) => ShapeKind::Line,
            Primitive::Arrow(_) => ShapeKind::Arrow,
        }
    }

    /// Geometric center (the midpoint for lines and arrows).
    pub open spec fn center_at(self) -> Point {
        match self {
            Primitive::Rect(r) => r.center,
            Primitive::Ellipse(e) => e.center,
            Primitive::Circle(c) => c.center,
            Primitive::Line(l) => l.center_at(),
            Primitive::Arrow(a) => a.shaft.center_at(),
        }
    }

    /// The anchor on the given side: Left is west, Right east, Up north and
    /// Down south.
    pub open spec fn anchor(self, side: Direction) -> Point {
        match self {
            Primitive::Rect(r) => box_anchor(
                r.center,
                RECT_HALF_WIDTH as int,
                RECT_HALF_HEIGHT as int,
                side,
            ),
            Primitive::Ellipse(e) => box_anchor(
                e.center,
                ELLIPSE_RX as int,
                ELLIPSE_RY as int,
                side,
            ),
            Primitive::Circle(c) => box_anchor(
                c.center,
                CIRCLE_RADIUS as int,
                CIRCLE_RADIUS as int,
                side,
            ),
            Primitive::Line(l) => l.anchor(side),
            Primitive::Arrow(a) => a.shaft.anchor(side),
        }
    }

    /// The same shape moved so that its center is `c`.
    pub open spec fn moved_to(self, c: Point) -> Primitive {
        match self {
            Primitive::Rect(_) => Primitive::Rect(Rect { center: c }),
            Primitive::Ellipse(_) => Primitive::Ellipse(Ellipse { center: c }),
            Primitive::Circle(_) => Primitive::Circle(Circle { center: c }),
            Primitive::Line(l) => Primitive::Line(l.moved_to(c)),
            Primitive::Arrow(a) => Primitive::Arrow(Arrow { shaft: a.shaft.moved_to(c) }),
        }
    }

    /// The shape can be chained in direction `d`: centered shapes always,
    /// lines and arrows when they run along `d`'s axis.
    pub open spec fn fits(self, d: Direction) -> bool {
        match self {
            Primitive::Line(l) => l.along(d),
            Primitive::Arrow(a) => a.shaft.along(d),
            _ => true,
        }
    }

    /// A new shape of the given kind at `here`: centered shapes are centered
    /// there, lines and arrows start there and run in direction `dir`.
    pub open spec fn fresh(kind: ShapeKind, here: Point, dir: Direction) -> Primitive {
        let line = Line { start: here, end: dir.advance(here, LINE_LENGTH as int) };
        match kind {
            ShapeKind::Rect => Primitive::Rect(Rect { center: here }),
            ShapeKind::Circle => Primitive::Circle(Circle { center: here }),
            ShapeKind::Ellipse => Primitive::Ellipse(Ellipse { center: here }),
            ShapeKind::Line => Primitive::Line(line),
            ShapeKind::Arrow => Primitive::Arrow(Arrow { shaft: line }),
        }
    }

    /// Builds a new shape of the given kind at `here`.
    pub fn new(kind: ShapeKind, here: Point, dir: Direction) -> (r: Primitive)
        requires
            here.within(MARGIN as int),
        ensures
            r == Primitive::fresh(kind, here, dir),
            r.wf(),
            r.fits(dir),
            r.kind() == kind,
    {
        match kind {
            ShapeKind::Rect => Primitive::Rect(Rect::new(here)),
            ShapeKind::Circle => Primitive::Circle(Circle::new(here)),
            ShapeKind::Ellipse => Primitive::Ellipse(Ellipse::new(here)),
            ShapeKind::Line => Primitive::Line(Line::new(here, dir)),
            ShapeKind::Arrow => Primitive::Arrow(Arrow::new(here, dir)),
        }
    }

    pub fn center(&self) -> (r: Point)
        requires
            self.wf(),
        ensures
            r == self.center_at(),
    {
        match self {
            Primitive::Rect(r) => r.center,
            Primitive::Ellipse(e) => e.center,
            Primitive::Circle(c) => c.center,
            Primitive::Line(l) => l.center(),
            Primitive::Arrow(a) => a.shaft.center(),
        }
    }

    /// Half-extents of a centered shape: horizontal, then vertical.
    fn half_extents(&self) -> (r: (i64, i64))
        ensures
            match self {
                Primitive::Rect(_) => r == (RECT_HALF_WIDTH, RECT_HALF_HEIGHT),
                Primitive::Ellipse(_) => r == (ELLIPSE_RX, ELLIPSE_RY),
                Primitive::Circle(_) => r == (CIRCLE_RADIUS, CIRCLE_RADIUS),
                _ => true,
            },
            0 <= r.0 <= MARGIN,
            0 <= r.1 <= MARGIN,
    {
        match self {
            Primitive::Rect(_) => (RECT_HALF_WIDTH, RECT_HALF_HEIGHT),
            Primitive::Ellipse(_) => (ELLIPSE_RX, ELLIPSE_RY),
            Primitive::Circle(_) => (CIRCLE_RADIUS, CIRCLE_RADIUS),
            _ => (0, 0),
        }
    }

    /// The anchor on the given side, as `anchor` states it.
    pub fn anchor_toward(&self, side: Direction) -> (r: Point)
        requires
            self.wf(),
        ensures
            r == self.anchor(side),
    {
        let l = match self {
            Primitive::Line(l) => l,
            Primitive::Arrow(a) => &a.shaft,
            _ => {
                let c = self.center();
                let (hw, hh) = self.half_extents();
                return match side {
                    Direction::Left => Point(c.0 - hw, c.1),
                    Direction::Right => Point(c.0 + hw, c.1),
                    Direction::Up => Point(c.0, c.1 - hh),
                    Direction::Down => Point(c.0, c.1 + hh),
                };
            },
        };
        match side {
            Direction::Left => l.west(),
            Direction::Right => l.east(),
            Direction::Up => l.north(),
            Direction::Down => l.south(),
        }
    }

    pub fn north(&self) -> (r: Point)
        requires
            self.wf(),
        ensures
            r == self.anchor(Direction::Up),
    {
        self.anchor_toward(Direction::Up)
    }

    pub fn east(&self) -> (r: Point)
        requires
            self.wf(),
        ensures
            r == self.anchor(Direction::Right),
    {
        self.anchor_toward(Direction::Right)
    }

    pub fn south(&self) -> (r: Point)
        requires
            self.wf(),
        ensures
            r == self.anchor(Direction::Down),
    {
        self.anchor_toward(Direction::Down)
    }

    pub fn west(&self) -> (r: Point)
        requires
            self.wf(),
        ensures
            r == self.anchor(Direction::Left),
    {
        self.anchor_toward(Direction::Left)
    }

    /// Moves the shape so that its center is `loc`, keeping its size and,
    /// for lines and arrows, its length and orientation.
    pub fn set_location(&mut self, loc: Point)
        requires
            old(self).wf(),
            loc.within(MARGIN as int),
        ensures
            *final(self) == old(self).moved_to(loc),
            final(self).wf(),
            final(self).center_at() == loc,
            final(self).kind() == old(self).kind(),
            forall|d: Direction| old(self).fits(d) ==> #[trigger] final(self).fits(d),
    {
        match self {
            Primitive::Rect(r) => r.center = loc,
            Primitive::Ellipse(e) => e.center = loc,
            Primitive::Circle(c) => c.center = loc,
            Primitive::Line(l) => l.set_location(loc),
            Primitive::Arrow(a) => a.shaft.set_location(loc),
        }
    }
}

} // verus!
