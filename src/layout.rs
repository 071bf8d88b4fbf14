use vstd::prelude::*;
use crate::geometry::{Point, Direction, COORD_LIMIT, abs_diff};
use crate::shape::{
    Primitive,
    ShapeKind,
    Line,
    LINE_LENGTH,
    RECT_HALF_WIDTH,
    RECT_HALF_HEIGHT,
    ELLIPSE_RX,
    ELLIPSE_RY,
    CIRCLE_RADIUS,
};
use crate::parse::{Command, Element};

verus! {

/// Distance of one explicit move, in eighths of an inch (0.5in).
pub const MOVE_STEP: i64 = 4;

/// Margin from the edge of the working range that the cursor must keep for
/// a placement or a move to stay inside it.
pub const CURSOR_MARGIN: i64 = 16;

/// The direction opposite to `d`.
pub open spec fn opposite(d: Direction) -> Direction {
    match d {
        Direction::Left => Direction::Right,
        Direction::Right => Direction::Left,
        Direction::Up => Direction::Down,
        Direction::Down => Direction::Up,
    }
}

/// Distance from a shape's center to the anchor on the given side. The two
/// points share a coordinate for every well formed shape, so this is their
/// Euclidean distance.
pub open spec fn reach(p: Primitive, side: Direction) -> int {
    let c = p.center_at();
    let a = p.anchor(side);
    abs_diff(c.0 as int, a.0 as int) + abs_diff(c.1 as int, a.1 as int)
}

/// Where `place_object` puts shape `p` when the cursor is at `here` and
/// faces `d`: its anchor facing backward (the entry anchor) determines how
/// far ahead of the cursor its center goes.
pub open spec fn placed(p: Primitive, here: Point, d: Direction) -> Primitive {
    p.moved_to(d.advance(here, reach(p, opposite(d))))
}

/// The cursor after placing `p`: the placed shape's anchor facing forward
/// (the exit anchor).
pub open spec fn after(p: Primitive, here: Point, d: Direction) -> Point {
    placed(p, here, d).anchor(d)
}

/// What a layout state holds: the direction, the cursor, and the shapes
/// placed so far, in placement order.
pub struct PicState {
    pub direction: Direction,
    pub here: Point,
    pub objects: Seq<Primitive>,
}

/// The cursor and the document being laid out.
pub struct Pic {
    direction: Direction,
    here: Point,
    objects: Vec<Primitive>,
}

impl View for Pic {
    type V = PicState;

    closed spec fn view(&self) -> PicState {
        PicState { direction: self.direction, here: self.here, objects: self.objects@ }
    }
}

impl PicState {
    /// Every placed shape is well formed.
    pub open spec fn wf(self) -> bool {
        forall|i: int| 0 <= i < self.objects.len() ==> #[trigger] self.objects[i].wf()
    }
}

/// The center of a well formed shape and any of its anchors share a
/// coordinate and lie at most three eighths apart; for a shape that fits
/// the side's axis, exactly its half extent.
pub proof fn lemma_reach_bounds(p: Primitive, side: Direction)
    requires
        p.wf(),
    ensures
        0 <= reach(p, side) <= 3,
        p.center_at().0 == p.anchor(side).0 || p.center_at().1 == p.anchor(side).1,
        p.fits(side) ==> reach(p, side) == half_extent(p.kind(), side),
{
}

/// Distance from the center of a shape of the given kind, chained in
/// direction `d`, to its entry or exit anchor.
pub open spec fn half_extent(kind: ShapeKind, d: Direction) -> int {
    let horizontal = d == Direction::Left || d == Direction::Right;
    match kind {
        ShapeKind::Rect => if horizontal {
            RECT_HALF_WIDTH as int
        } else {
            RECT_HALF_HEIGHT as int
        },
        ShapeKind::Ellipse => if horizontal {
            ELLIPSE_RX as int
        } else {
            ELLIPSE_RY as int
        },
        ShapeKind::Circle => CIRCLE_RADIUS as int,
        ShapeKind::Line | ShapeKind::Arrow => LINE_LENGTH / 2,
    }
}

impl Pic {
    /// An empty document with the cursor at the origin, facing right.
    pub fn new() -> (r: Pic)
        ensures
            r@.direction == Direction::Right,
            r@.here == Point(0, 0),
            r@.objects == Seq::<Primitive>::empty(),
    {
        Pic { direction: Direction::Right, here: Point(0, 0), objects: Vec::new() }
    }

    pub fn current_location(&self) -> (r: Point)
        ensures
            r == self@.here,
    {
        self.here
    }

    pub fn direction(&self) -> (r: Direction)
        ensures
            r == self@.direction,
    {
        self.direction
    }

    /// The shapes placed so far, in placement order.
    pub fn objects(&self) -> (r: &Vec<Primitive>)
        ensures
            r@ == self@.objects,
    {
        &self.objects
    }

    /// Turns the cursor; its position and the document stay as they are.
    pub fn set_direction(&mut self, d: Direction)
        ensures
            final(self)@.direction == d,
            final(self)@.here == old(self)@.here,
            final(self)@.objects == old(self)@.objects,
    {
        self.direction = d;
    }

    /// Moves the cursor one step in its direction.
    pub fn move_point(&mut self)
        requires
            old(self)@.here.within(CURSOR_MARGIN as int),
        ensures
            final(self)@.here == old(self)@.direction.advance(old(self)@.here, MOVE_STEP as int),
            final(self)@.direction == old(self)@.direction,
            final(self)@.objects == old(self)@.objects,
    {
        let Point(x, y) = self.here;
        match self.direction {
            Direction::Left => self.here = Point(x - MOVE_STEP, y),
            Direction::Right => self.here = Point(x + MOVE_STEP, y),
            Direction::Down => self.here = Point(x, y + MOVE_STEP),
            Direction::Up => self.here = Point(x, y - MOVE_STEP),
        }
    }

    /// Places `obj` so that it touches the cursor with its entry anchor,
    /// advances the cursor to its exit anchor and appends it.
    pub fn place_object(&mut self, obj: Primitive)
        requires
            old(self)@.here.within(CURSOR_MARGIN as int),
            obj.wf(),
        ensures
            final(self)@.objects == old(self)@.objects.push(
                placed(obj, old(self)@.here, old(self)@.direction),
            ),
            final(self)@.here == after(obj, old(self)@.here, old(self)@.direction),
            final(self)@.direction == old(self)@.direction,
            placed(obj, old(self)@.here, old(self)@.direction).wf(),
            obj.fits(old(self)@.direction) ==> placed(
                obj,
                old(self)@.here,
                old(self)@.direction,
            ).anchor(opposite(old(self)@.direction)) == old(self)@.here,
    {
        let mut obj = obj;
        let dir = self.direction;
        let entry = match dir {
            Direction::Left => Direction::Right,
            Direction::Right => Direction::Left,
            Direction::Up => Direction::Down,
            Direction::Down => Direction::Up,
        };
        proof {
            lemma_reach_bounds(obj, entry);
            lemma_place(obj, self@.here, dir);
        }
        let offset = Point::distance(obj.center(), obj.anchor_toward(entry)) as i64;
        let Point(x, y) = self.here;
        let target = match dir {
            Direction::Left => Point(x - offset, y),
            Direction::Right => Point(x + offset, y),
            Direction::Down => Point(x, y + offset),
            Direction::Up => Point(x, y - offset),
        };
        obj.set_location(target);
        self.here = obj.anchor_toward(dir);
        self.objects.push(obj);
    }
}

/// Most statements that one layout takes; this keeps the cursor far
/// inside the working range.
pub const MAX_ELEMENTS: u64 = 0x0100_0000_0000_0000;

/// The cursor moves at most this far, along each axis, per statement.
pub const MAX_STRIDE: i64 = 8;

/// The layout state before any statement.
pub open spec fn start_state() -> PicState {
    PicState { direction: Direction::Right, here: Point(0, 0), objects: Seq::empty() }
}

/// The state after a shape of kind `k` is built at the cursor, facing the
/// cursor's direction, and placed.
pub open spec fn place_kind(s: PicState, k: ShapeKind) -> PicState {
    let p = Primitive::fresh(k, s.here, s.direction);
    PicState {
        direction: s.direction,
        here: after(p, s.here, s.direction),
        objects: s.objects.push(placed(p, s.here, s.direction)),
    }
}

/// The state after a command: `Move` moves the cursor one step, the others
/// turn it.
pub open spec fn command_step(s: PicState, c: Command) -> PicState {
    match c {
        Command::Move => PicState { here: s.direction.advance(s.here, MOVE_STEP as int), ..s },
        Command::Left => PicState { direction: Direction::Left, ..s },
        Command::Right => PicState { direction: Direction::Right, ..s },
        Command::Up => PicState { direction: Direction::Up, ..s },
        Command::Down => PicState { direction: Direction::Down, ..s },
    }
}

/// The state after one element.
pub open spec fn step(s: PicState, e: Element) -> PicState {
    match e {
        Element::Primitive(k, _) => place_kind(s, k),
        Element::Command(c) => command_step(s, c),
    }
}

/// The state after the elements `es`, one after the other, from `s`.
pub open spec fn run(s: PicState, es: Seq<Element>) -> PicState
    decreases es.len(),
{
    if es.len() == 0 {
        s
    } else {
        step(run(s, es.drop_last()), es.last())
    }
}

/// What one placement guarantees: the placed shape is well formed, the
/// cursor moves at most `MAX_STRIDE` along each axis, and a shape that fits
/// the direction touches the old cursor with its entry anchor.
pub proof fn lemma_place(p: Primitive, here: Point, d: Direction)
    requires
        p.wf(),
        here.within(CURSOR_MARGIN as int),
    ensures
        placed(p, here, d).wf(),
        abs_diff(after(p, here, d).0 as int, here.0 as int) <= MAX_STRIDE,
        abs_diff(after(p, here, d).1 as int, here.1 as int) <= MAX_STRIDE,
        p.fits(d) ==> placed(p, here, d).anchor(opposite(d)) == here,
{
    lemma_reach_bounds(p, opposite(d));
    match p {
        Primitive::Line(l) => lemma_place_line(l, here, d),
        Primitive::Arrow(a) => lemma_place_line(a.shaft, here, d),
        _ => {},
    }
}

/// `lemma_place` for a segment.
#[verifier::spinoff_prover]
proof fn lemma_place_line(l: Line, here: Point, d: Direction)
    requires
        l.wf(),
        here.within(CURSOR_MARGIN as int),
    ensures
        ({
            let m = l.moved_to(d.advance(here, reach(Primitive::Line(l), opposite(d))));
            &&& m.wf()
            &&& abs_diff(m.anchor(d).0 as int, here.0 as int) <= MAX_STRIDE
            &&& abs_diff(m.anchor(d).1 as int, here.1 as int) <= MAX_STRIDE
            &&& l.along(d) ==> m.anchor(opposite(d)) == here
            &&& l.along(Direction::Right) ==> m.along(Direction::Right)
            &&& l.along(Direction::Down) ==> m.along(Direction::Down)
        }),
{
    lemma_reach_bounds(Primitive::Line(l), opposite(d));
    if l.start.1 == l.end.1 {
        if l.start.0 < l.end.0 {
        } else {
        }
    } else {
        if l.start.1 < l.end.1 {
        } else {
        }
    }
}

/// Builds a shape of the given kind at the cursor and places it.
pub fn emit_primitive(pic: &mut Pic, kind: ShapeKind)
    requires
        old(pic)@.here.within(CURSOR_MARGIN as int),
        old(pic)@.wf(),
    ensures
        final(pic)@ == place_kind(old(pic)@, kind),
        final(pic)@.wf(),
{
    let here = pic.current_location();
    let dir = pic.direction();
    pic.place_object(Primitive::new(kind, here, dir));
}

/// Carries out a command on the cursor.
pub fn do_command(pic: &mut Pic, command: Command)
    requires
        old(pic)@.here.within(CURSOR_MARGIN as int),
    ensures
        final(pic)@ == command_step(old(pic)@, command),
{
    match command {
        Command::Move => pic.move_point(),
        Command::Left => pic.set_direction(Direction::Left),
        Command::Right => pic.set_direction(Direction::Right),
        Command::Down => pic.set_direction(Direction::Down),
        Command::Up => pic.set_direction(Direction::Up),
    }
}

/// Carries out one element: a shape is built and placed, a command is
/// carried out on the cursor.
pub fn execute(pic: &mut Pic, element: &Element)
    requires
        old(pic)@.here.within(CURSOR_MARGIN as int),
        old(pic)@.wf(),
    ensures
        final(pic)@ == step(old(pic)@, *element),
        final(pic)@.wf(),
        abs_diff(final(pic)@.here.0 as int, old(pic)@.here.0 as int) <= MAX_STRIDE,
        abs_diff(final(pic)@.here.1 as int, old(pic)@.here.1 as int) <= MAX_STRIDE,
{
    match element {
        Element::Primitive(kind, _) => {
            proof {
                lemma_place(
                    Primitive::fresh(*kind, pic@.here, pic@.direction),
                    pic@.here,
                    pic@.direction,
                );
            }
            emit_primitive(pic, *kind);
        },
        Element::Command(c) => do_command(pic, *c),
    }
}

/// Lays out a whole diagram: the elements are carried out in order from an
/// empty document with the cursor at the origin, facing right.
pub fn lay_out(elements: &Vec<Element>) -> (r: Pic)
    requires
        elements@.len() <= MAX_ELEMENTS,
    ensures
        r@ == run(start_state(), elements@),
        r@.wf(),
{
    let mut pic = Pic::new();
    let mut i: usize = 0;
    assert(elements@.take(0) == Seq::<Element>::empty());
    while i < elements.len()
        invariant
            i <= elements@.len() <= MAX_ELEMENTS,
            pic@ == run(start_state(), elements@.take(i as int)),
            pic@.wf(),
            pic@.here.within(COORD_LIMIT - MAX_STRIDE * i),
        decreases elements@.len() - i,
    {
        let ghost before = pic@;
        execute(&mut pic, &elements[i]);
        proof {
            let t = elements@.take(i + 1);
            assert(t.drop_last() == elements@.take(i as int));
            assert(t.last() == elements@[i as int]);
            assert(run(start_state(), t) == step(before, elements@[i as int]));
        }
        i = i + 1;
    }
    assert(elements@.take(elements@.len() as int) == elements@);
    pic
}

} // verus!
