use vstd::prelude::*;
use crate::geometry::{Point, Direction};
use crate::shape::{Primitive, Line};
use crate::layout::{
    PicState,
    placed,
    after,
    opposite,
    half_extent,
    command_step,
    lemma_reach_bounds,
    lemma_place,
    CURSOR_MARGIN,
    MAX_STRIDE,
};
use crate::parse::Command;
use crate::svg::svg_of;

verus! {

/// The cursor after placing `shapes` one after the other, from `here`,
/// facing `d` throughout.
pub open spec fn cursor_after(here: Point, d: Direction, shapes: Seq<Primitive>) -> Point
    decreases shapes.len(),
{
    if shapes.len() == 0 {
        here
    } else {
        after(shapes.last(), cursor_after(here, d, shapes.drop_last()), d)
    }
}

/// The shapes as placed by that run, in order.
pub open spec fn placements(here: Point, d: Direction, shapes: Seq<Primitive>) -> Seq<Primitive>
    decreases shapes.len(),
{
    if shapes.len() == 0 {
        Seq::empty()
    } else {
        let prev = shapes.drop_last();
        placements(here, d, prev).push(placed(shapes.last(), cursor_after(here, d, prev), d))
    }
}

/// A shape that fits direction `d` has its exit anchor half its extent
/// ahead of its center along `d`, and its entry anchor as far behind.
pub proof fn lemma_anchor_offsets(p: Primitive, d: Direction)
    requires
        p.wf(),
        p.fits(d),
    ensures
        p.anchor(d) == d.advance(p.center_at(), half_extent(p.kind(), d)),
        p.anchor(opposite(d)) == d.advance(p.center_at(), -half_extent(p.kind(), d)),
{
    match p {
        Primitive::Line(l) => lemma_line_offsets(l, d),
        Primitive::Arrow(a) => lemma_line_offsets(a.shaft, d),
        _ => {},
    }
}

proof fn lemma_line_offsets(l: Line, d: Direction)
    requires
        l.wf(),
        l.along(d),
    ensures
        l.anchor(d) == d.advance(l.center_at(), 2),
        l.anchor(opposite(d)) == d.advance(l.center_at(), -2),
{
}

proof fn lemma_cursor_bound(here: Point, d: Direction, shapes: Seq<Primitive>, m: int)
    requires
        forall|k: int| 0 <= k < shapes.len() ==> #[trigger] shapes[k].wf(),
        m >= CURSOR_MARGIN + MAX_STRIDE * shapes.len(),
        here.within(m),
    ensures
        cursor_after(here, d, shapes).within(m - MAX_STRIDE * shapes.len()),
    decreases shapes.len(),
{
    if shapes.len() > 0 {
        let prev = shapes.drop_last();
        lemma_cursor_bound(here, d, prev, m);
        assert(shapes.last() == shapes[shapes.len() - 1]);
        lemma_place(shapes.last(), cursor_after(here, d, prev), d);
    }
}

/// Anchor continuity: along a run of shapes placed in one direction, each
/// shape's entry anchor is where the cursor stood, that is the exit anchor
/// of the shape before it (the first one's entry anchor is the starting
/// cursor), and the cursor ends on the last shape's exit anchor.
pub proof fn lemma_anchor_continuity(here: Point, d: Direction, shapes: Seq<Primitive>)
    requires
        forall|k: int| 0 <= k < shapes.len() ==> #[trigger] shapes[k].wf(),
        forall|k: int| 0 <= k < shapes.len() ==> #[trigger] shapes[k].fits(d),
        here.within(CURSOR_MARGIN + MAX_STRIDE * shapes.len()),
    ensures
        placements(here, d, shapes).len() == shapes.len(),
        shapes.len() > 0 ==> placements(here, d, shapes)[0].anchor(opposite(d)) == here,
        forall|i: int|
            0 < i < shapes.len() ==> #[trigger] placements(here, d, shapes)[i].anchor(opposite(d))
                == placements(here, d, shapes)[i - 1].anchor(d),
        shapes.len() > 0 ==> placements(here, d, shapes)[shapes.len() - 1].anchor(d)
            == cursor_after(here, d, shapes),
    decreases shapes.len(),
{
    if shapes.len() > 0 {
        let prev = shapes.drop_last();
        lemma_anchor_continuity(here, d, prev);
        lemma_cursor_bound(here, d, prev, CURSOR_MARGIN + MAX_STRIDE * shapes.len());
        let h = cursor_after(here, d, prev);
        let p = shapes.last();
        assert(p == shapes[shapes.len() - 1]);
        lemma_place(p, h, d);
        let all = placements(here, d, shapes);
        let before = placements(here, d, prev);
        assert(all == before.push(placed(p, h, d)));
        assert forall|i: int| 0 < i < shapes.len() implies #[trigger] all[i].anchor(opposite(d))
            == all[i - 1].anchor(d) by {
            if i < shapes.len() - 1 {
                assert(all[i] == before[i]);
                assert(all[i - 1] == before[i - 1]);
            }
        }
    }
}

/// Shapes touch: after one shape is placed and then another, both facing
/// `d`, their centers lie apart along `d` by exactly the sum of their half
/// extents.
pub proof fn lemma_touching(a: Primitive, b: Primitive, here: Point, d: Direction)
    requires
        a.wf(),
        b.wf(),
        a.fits(d),
        b.fits(d),
        here.within(CURSOR_MARGIN + MAX_STRIDE),
    ensures
        placed(b, after(a, here, d), d).center_at() == d.advance(
            placed(a, here, d).center_at(),
            half_extent(a.kind(), d) + half_extent(b.kind(), d),
        ),
{
    let pa = placed(a, here, d);
    let h = after(a, here, d);
    let ha = half_extent(a.kind(), d);
    let hb = half_extent(b.kind(), d);
    lemma_place(a, here, d);
    lemma_placed_center(a, here, d);
    lemma_anchor_offsets(pa, d);
    lemma_half_extent_bounds(a.kind(), d);
    lemma_half_extent_bounds(b.kind(), d);
    assert(h == d.advance(d.advance(here, ha), ha));
    lemma_placed_center(b, h, d);
    lemma_advance_twice(d.advance(here, ha), d, ha, hb);
}

proof fn lemma_half_extent_bounds(k: crate::shape::ShapeKind, d: Direction)
    ensures
        0 <= half_extent(k, d) <= 3,
{
}

proof fn lemma_advance_twice(p: Point, d: Direction, m: int, n: int)
    requires
        p.within(CURSOR_MARGIN as int),
        0 <= m <= 3,
        0 <= n <= 3,
    ensures
        d.advance(d.advance(p, m), n) == d.advance(p, m + n),
{
}

/// The center of a placed shape lies as far ahead of the cursor as the
/// shape's half extent along `d`; placing keeps the kind and the fit.
proof fn lemma_placed_center(p: Primitive, here: Point, d: Direction)
    requires
        p.wf(),
        p.fits(d),
        here.within(CURSOR_MARGIN as int),
    ensures
        placed(p, here, d).center_at() == d.advance(here, half_extent(p.kind(), d)),
        placed(p, here, d).kind() == p.kind(),
        placed(p, here, d).fits(d),
        placed(p, here, d).wf(),
{
    lemma_reach_bounds(p, opposite(d));
    lemma_place(p, here, d);
    match p {
        Primitive::Line(l) => lemma_line_moved(l, d.advance(here, half_extent(p.kind(), d)), d),
        Primitive::Arrow(a) => lemma_line_moved(
            a.shaft,
            d.advance(here, half_extent(p.kind(), d)),
            d,
        ),
        _ => {},
    }
}

proof fn lemma_line_moved(l: Line, c: Point, d: Direction)
    requires
        l.wf(),
        l.along(d),
        c.within(0),
    ensures
        l.moved_to(c).center_at() == c,
        l.moved_to(c).along(d),
{
}

/// Turning does not move the cursor: every command but `Move` leaves the
/// position, and the placed shapes, as they were.
pub proof fn lemma_turn_keeps_position(s: PicState, c: Command)
    requires
        c != Command::Move,
    ensures
        command_step(s, c).here == s.here,
        command_step(s, c).objects == s.objects,
{
}

/// Rendering is deterministic: documents that hold the same shapes render
/// to the same elements.
pub proof fn lemma_render_deterministic(a: PicState, b: PicState, heads: Seq<Seq<char>>)
    requires
        a.objects == b.objects,
    ensures
        forall|i: int|
            0 <= i < a.objects.len() ==> #[trigger] svg_of(a.objects[i], heads[i]) == svg_of(
                b.objects[i],
                heads[i],
            ),
{
}

} // verus!
