use vstd::prelude::*;

verus! {

/// Largest coordinate magnitude, in eighths of an inch, that the library
/// works with. Keeping points inside this range guarantees that sums,
/// differences and squared distances fit in the machine integers used.
pub const COORD_LIMIT: i64 = 0x2000_0000_0000_0000;

/// A point in the plane, in eighths of an inch. The y axis points down.
#[derive(Clone, Copy, Debug, PartialEq, Eq, Structural)]
pub struct Point(pub i64, pub i64);

/// A coordinate that lies inside the working range.
pub open spec fn in_range(v: int) -> bool {
    -COORD_LIMIT <= v <= COORD_LIMIT
}

/// Squared Euclidean distance between two points.
pub open spec fn dist_sq(p0: Point, p1: Point) -> int {
    (p0.0 - p1.0) * (p0.0 - p1.0) + (p0.1 - p1.1) * (p0.1 - p1.1)
}

/// `r` is the Euclidean length `sqrt(d2)`, rounded down.
pub open spec fn is_floor_sqrt(r: int, d2: int) -> bool {
    0 <= r && r * r <= d2 < (r + 1) * (r + 1)
}

impl Point {
    /// Both coordinates lie inside the working range.
    pub open spec fn bounded(self) -> bool {
        in_range(self.0 as int) && in_range(self.1 as int)
    }

    /// Euclidean distance between two points, rounded down to whole eighths.
    /// It is exact whenever the points share a coordinate.
    pub fn distance(p0: Point, p1: Point) -> (r: u64)
        requires
            p0.bounded(),
            p1.bounded(),
        ensures
            is_floor_sqrt(r as int, dist_sq(p0, p1)),
            p0.0 == p1.0 ==> r == abs_diff(p0.1 as int, p1.1 as int),
            p0.1 == p1.1 ==> r == abs_diff(p0.0 as int, p1.0 as int),
    {
        let dx: i64 = p0.0 - p1.0;
        let dy: i64 = p0.1 - p1.1;
        let ax: u128 = if dx < 0 { (0 - dx) as u128 } else { dx as u128 };
        let ay: u128 = if dy < 0 { (0 - dy) as u128 } else { dy as u128 };
        assert(ax * ax <= 0x1000_0000_0000_0000_0000_0000_0000_0000) by (nonlinear_arith)
            requires
                ax <= 0x4000_0000_0000_0000,
        ;
        assert(ay * ay <= 0x1000_0000_0000_0000_0000_0000_0000_0000) by (nonlinear_arith)
            requires
                ay <= 0x4000_0000_0000_0000,
        ;
        let d2: u128 = ax * ax + ay * ay;
        proof {
            lemma_square_of_abs(dx as int, ax as int);
            lemma_square_of_abs(dy as int, ay as int);
        }
        let r = floor_sqrt(d2);
        proof {
            if p0.0 == p1.0 {
                assert(ax * ax == 0) by (nonlinear_arith)
                    requires
                        ax == 0,
                ;
                lemma_floor_sqrt_of_square(r as int, ay as int);
            }
            if p0.1 == p1.1 {
                assert(ay * ay == 0) by (nonlinear_arith)
                    requires
                        ay == 0,
                ;
                lemma_floor_sqrt_of_square(r as int, ax as int);
            }
        }
        r
    }

    /// Componentwise sum.
    pub fn add(p0: Point, p1: Point) -> (r: Point)
        requires
            i64::MIN <= p0.0 + p1.0 <= i64::MAX,
            i64::MIN <= p0.1 + p1.1 <= i64::MAX,
        ensures
            r == Point((p0.0 + p1.0) as i64, (p0.1 + p1.1) as i64),
    {
        Point(p0.0 + p1.0, p0.1 + p1.1)
    }

    /// Componentwise difference.
    pub fn sub(p0: Point, p1: Point) -> (r: Point)
        requires
            i64::MIN <= p0.0 - p1.0 <= i64::MAX,
            i64::MIN <= p0.1 - p1.1 <= i64::MAX,
        ensures
            r == Point((p0.0 - p1.0) as i64, (p0.1 - p1.1) as i64),
    {
        Point(p0.0 - p1.0, p0.1 - p1.1)
    }

    /// Both coordinates multiplied by an integer factor.
    pub fn mul(p: Point, scalar: i64) -> (r: Point)
        requires
            i64::MIN <= p.0 * scalar <= i64::MAX,
            i64::MIN <= p.1 * scalar <= i64::MAX,
        ensures
            r == Point((p.0 * scalar) as i64, (p.1 * scalar) as i64),
    {
        Point(p.0 * scalar, p.1 * scalar)
    }
}

/// `|a - b|`.
pub open spec fn abs_diff(a: int, b: int) -> int {
    if a >= b {
        a - b
    } else {
        b - a
    }
}

proof fn lemma_square_of_abs(d: int, a: int)
    requires
        a == d || a == -d,
    ensures
        a * a == d * d,
{
    if a == -d {
        assert(a * a == d * d) by (nonlinear_arith)
            requires
                a == -d,
        ;
    }
}

proof fn lemma_floor_sqrt_of_square(r: int, a: int)
    requires
        a >= 0,
        is_floor_sqrt(r, a * a),
    ensures
        r == a,
{
    if r < a {
        assert((r + 1) * (r + 1) <= a * a) by (nonlinear_arith)
            requires
                0 <= r < a,
        ;
    } else if r > a {
        assert(r * r > a * a) by (nonlinear_arith)
            requires
                0 <= a < r,
        ;
    }
}

/// Integer square root by bisection: the largest `r` with `r * r <= n`.
fn floor_sqrt(n: u128) -> (r: u64)
    requires
        n <= 0x1000_0000_0000_0000_0000_0000_0000_0000u128 * 2,
    ensures
        is_floor_sqrt(r as int, n as int),
{
    let mut lo: u128 = 0;
    let mut hi: u128 = 0x1_0000_0000_0000_0000;
    assert(n < hi * hi);
    while lo + 1 < hi
        invariant
            lo < hi <= 0x1_0000_0000_0000_0000,
            lo * lo <= n,
            n < hi * hi,
        decreases hi - lo,
    {
        let mid: u128 = lo + (hi - lo) / 2;
        assert(mid * mid <= 0xffff_ffff_ffff_ffffu128 * 0xffff_ffff_ffff_ffffu128)
            by (nonlinear_arith)
            requires
                mid <= 0xffff_ffff_ffff_ffffu128,
        ;
        if mid * mid <= n {
            lo = mid;
        } else {
            hi = mid;
        }
    }
    assert(lo + 1 == hi);
    lo as u64
}

/// The cursor's direction of travel.
#[derive(Clone, Copy, Debug, PartialEq, Eq, Structural)]
pub enum Direction {
    Left,
    Right,
    Up,
    Down,
}

impl Direction {
    /// The point `n` eighths away from `p` in this direction
    /// (Left: -x, Right: +x, Up: -y, Down: +y).
    pub open spec fn advance(self, p: Point, n: int) -> Point {
        match self {
            Direction::Left => Point((p.0 - n) as i64, p.1),
            Direction::Right => Point((p.0 + n) as i64, p.1),
            Direction::Up => Point(p.0, (p.1 - n) as i64),
            Direction::Down => Point(p.0, (p.1 + n) as i64),
        }
    }
}

} // verus!
