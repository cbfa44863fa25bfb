//! Points, headings, the wrap-around correction and the circle test.

use vstd::prelude::*;
use crate::units::{MAX_SPEED, UNIT, WORLD};

verus! {

/// A position on the screen, in millionths of a pixel.
#[derive(Clone, Copy, PartialEq, Eq, Structural, Debug)]
pub struct Point {
    pub x: i64,
    pub y: i64,
}

impl Point {
    /// Neither coordinate lies farther than `WORLD` from the origin.
    pub open spec fn in_world(&self) -> bool {
        &&& -WORLD <= self.x <= WORLD
        &&& -WORLD <= self.y <= WORLD
    }

    /// The point with the given coordinates.
    pub fn new(x: i64, y: i64) -> (p: Point)
        ensures
            p.x == x,
            p.y == y,
    {
        Point { x, y }
    }
}

/// The direction a segment faces, as a vector in thousandths.
#[derive(Clone, Copy, PartialEq, Eq, Structural, Debug)]
pub struct Heading {
    pub x: i64,
    pub y: i64,
}

impl Heading {
    /// Neither component is longer than one full step.
    pub open spec fn wf(&self) -> bool {
        &&& -UNIT <= self.x <= UNIT
        &&& -UNIT <= self.y <= UNIT
    }

    /// The heading with the given components.
    pub fn new(x: i64, y: i64) -> (h: Heading)
        ensures
            h.x == x,
            h.y == y,
    {
        Heading { x, y }
    }
}

/// Where `a` lands after one wrap-around correction on the range from `min` to `max`.
pub open spec fn spec_wrap(a: int, min: int, max: int) -> int {
    if a < min {
        a + (max - min)
    } else if a > max {
        a - (max - min)
    } else {
        a
    }
}

/// One wrap-around correction of the coordinate `a` on the range from `min` to `max`.
pub fn wrap(a: i64, min: i64, max: i64) -> (r: i64)
    requires
        i64::MIN <= spec_wrap(a as int, min as int, max as int) <= i64::MAX,
    ensures
        r == spec_wrap(a as int, min as int, max as int),
{
    let period: i128 = max as i128 - min as i128;
    if a < min {
        (a as i128 + period) as i64
    } else if a > max {
        (a as i128 - period) as i64
    } else {
        a
    }
}

/// A wrapped coordinate that started within one period of the range lies in the
/// range, and below its upper end unless it started on that end or one period above it.
pub proof fn lemma_wrap_lands_in_range(a: int, min: int, max: int)
    requires
        min < max,
        min - (max - min) <= a <= max + (max - min),
    ensures
        min <= spec_wrap(a, min, max) <= max,
        a != max && a != max + (max - min) ==> spec_wrap(a, min, max) < max,
{
}

/// Wrapping leaves a coordinate in the range alone, so a second correction of a
/// coordinate that started within one period changes nothing.
pub proof fn lemma_wrap_idempotent(a: int, min: int, max: int)
    requires
        min < max,
    ensures
        min <= a <= max ==> spec_wrap(a, min, max) == a,
        min - (max - min) <= a <= max + (max - min) ==> spec_wrap(
            spec_wrap(a, min, max),
            min,
            max,
        ) == spec_wrap(a, min, max),
{
}

/// The size of the screen, in thousandths of a pixel.
#[derive(Clone, Copy, PartialEq, Eq, Structural, Debug)]
pub struct Screen {
    pub width: u32,
    pub height: u32,
}

impl Screen {
    /// The corner opposite the origin.
    pub open spec fn spec_far_corner(self) -> Point {
        Point { x: (self.width * UNIT) as i64, y: (self.height * UNIT) as i64 }
    }

    /// The middle of the screen, each coordinate rounded down.
    pub open spec fn spec_centre(self) -> Point {
        Point { x: (self.width * UNIT / 2) as i64, y: (self.height * UNIT / 2) as i64 }
    }

    /// No stride at top speed is longer than the screen is wide or high.
    pub open spec fn holds_a_stride(self) -> bool {
        self.width >= MAX_SPEED && self.height >= MAX_SPEED
    }

    /// The screen of the given width and height.
    pub fn new(width: u32, height: u32) -> (s: Screen)
        ensures
            s.width == width,
            s.height == height,
    {
        Screen { width, height }
    }

    /// The corner opposite the origin.
    pub fn far_corner(&self) -> (p: Point)
        ensures
            p == self.spec_far_corner(),
            p.x == self.width * UNIT,
            p.y == self.height * UNIT,
            p.in_world(),
    {
        Point { x: self.width as i64 * UNIT, y: self.height as i64 * UNIT }
    }

    /// The middle of the screen.
    pub fn centre(&self) -> (p: Point)
        ensures
            p == self.spec_centre(),
            p.x == self.width * UNIT / 2,
            p.y == self.height * UNIT / 2,
            p.in_world(),
    {
        Point { x: self.width as i64 * UNIT / 2, y: self.height as i64 * UNIT / 2 }
    }
}

/// Two circles overlap: the centres `a` and `b` are closer than the sum of the
/// radii `ra` and `rb`, which are in thousandths of a pixel.
pub open spec fn spec_collide(a: Point, ra: int, b: Point, rb: int) -> bool {
    (a.x - b.x) * (a.x - b.x) + (a.y - b.y) * (a.y - b.y)
        < ((ra + rb) * UNIT) * ((ra + rb) * UNIT)
}

/// A square is at least the square of any bound that the number reaches, and
/// below the square of any bound that it stays within.
proof fn lemma_square_bounds(d: int, reach: int)
    by (nonlinear_arith)
    requires
        0 <= reach,
    ensures
        (d >= reach || -d >= reach) ==> d * d >= reach * reach,
        (-reach < d < reach) ==> 0 <= d * d < reach * reach,
{
}

/// Circle test between the centres `a` and `b` with radii `ra` and `rb`.
pub fn collide(a: &Point, ra: u32, b: &Point, rb: u32) -> (hit: bool)
    ensures
        hit == spec_collide(*a, ra as int, *b, rb as int),
{
    let reach: i128 = ((ra as i64 + rb as i64) * UNIT) as i128;
    let dx: i128 = a.x as i128 - b.x as i128;
    let dy: i128 = a.y as i128 - b.y as i128;
    proof {
        lemma_square_bounds(dx as int, reach as int);
        lemma_square_bounds(dy as int, reach as int);
        assert(reach * reach <= 0x1_0000_0000_0000 * 0x1_0000_0000_0000) by (nonlinear_arith)
            requires
                0 <= reach <= 0x1_0000_0000_0000,
        ;
    }
    if dx >= reach || -dx >= reach || dy >= reach || -dy >= reach {
        false
    } else {
        dx * dx + dy * dy < reach * reach
    }
}

} // verus!
