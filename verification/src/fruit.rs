//! The fruit and where it appears.

use vstd::prelude::*;
use crate::geometry::{Point, Screen};
use crate::random::{random_u32, random_u8};
use crate::units::{DRAW_RANGE, FRUIT_KINDS, UNIT};

verus! {

/// The coordinate that a draw picks on an axis of the given extent: the draw,
/// as a fraction of `DRAW_RANGE`, times the extent, rounded down.
pub open spec fn spec_scaled(draw: u32, extent: u32) -> int {
    (draw as int * (extent as int * UNIT)) / (DRAW_RANGE as int)
}

/// The one fruit on the screen: its position and which variant it is.
#[derive(Clone, Copy, PartialEq, Eq, Structural, Debug)]
pub struct Fruit {
    pub pos: Point,
    pub n: usize,
}

impl Fruit {
    /// The fruit that the draws `rx`, `ry` and `kind` put on `screen`.
    pub open spec fn spec_place(screen: Screen, rx: u32, ry: u32, kind: u8) -> Fruit {
        Fruit {
            pos: Point {
                x: spec_scaled(rx, screen.width) as i64,
                y: spec_scaled(ry, screen.height) as i64,
            },
            n: (kind % FRUIT_KINDS) as usize,
        }
    }

    /// Some three draws put this fruit on `screen`.
    pub open spec fn spawned_on(self, screen: Screen) -> bool {
        exists|rx: u32, ry: u32, kind: u8| self == #[trigger] Fruit::spec_place(screen, rx, ry, kind)
    }

    /// The fruit lies on `screen` and its variant exists.
    pub open spec fn on_screen(self, screen: Screen) -> bool {
        &&& 0 <= self.pos.x <= screen.width * UNIT
        &&& 0 <= self.pos.y <= screen.height * UNIT
        &&& screen.width > 0 ==> self.pos.x < screen.width * UNIT
        &&& screen.height > 0 ==> self.pos.y < screen.height * UNIT
        &&& self.n < FRUIT_KINDS
    }

    /// Puts a fruit on `screen` from three draws: a fraction of the width, a
    /// fraction of the height, and a byte for the variant.
    pub fn place(screen: Screen, rx: u32, ry: u32, kind: u8) -> (f: Fruit)
        ensures
            f == Fruit::spec_place(screen, rx, ry, kind),
            f.pos.x == spec_scaled(rx, screen.width),
            f.pos.y == spec_scaled(ry, screen.height),
            f.n == kind % FRUIT_KINDS,
            f.on_screen(screen),
    {
        let x: i64 = scaled(rx, screen.width);
        let y: i64 = scaled(ry, screen.height);
        Fruit { pos: Point::new(x, y), n: (kind % FRUIT_KINDS) as usize }
    }

    /// A fruit at a random place on `screen`, of a random variant.
    pub fn new(screen: Screen) -> (f: Fruit)
        ensures
            f.spawned_on(screen),
            f.on_screen(screen),
    {
        let rx: u32 = random_u32();
        let ry: u32 = random_u32();
        let kind: u8 = random_u8();
        Fruit::place(screen, rx, ry, kind)
    }
}

/// The coordinate that a draw picks on an axis of the given extent.
pub fn scaled(draw: u32, extent: u32) -> (c: i64)
    ensures
        c == spec_scaled(draw, extent),
        0 <= c <= extent * UNIT,
        extent > 0 ==> c < extent * UNIT,
{
    let span: i64 = extent as i64 * UNIT;
    proof {
        assert(draw as int * (span as int) <= 0xffff_ffff * (span as int)) by (nonlinear_arith)
            requires
                0 <= draw <= 0xffff_ffff,
                0 <= span,
        ;
        assert(0 <= draw as int * (span as int)) by (nonlinear_arith)
            requires
                0 <= draw,
                0 <= span,
        ;
    }
    let product: u128 = draw as u128 * span as u128;
    (product / (DRAW_RANGE as u128)) as i64
}

/// Every fruit that draws can put on a screen lies on it: from the origin up
/// to, and on a screen with any extent short of, the far corner.
pub proof fn lemma_spawned_fruit_on_screen(f: Fruit, screen: Screen)
    requires
        f.spawned_on(screen),
    ensures
        f.on_screen(screen),
{
    let (rx, ry, kind) = choose|rx: u32, ry: u32, kind: u8|
        f == #[trigger] Fruit::spec_place(screen, rx, ry, kind);
    lemma_scaled_bounds(rx, screen.width);
    lemma_scaled_bounds(ry, screen.height);
}

/// A scaled draw lies on its axis, short of the far end where the axis has any extent.
proof fn lemma_scaled_bounds(draw: u32, extent: u32)
    ensures
        0 <= spec_scaled(draw, extent) <= extent * UNIT,
        extent > 0 ==> spec_scaled(draw, extent) < extent * UNIT,
{
    let span = extent as int * UNIT;
    assert(draw as int * span <= 0xffff_ffff * span) by (nonlinear_arith)
        requires
            0 <= draw <= 0xffff_ffff,
            0 <= span,
    ;
    assert(0 <= draw as int * span) by (nonlinear_arith)
        requires
            0 <= draw,
            0 <= span,
    ;
}

} // verus!
