//! Fixed-point scales and tuning constants.

use vstd::prelude::*;

verus! {

/// Thousandths: the scale of speeds, radii, trail lengths and screen sizes
/// (one pixel is `UNIT`), and of the components of a heading (a full step is `UNIT`).
pub const UNIT: i64 = 1000;

/// Scale of positions: one pixel is `FINE` position units, the product of a
/// length of one pixel and a heading component of one full step.
pub const FINE: i64 = 1_000_000;

/// Largest absolute coordinate that the simulation accepts for a position.
pub const WORLD: i64 = 1_000_000_000_000_000;

/// Top speed, four pixels per frame.
pub const MAX_SPEED: i64 = 4000;

/// Change of speed per frame while accelerating or braking, a tenth of a pixel per frame.
pub const SPEED_STEP: i64 = 100;

/// Speed of a fresh snake, one pixel per frame.
pub const START_SPEED: i64 = 1000;

/// Length budget of a fresh snake, a hundred pixels.
pub const START_LENGTH: i64 = 100_000;

/// Largest length budget, ten thousand pixels.
pub const MAX_LENGTH: i64 = 10_000_000;

/// Number of newest trail segments that the self-collision test never looks at.
pub const SELF_COLLISION_SKIP: usize = 100;

/// Number of fruit variants.
pub const FRUIT_KINDS: u8 = 5;

/// Growth of the length budget per fruit eaten while playing, a hundred pixels.
pub const FRUIT_GROWTH: i64 = 100_000;

/// One trail segment in `POP_ODDS` becomes a particle when the snake bursts.
pub const POP_ODDS: u32 = 10;

/// Farthest a particle starts from its segment on either axis, ten pixels.
pub const POP_JITTER: i64 = 10_000_000;

/// A particle starts fewer than `POP_MAX_DELAY` steps after the burst.
pub const POP_MAX_DELAY: u32 = 60;

/// Number of steps that a particle's animation lasts.
pub const POP_SPAN: u64 = 60;

/// Number of pictures in a particle's animation.
pub const POP_FRAMES: u32 = 7;

/// Time that the game stays dead before it waits for a new start, in milliseconds.
pub const COOLDOWN_MS: u64 = 2000;

/// A draw of 32 random bits taken as a fraction has this denominator.
pub const DRAW_RANGE: u64 = 0x1_0000_0000;

} // verus!
