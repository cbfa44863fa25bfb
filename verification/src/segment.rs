//! One kinematic sample of the snake: where it is, where it faces, how fast it moves.

use vstd::prelude::*;
use crate::geometry::{wrap, spec_wrap, Heading, Point};
use crate::units::{MAX_SPEED, SPEED_STEP, UNIT};

verus! {

/// Steering input for one frame.
#[derive(Clone, Copy, PartialEq, Eq, Structural, Debug)]
pub enum Direction {
    Left,
    Right,
    Straight,
}

/// Throttle input for one frame.
#[derive(Clone, Copy, PartialEq, Eq, Structural, Debug)]
pub enum Speed {
    Accelerate,
    Brake,
    Coast,
}

/// A point mass with a position in millionths of a pixel, an angle in
/// hundred-thousandths of a radian and a speed in thousandths of a pixel per frame.
#[derive(Clone, Copy, PartialEq, Eq, Structural, Debug)]
pub struct Segment {
    pub pos: Point,
    pub angle: i64,
    pub speed: i64,
}

/// The angle after steering for one frame. Steering changes the angle by a
/// hundredth of a radian per pixel of speed: left lowers it, right raises it.
pub open spec fn spec_turned(angle: int, speed: int, direction: Direction) -> int {
    match direction {
        Direction::Left => angle - speed,
        Direction::Right => angle + speed,
        Direction::Straight => angle,
    }
}

/// The speed after one frame of throttle, kept between standstill and `MAX_SPEED`.
pub open spec fn spec_accelerated(speed: int, accel: Speed) -> int {
    let raw = match accel {
        Speed::Accelerate => speed + SPEED_STEP,
        Speed::Brake => speed - SPEED_STEP,
        Speed::Coast => speed,
    };
    if raw < 0 {
        0
    } else if raw > MAX_SPEED {
        MAX_SPEED as int
    } else {
        raw
    }
}

/// The point reached from `p` by going `len` thousandths of a pixel along `heading`.
pub open spec fn spec_ahead(p: Point, heading: Heading, len: int) -> Point {
    Point { x: (p.x + heading.x * len) as i64, y: (p.y + heading.y * len) as i64 }
}

/// `p` after one wrap-around correction per axis on the box from `min` to `max`.
pub open spec fn spec_wrap_point(p: Point, min: Point, max: Point) -> Point {
    Point {
        x: spec_wrap(p.x as int, min.x as int, max.x as int) as i64,
        y: spec_wrap(p.y as int, min.y as int, max.y as int) as i64,
    }
}

/// A product of a heading component and a length stays within the product of their bounds.
pub proof fn lemma_stride_bound(h: int, len: int, max_len: int)
    by (nonlinear_arith)
    requires
        -UNIT <= h <= UNIT,
        0 <= len <= max_len,
    ensures
        -UNIT * max_len <= h * len <= UNIT * max_len,
{
}

impl Segment {
    /// The speed lies between standstill and `MAX_SPEED`.
    pub open spec fn wf(&self) -> bool {
        0 <= self.speed <= MAX_SPEED
    }

    /// The position lies within `WORLD` of the origin on both axes.
    pub open spec fn in_world(&self) -> bool {
        self.pos.in_world()
    }

    /// Steering towards `direction` keeps the angle representable.
    pub open spec fn can_turn(&self, direction: Direction) -> bool {
        i64::MIN <= spec_turned(self.angle as int, self.speed as int, direction) <= i64::MAX
    }

    /// This segment moved one frame along `heading`.
    pub open spec fn spec_translated(self, heading: Heading) -> Segment {
        Segment { pos: spec_ahead(self.pos, heading, self.speed as int), ..self }
    }

    /// This segment after a whole frame: moved along `heading`, wrapped onto the
    /// box from `min` to `max`, steered and throttled.
    pub open spec fn spec_updated(
        self,
        min: Point,
        max: Point,
        direction: Direction,
        accel: Speed,
        heading: Heading,
    ) -> Segment {
        Segment {
            pos: spec_wrap_point(spec_ahead(self.pos, heading, self.speed as int), min, max),
            angle: spec_turned(self.angle as int, self.speed as int, direction) as i64,
            speed: spec_accelerated(self.speed as int, accel) as i64,
        }
    }

    /// The segment with the given position, angle and speed.
    pub fn new(pos: Point, angle: i64, speed: i64) -> (s: Segment)
        ensures
            s.pos == pos,
            s.angle == angle,
            s.speed == speed,
    {
        Segment { pos, angle, speed }
    }

    /// Whether steering towards `direction` keeps the angle representable.
    pub fn check_turn(&self, direction: &Direction) -> (ok: bool)
        ensures
            ok == self.can_turn(*direction),
    {
        let turned: i128 = match direction {
            Direction::Left => self.angle as i128 - self.speed as i128,
            Direction::Right => self.angle as i128 + self.speed as i128,
            Direction::Straight => self.angle as i128,
        };
        -0x8000_0000_0000_0000 <= turned && turned <= 0x7fff_ffff_ffff_ffff
    }

    /// The angle that steering towards `direction` for one frame leads to.
    pub fn turned(&self, direction: &Direction) -> (angle: i64)
        requires
            self.can_turn(*direction),
        ensures
            angle == spec_turned(self.angle as int, self.speed as int, *direction),
    {
        match direction {
            Direction::Left => self.angle - self.speed,
            Direction::Right => self.angle + self.speed,
            Direction::Straight => self.angle,
        }
    }

    /// Moves the position one frame along `heading`, by the speed.
    pub fn translate(&mut self, heading: Heading)
        requires
            old(self).wf(),
            old(self).in_world(),
            heading.wf(),
        ensures
            final(self).pos.x == old(self).pos.x + heading.x * old(self).speed,
            final(self).pos.y == old(self).pos.y + heading.y * old(self).speed,
            final(self).angle == old(self).angle,
            final(self).speed == old(self).speed,
            *final(self) == old(self).spec_translated(heading),
    {
        proof {
            lemma_stride_bound(heading.x as int, self.speed as int, MAX_SPEED as int);
            lemma_stride_bound(heading.y as int, self.speed as int, MAX_SPEED as int);
        }
        self.pos.x = self.pos.x + heading.x * self.speed;
        self.pos.y = self.pos.y + heading.y * self.speed;
    }

    /// Applies one wrap-around correction per axis on the box from `min` to `max`.
    pub fn wrap(&mut self, min: Point, max: Point)
        requires
            i64::MIN <= spec_wrap(old(self).pos.x as int, min.x as int, max.x as int) <= i64::MAX,
            i64::MIN <= spec_wrap(old(self).pos.y as int, min.y as int, max.y as int) <= i64::MAX,
        ensures
            final(self).pos.x == spec_wrap(old(self).pos.x as int, min.x as int, max.x as int),
            final(self).pos.y == spec_wrap(old(self).pos.y as int, min.y as int, max.y as int),
            final(self).angle == old(self).angle,
            final(self).speed == old(self).speed,
            final(self).pos == spec_wrap_point(old(self).pos, min, max),
    {
        self.pos.x = wrap(self.pos.x, min.x, max.x);
        self.pos.y = wrap(self.pos.y, min.y, max.y);
    }

    /// Steers for one frame; going straight keeps the angle.
    pub fn turn(&mut self, direction: &Direction)
        requires
            old(self).can_turn(*direction),
        ensures
            final(self).angle == spec_turned(
                old(self).angle as int,
                old(self).speed as int,
                *direction,
            ),
            final(self).pos == old(self).pos,
            final(self).speed == old(self).speed,
    {
        self.angle = self.turned(direction);
    }

    /// Changes the speed by one step as the throttle says and clamps it, whatever it was.
    pub fn accelerate(&mut self, accel: &Speed)
        ensures
            final(self).speed == spec_accelerated(old(self).speed as int, *accel),
            0 <= final(self).speed <= MAX_SPEED,
            final(self).pos == old(self).pos,
            final(self).angle == old(self).angle,
    {
        let s: i64 = self.speed;
        let next: i64 = match accel {
            Speed::Accelerate => {
                if s >= MAX_SPEED - SPEED_STEP {
                    MAX_SPEED
                } else if s < -SPEED_STEP {
                    0
                } else {
                    s + SPEED_STEP
                }
            },
            Speed::Brake => {
                if s > MAX_SPEED + SPEED_STEP {
                    MAX_SPEED
                } else if s < SPEED_STEP {
                    0
                } else {
                    s - SPEED_STEP
                }
            },
            Speed::Coast => {
                if s > MAX_SPEED {
                    MAX_SPEED
                } else if s < 0 {
                    0
                } else {
                    s
                }
            },
        };
        self.speed = next;
    }

    /// One frame: move, wrap onto the box `screen`, steer, throttle, in that order.
    pub fn update(
        &mut self,
        screen: (Point, Point),
        direction: &Direction,
        accel: &Speed,
        heading: Heading,
    )
        requires
            old(self).wf(),
            old(self).in_world(),
            old(self).can_turn(*direction),
            heading.wf(),
            screen.0.in_world(),
            screen.1.in_world(),
        ensures
            *final(self) == old(self).spec_updated(
                screen.0,
                screen.1,
                *direction,
                *accel,
                heading,
            ),
            final(self).pos.x == spec_wrap(
                old(self).pos.x + heading.x * old(self).speed,
                screen.0.x as int,
                screen.1.x as int,
            ),
            final(self).pos.y == spec_wrap(
                old(self).pos.y + heading.y * old(self).speed,
                screen.0.y as int,
                screen.1.y as int,
            ),
            final(self).wf(),
    {
        proof {
            lemma_stride_bound(heading.x as int, self.speed as int, MAX_SPEED as int);
            lemma_stride_bound(heading.y as int, self.speed as int, MAX_SPEED as int);
        }
        self.translate(heading);
        self.wrap(screen.0, screen.1);
        self.turn(direction);
        self.accelerate(accel);
    }
}

/// For a valid segment in the world, a heading no longer than a full step and
/// a box in the world, no number of a frame leaves the range of its type: the
/// segment after the frame is given by the plain formulas.
pub proof fn lemma_updated_is_exact(
    s: Segment,
    min: Point,
    max: Point,
    direction: Direction,
    accel: Speed,
    heading: Heading,
)
    requires
        s.wf(),
        s.in_world(),
        s.can_turn(direction),
        heading.wf(),
        min.in_world(),
        max.in_world(),
    ensures
        s.spec_updated(min, max, direction, accel, heading).pos.x == spec_wrap(
            s.pos.x + heading.x * s.speed,
            min.x as int,
            max.x as int,
        ),
        s.spec_updated(min, max, direction, accel, heading).pos.y == spec_wrap(
            s.pos.y + heading.y * s.speed,
            min.y as int,
            max.y as int,
        ),
        s.spec_updated(min, max, direction, accel, heading).angle == spec_turned(
            s.angle as int,
            s.speed as int,
            direction,
        ),
        s.spec_updated(min, max, direction, accel, heading).speed == spec_accelerated(
            s.speed as int,
            accel,
        ),
{
    lemma_stride_bound(heading.x as int, s.speed as int, MAX_SPEED as int);
    lemma_stride_bound(heading.y as int, s.speed as int, MAX_SPEED as int);
}

/// On a box at least as wide as the fastest stride, a frame never carries a
/// coordinate beyond both where it was and the box.
pub proof fn lemma_update_stays_in_world(
    s: Segment,
    min: Point,
    max: Point,
    direction: Direction,
    accel: Speed,
    heading: Heading,
)
    requires
        s.wf(),
        s.in_world(),
        heading.wf(),
        min.in_world(),
        max.in_world(),
        max.x - min.x >= UNIT * MAX_SPEED,
        max.y - min.y >= UNIT * MAX_SPEED,
    ensures
        s.spec_updated(min, max, direction, accel, heading).in_world(),
{
    lemma_stride_bound(heading.x as int, s.speed as int, MAX_SPEED as int);
    lemma_stride_bound(heading.y as int, s.speed as int, MAX_SPEED as int);
}

} // verus!
