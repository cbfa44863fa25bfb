//! The snake: a head, the trail it leaves behind, and a length budget.

use std::collections::VecDeque;
use vstd::prelude::*;
use crate::geometry::{collide, Heading, Point, Screen};
use crate::segment::{spec_ahead, lemma_stride_bound, lemma_update_stays_in_world, Direction, Segment, Speed};
use crate::trail::{
    all_in_world, all_wf, lemma_total_speed_drop_first, lemma_total_speed_push,
    lemma_trail_empties_on_no_budget,
    lemma_trail_kept_is_longest_fitting_suffix, total_speed, trail_kept,
};
use crate::units::{
    MAX_LENGTH, MAX_SPEED, SELF_COLLISION_SKIP, START_LENGTH, START_SPEED, WORLD,
};

verus! {

/// The length budget after a change by `amount`, kept between nothing and `MAX_LENGTH`.
pub open spec fn spec_budget(desired: int, amount: int) -> int {
    if desired + amount < 0 {
        0
    } else if desired + amount > MAX_LENGTH {
        MAX_LENGTH as int
    } else {
        desired + amount
    }
}

/// What a snake is, as a mathematical value: its body is the sequence of trail
/// segments, oldest first.
pub struct SnakeView {
    pub nose: Point,
    pub head_radius: u32,
    pub head: Segment,
    pub body: Seq<Segment>,
    pub desired_length: i64,
    pub current_length: i64,
}

impl SnakeView {
    /// The head and every trail segment have a valid speed, the trail lies in
    /// the world, the budget is in range, and the current length is the sum of
    /// the trail's speeds.
    pub open spec fn wf(self) -> bool {
        &&& self.head.wf()
        &&& all_wf(self.body)
        &&& all_in_world(self.body)
        &&& 0 <= self.desired_length <= MAX_LENGTH
        &&& self.current_length == total_speed(self.body)
        &&& self.current_length <= MAX_LENGTH
    }

    /// A fresh snake: the head mid-screen, facing along angle zero, at the
    /// starting speed, with no trail.
    pub open spec fn spec_start(screen: Screen, head_radius: u32) -> SnakeView {
        SnakeView {
            nose: Point { x: 0, y: 0 },
            head_radius,
            head: Segment { pos: screen.spec_centre(), angle: 0, speed: START_SPEED },
            body: Seq::empty(),
            desired_length: START_LENGTH,
            current_length: 0,
        }
    }

    /// The snake one frame later. The head as it was joins the trail, the trail
    /// is trimmed to the budget, the head moves along `heading`, and the nose
    /// is put one head radius in front of the moved head, along `next_heading`.
    pub open spec fn spec_update(
        self,
        screen: Screen,
        direction: Direction,
        accel: Speed,
        heading: Heading,
        next_heading: Heading,
    ) -> SnakeView {
        let body = trail_kept(self.body.push(self.head), self.desired_length as int);
        let head = self.head.spec_updated(
            Point { x: 0, y: 0 },
            screen.spec_far_corner(),
            direction,
            accel,
            heading,
        );
        SnakeView {
            nose: spec_ahead(head.pos, next_heading, self.head_radius as int),
            head,
            body,
            current_length: total_speed(body) as i64,
            ..self
        }
    }

    /// The nose touches a circle of radius `rb` around `b`.
    pub open spec fn spec_collide(self, b: Point, rb: u32) -> bool {
        crate::geometry::spec_collide(self.nose, self.head_radius as int, b, rb as int)
    }

    /// The nose touches a trail segment other than the `SELF_COLLISION_SKIP`
    /// newest, taken as a circle of half the head's radius.
    pub open spec fn spec_collide_self(self) -> bool {
        exists|i: int|
            0 <= i < self.body.len() - SELF_COLLISION_SKIP && crate::geometry::spec_collide(
                self.nose,
                self.head_radius as int,
                (#[trigger] self.body[i]).pos,
                (self.head_radius / 2) as int,
            )
    }

    /// The snake with its budget changed by `amount`.
    pub open spec fn spec_increase_length(self, amount: i64) -> SnakeView {
        SnakeView {
            desired_length: spec_budget(self.desired_length as int, amount as int) as i64,
            ..self
        }
    }
}

/// A snake whose trail has no more segments than the self-collision test
/// leaves aside does not touch itself, wherever its segments lie.
pub proof fn lemma_short_trail_never_hits(s: SnakeView)
    requires
        s.body.len() <= SELF_COLLISION_SKIP,
    ensures
        !s.spec_collide_self(),
{
}

/// The snake. `nose` is the point that collisions are tested at; `body` is the
/// trail, oldest segment first.
#[derive(Debug)]
pub struct Snake {
    pub nose: Point,
    pub head_radius: u32,
    pub head: Segment,
    pub body: VecDeque<Segment>,
    pub desired_length: i64,
    pub current_length: i64,
}

impl View for Snake {
    type V = SnakeView;

    open spec fn view(&self) -> SnakeView {
        SnakeView {
            nose: self.nose,
            head_radius: self.head_radius,
            head: self.head,
            body: self.body@,
            desired_length: self.desired_length,
            current_length: self.current_length,
        }
    }
}

impl Snake {
    /// See [`SnakeView::wf`].
    pub open spec fn wf(&self) -> bool {
        self@.wf()
    }

    /// A frame can be computed: the head lies in the world and steering
    /// towards `direction` keeps its angle representable.
    pub open spec fn can_update(&self, direction: Direction) -> bool {
        self.head.in_world() && self.head.can_turn(direction)
    }

    /// A fresh snake for a screen and a head radius in thousandths of a pixel.
    pub fn new(screen: Screen, head_radius: u32) -> (s: Snake)
        ensures
            s@ == SnakeView::spec_start(screen, head_radius),
            s.wf(),
            s.head.in_world(),
    {
        Snake {
            nose: Point::new(0, 0),
            head_radius,
            head: Segment::new(screen.centre(), 0, START_SPEED),
            body: VecDeque::new(),
            desired_length: START_LENGTH,
            current_length: 0,
        }
    }

    /// Whether [`Snake::update`] may be called with this steering.
    pub fn check_update(&self, direction: &Direction) -> (ok: bool)
        ensures
            ok == self.can_update(*direction),
    {
        let p: Point = self.head.pos;
        -WORLD <= p.x && p.x <= WORLD && -WORLD <= p.y && p.y <= WORLD && self.head.check_turn(
            direction,
        )
    }

    /// Circle test between the nose, with the head's radius, and `b` with radius `rb`.
    pub fn collide(&self, b: &Point, rb: u32) -> (hit: bool)
        ensures
            hit == self@.spec_collide(*b, rb),
    {
        collide(&self.nose, self.head_radius, b, rb)
    }

    /// Whether the nose touches the trail, the newest segments left aside.
    /// The scan goes from the newest segment it may look at to the oldest.
    pub fn collide_self(&self) -> (hit: bool)
        ensures
            hit == self@.spec_collide_self(),
            self.body@.len() <= SELF_COLLISION_SKIP ==> !hit,
    {
        let n: usize = self.body.len();
        if n <= SELF_COLLISION_SKIP {
            return false;
        }
        let mut i: usize = n - SELF_COLLISION_SKIP;
        while i > 0
            invariant
                n == self.body@.len(),
                n > SELF_COLLISION_SKIP,
                i <= n - SELF_COLLISION_SKIP,
                forall|j: int|
                    i <= j < n - SELF_COLLISION_SKIP ==> !crate::geometry::spec_collide(
                        self.nose,
                        self.head_radius as int,
                        (#[trigger] self.body@[j]).pos,
                        (self.head_radius / 2) as int,
                    ),
            decreases i,
        {
            i = i - 1;
            if collide(&self.nose, self.head_radius, &self.body[i].pos, self.head_radius / 2) {
                assert(crate::geometry::spec_collide(
                    self@.nose,
                    self@.head_radius as int,
                    self@.body[i as int].pos,
                    (self@.head_radius / 2) as int,
                ));
                return true;
            }
        }
        false
    }

    /// A copy of the trail, oldest segment first.
    pub fn segments(&self) -> (trail: Vec<Segment>)
        ensures
            trail@ == self.body@,
    {
        let n: usize = self.body.len();
        let mut trail: Vec<Segment> = Vec::new();
        let mut i: usize = 0;
        while i < n
            invariant
                n == self.body@.len(),
                i <= n,
                trail@ == self.body@.take(i as int),
            decreases n - i,
        {
            trail.push(self.body[i]);
            i = i + 1;
        }
        trail
    }

    /// One frame. The head as it is joins the trail; the trail loses oldest
    /// segments until it fits the budget; the head moves along `heading`, the
    /// heading of its angle, wraps, steers and throttles; the nose is put in
    /// front of the head along `next_heading`, the heading of its new angle.
    pub fn update(
        &mut self,
        screen: Screen,
        direction: &Direction,
        accelerate: &Speed,
        heading: Heading,
        next_heading: Heading,
    )
        requires
            old(self).wf(),
            old(self).can_update(*direction),
            heading.wf(),
            next_heading.wf(),
        ensures
            final(self)@ == old(self)@.spec_update(
                screen,
                *direction,
                *accelerate,
                heading,
                next_heading,
            ),
            final(self).wf(),
            final(self).current_length <= final(self).desired_length,
            final(self).body@.len() <= old(self).body@.len() + 1,
            final(self).body@ == old(self).body@.push(old(self).head).skip(
                old(self).body@.len() + 1 - final(self).body@.len(),
            ),
            forall|j: int|
                0 <= j < old(self).body@.len() + 1 - final(self).body@.len() ==> total_speed(
                    #[trigger] old(self).body@.push(old(self).head).skip(j),
                ) > old(self).desired_length,
            final(self).desired_length == 0 ==> (final(self).body@.len() == 0 || old(self).head.speed == 0),
            final(self).nose.x == final(self).head.pos.x + next_heading.x * final(self).head_radius,
            final(self).nose.y == final(self).head.pos.y + next_heading.y * final(self).head_radius,
            screen.holds_a_stride() ==> final(self).head.in_world(),
    {
        let ghost grown = self.body@.push(self.head);
        let ghost budget = self.desired_length as int;
        proof {
            lemma_total_speed_push(self.body@, self.head);
        }
        self.body.push_back(self.head);
        self.current_length = self.current_length + self.head.speed;
        while self.current_length > self.desired_length
            invariant
                self.head == old(self).head,
                self.nose == old(self).nose,
                self.head_radius == old(self).head_radius,
                self.desired_length == old(self).desired_length,
                budget == self.desired_length,
                0 <= budget <= MAX_LENGTH,
                self.head.wf(),
                all_wf(self.body@),
                all_in_world(self.body@),
                self.current_length == total_speed(self.body@),
                self.current_length <= MAX_LENGTH + MAX_SPEED,
                trail_kept(grown, budget) == trail_kept(self.body@, budget),
            decreases self.body@.len(),
        {
            let ghost before = self.body@;
            proof {
                if before.len() > 0 {
                    lemma_total_speed_drop_first(before);
                }
            }
            match self.body.pop_front() {
                Some(s) => {
                    self.current_length = self.current_length - s.speed;
                },
                None => {},
            }
        }
        proof {
            lemma_trail_kept_is_longest_fitting_suffix(grown, budget);
            if budget == 0 && self.head.speed > 0 {
                lemma_trail_empties_on_no_budget(grown);
            }
            lemma_stride_bound(heading.x as int, self.head.speed as int, MAX_SPEED as int);
            lemma_stride_bound(heading.y as int, self.head.speed as int, MAX_SPEED as int);
            if screen.holds_a_stride() {
                lemma_update_stays_in_world(
                    self.head,
                    Point { x: 0, y: 0 },
                    screen.spec_far_corner(),
                    *direction,
                    *accelerate,
                    heading,
                );
            }
        }
        let far: Point = screen.far_corner();
        self.head.update((Point::new(0, 0), far), direction, accelerate, heading);
        proof {
            lemma_stride_bound(next_heading.x as int, self.head_radius as int, u32::MAX as int);
            lemma_stride_bound(next_heading.y as int, self.head_radius as int, u32::MAX as int);
        }
        self.nose = Point::new(
            self.head.pos.x + next_heading.x * (self.head_radius as i64),
            self.head.pos.y + next_heading.y * (self.head_radius as i64),
        );
    }

    /// Changes the length budget by `amount`, within its limits.
    pub fn increase_length(&mut self, length: i64)
        ensures
            final(self)@ == old(self)@.spec_increase_length(length),
            final(self).desired_length == spec_budget(
                old(self).desired_length as int,
                length as int,
            ),
            old(self).wf() ==> final(self).wf(),
    {
        let raised: i128 = self.desired_length as i128 + length as i128;
        self.desired_length = if raised < 0 {
            0
        } else if raised > MAX_LENGTH as i128 {
            MAX_LENGTH
        } else {
            raised as i64
        };
    }
}

} // verus!
