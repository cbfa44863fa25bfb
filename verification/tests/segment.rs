use snake_core::geometry::{Heading, Point};
use snake_core::segment::{Direction, Segment, Speed};

const PX: i64 = 1_000_000;

fn west() -> Heading {
    Heading::new(-1000, 0)
}

fn box_200() -> (Point, Point) {
    (Point::new(0, 0), Point::new(200 * PX, 200 * PX))
}

#[test]
fn advance_then_wrap_in_range() {
    let mut head = Segment::new(Point::new(100 * PX, 100 * PX), 0, 1000);
    head.translate(west());
    assert_eq!(head.pos, Point::new(99 * PX, 100 * PX));
    head.wrap(Point::new(0, 0), Point::new(200 * PX, 200 * PX));
    assert_eq!(head.pos, Point::new(99 * PX, 100 * PX));
    assert_eq!(head.angle, 0);
    assert_eq!(head.speed, 1000);
}

#[test]
fn translate_is_heading_times_speed() {
    let mut s = Segment::new(Point::new(10 * PX, 20 * PX), 123, 2500);
    s.translate(Heading::new(600, -800));
    assert_eq!(s.pos, Point::new(10 * PX + 1_500_000, 20 * PX - 2_000_000));
    assert_eq!(s.angle, 123);
    assert_eq!(s.speed, 2500);
}

#[test]
fn translate_at_standstill_stays() {
    let mut s = Segment::new(Point::new(-5, 7), 0, 0);
    s.translate(Heading::new(1000, 1000));
    assert_eq!(s.pos, Point::new(-5, 7));
}

#[test]
fn segment_wrap_corrects_each_axis_alone() {
    let mut s = Segment::new(Point::new(-PX, 201 * PX), 9, 1000);
    s.wrap(Point::new(0, 0), Point::new(200 * PX, 200 * PX));
    assert_eq!(s.pos, Point::new(199 * PX, PX));
    let mut t = Segment::new(Point::new(-PX, 50 * PX), 9, 1000);
    t.wrap(Point::new(0, 0), Point::new(200 * PX, 200 * PX));
    assert_eq!(t.pos, Point::new(199 * PX, 50 * PX));
}

#[test]
fn turn_scales_with_speed() {
    let mut s = Segment::new(Point::new(0, 0), 50, 2500);
    s.turn(&Direction::Left);
    assert_eq!(s.angle, 50 - 2500);
    s.turn(&Direction::Right);
    s.turn(&Direction::Right);
    assert_eq!(s.angle, 50 + 2500);
    s.turn(&Direction::Straight);
    assert_eq!(s.angle, 50 + 2500);
    assert_eq!(s.pos, Point::new(0, 0));
    assert_eq!(s.speed, 2500);
}

#[test]
fn turned_tells_the_angle_without_steering() {
    let s = Segment::new(Point::new(0, 0), 50, 2500);
    assert_eq!(s.turned(&Direction::Left), -2450);
    assert_eq!(s.turned(&Direction::Right), 2550);
    assert_eq!(s.turned(&Direction::Straight), 50);
    assert_eq!(s.angle, 50);
}

#[test]
fn turn_at_standstill_keeps_the_angle() {
    let mut s = Segment::new(Point::new(0, 0), -7, 0);
    s.turn(&Direction::Left);
    assert_eq!(s.angle, -7);
}

#[test]
fn check_turn_sees_the_end_of_the_range() {
    let top = Segment::new(Point::new(0, 0), i64::MAX - 999, 1000);
    assert!(!top.check_turn(&Direction::Right));
    assert!(top.check_turn(&Direction::Left));
    assert!(top.check_turn(&Direction::Straight));
    let bottom = Segment::new(Point::new(0, 0), i64::MIN + 999, 1000);
    assert!(!bottom.check_turn(&Direction::Left));
    assert!(bottom.check_turn(&Direction::Right));
    let edge = Segment::new(Point::new(0, 0), i64::MAX - 1000, 1000);
    assert!(edge.check_turn(&Direction::Right));
}

#[test]
fn accelerate_steps_by_a_tenth() {
    let mut s = Segment::new(Point::new(1, 2), 3, 1000);
    s.accelerate(&Speed::Accelerate);
    assert_eq!(s.speed, 1100);
    s.accelerate(&Speed::Brake);
    s.accelerate(&Speed::Brake);
    assert_eq!(s.speed, 900);
    s.accelerate(&Speed::Coast);
    assert_eq!(s.speed, 900);
    assert_eq!(s.pos, Point::new(1, 2));
    assert_eq!(s.angle, 3);
}

#[test]
fn speed_stays_clamped_over_any_sequence() {
    let mut s = Segment::new(Point::new(0, 0), 0, 1000);
    let modes = [Speed::Accelerate, Speed::Accelerate, Speed::Brake, Speed::Coast, Speed::Accelerate];
    for round in 0..400 {
        s.accelerate(&modes[round % modes.len()]);
        assert!(0 <= s.speed && s.speed <= 4000);
    }
    assert_eq!(s.speed, 4000);
    for _ in 0..60 {
        s.accelerate(&Speed::Brake);
        assert!(0 <= s.speed && s.speed <= 4000);
    }
    assert_eq!(s.speed, 0);
}

#[test]
fn accelerate_clamps_at_both_ends() {
    let mut fast = Segment::new(Point::new(0, 0), 0, 3950);
    fast.accelerate(&Speed::Accelerate);
    assert_eq!(fast.speed, 4000);
    fast.accelerate(&Speed::Accelerate);
    assert_eq!(fast.speed, 4000);
    let mut slow = Segment::new(Point::new(0, 0), 0, 50);
    slow.accelerate(&Speed::Brake);
    assert_eq!(slow.speed, 0);
    slow.accelerate(&Speed::Brake);
    assert_eq!(slow.speed, 0);
}

#[test]
fn accelerate_clamps_a_speed_out_of_range() {
    for mode in [Speed::Accelerate, Speed::Brake, Speed::Coast] {
        let mut high = Segment::new(Point::new(0, 0), 0, i64::MAX);
        high.accelerate(&mode);
        assert_eq!(high.speed, 4000);
        let mut low = Segment::new(Point::new(0, 0), 0, i64::MIN);
        low.accelerate(&mode);
        assert_eq!(low.speed, 0);
    }
    let mut just_over = Segment::new(Point::new(0, 0), 0, 4050);
    just_over.accelerate(&Speed::Brake);
    assert_eq!(just_over.speed, 3950);
    let mut just_under = Segment::new(Point::new(0, 0), 0, -50);
    just_under.accelerate(&Speed::Accelerate);
    assert_eq!(just_under.speed, 50);
}

#[test]
fn update_moves_wraps_turns_and_throttles() {
    let mut s = Segment::new(Point::new(100 * PX, 100 * PX), 0, 1000);
    s.update(box_200(), &Direction::Right, &Speed::Brake, west());
    assert_eq!(s.pos, Point::new(99 * PX, 100 * PX));
    assert_eq!(s.angle, 1000);
    assert_eq!(s.speed, 900);
}

#[test]
fn update_steers_by_the_speed_before_the_throttle() {
    let mut s = Segment::new(Point::new(100 * PX, 100 * PX), 0, 3900);
    s.update(box_200(), &Direction::Left, &Speed::Accelerate, west());
    assert_eq!(s.angle, -3900);
    assert_eq!(s.speed, 4000);
    assert_eq!(s.pos.x, 100 * PX - 3_900_000);
}

#[test]
fn update_wraps_across_the_left_edge() {
    let mut s = Segment::new(Point::new(PX / 2, 100 * PX), 0, 1000);
    s.update(box_200(), &Direction::Straight, &Speed::Coast, west());
    assert_eq!(s.pos, Point::new(200 * PX - PX / 2, 100 * PX));
}

#[test]
fn update_wraps_across_the_bottom_edge() {
    let mut s = Segment::new(Point::new(100 * PX, 199 * PX), 0, 4000);
    s.update(box_200(), &Direction::Straight, &Speed::Coast, Heading::new(0, 1000));
    assert_eq!(s.pos, Point::new(100 * PX, 3 * PX));
}

#[test]
fn update_keeps_a_segment_on_the_screen() {
    let mut s = Segment::new(Point::new(100 * PX, 100 * PX), 0, 4000);
    let headings = [Heading::new(-1000, 0), Heading::new(707, 707), Heading::new(0, -1000)];
    for frame in 0..2_000usize {
        s.update(box_200(), &Direction::Left, &Speed::Accelerate, headings[frame % 3]);
        assert!(0 <= s.pos.x && s.pos.x <= 200 * PX);
        assert!(0 <= s.pos.y && s.pos.y <= 200 * PX);
        assert!(0 <= s.speed && s.speed <= 4000);
    }
}
