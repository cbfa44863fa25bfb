use std::collections::VecDeque;

use snake_core::geometry::{Heading, Point, Screen};
use snake_core::segment::{Direction, Segment, Speed};
use snake_core::snake::Snake;

const PX: i64 = 1_000_000;

fn west() -> Heading {
    Heading::new(-1000, 0)
}

fn screen_200() -> Screen {
    Screen::new(200_000, 200_000)
}

fn total_speed(snake: &Snake) -> i64 {
    snake.body.iter().map(|s| s.speed).sum()
}

/// A snake with the given trail, its nose at the origin.
fn snake_with_trail(trail: Vec<Segment>, head_radius: u32) -> Snake {
    let current: i64 = trail.iter().map(|s| s.speed).sum();
    Snake {
        nose: Point::new(0, 0),
        head_radius,
        head: Segment::new(Point::new(0, 0), 0, 1000),
        body: VecDeque::from(trail),
        desired_length: 10_000_000,
        current_length: current,
    }
}

fn still_at(x: i64, y: i64) -> Segment {
    Segment::new(Point::new(x, y), 0, 0)
}

#[test]
fn new_snake_starts_mid_screen() {
    let snake = Snake::new(Screen::new(800_000, 600_000), 12_800);
    assert_eq!(snake.head, Segment::new(Point::new(400 * PX, 300 * PX), 0, 1000));
    assert_eq!(snake.nose, Point::new(0, 0));
    assert_eq!(snake.head_radius, 12_800);
    assert!(snake.body.is_empty());
    assert_eq!(snake.desired_length, 100_000);
    assert_eq!(snake.current_length, 0);
}

#[test]
fn update_lays_down_the_head_before_it_moves() {
    let mut snake = Snake::new(screen_200(), 12_800);
    let before = snake.head;
    snake.update(screen_200(), &Direction::Straight, &Speed::Coast, west(), west());
    assert_eq!(snake.body.len(), 1);
    assert_eq!(snake.body[0], before);
    assert_eq!(snake.head.pos, Point::new(99 * PX, 100 * PX));
    assert_eq!(snake.current_length, 1000);
    assert_eq!(snake.desired_length, 100_000);
}

#[test]
fn update_puts_the_nose_a_radius_ahead() {
    let mut snake = Snake::new(screen_200(), 12_800);
    snake.update(screen_200(), &Direction::Left, &Speed::Coast, west(), Heading::new(-600, 800));
    assert_eq!(snake.head.pos, Point::new(99 * PX, 100 * PX));
    assert_eq!(snake.nose, Point::new(99 * PX - 7_680_000, 100 * PX + 10_240_000));
    assert_eq!(snake.head.angle, -1000);
}

#[test]
fn trail_fills_up_to_the_budget() {
    let mut snake = Snake::new(screen_200(), 12_800);
    for frame in 1..=100usize {
        snake.update(screen_200(), &Direction::Straight, &Speed::Coast, west(), west());
        assert_eq!(snake.body.len(), frame);
    }
    assert_eq!(snake.current_length, 100_000);
    snake.update(screen_200(), &Direction::Straight, &Speed::Coast, west(), west());
    assert_eq!(snake.body.len(), 100);
    assert_eq!(snake.current_length, 100_000);
}

#[test]
fn current_length_never_exceeds_the_budget() {
    let mut snake = Snake::new(screen_200(), 12_800);
    let throttle = [Speed::Accelerate, Speed::Accelerate, Speed::Coast, Speed::Brake];
    for frame in 0..1_500usize {
        if frame == 700 {
            snake.increase_length(-60_000);
        }
        if frame == 900 {
            snake.increase_length(250_000);
        }
        let mode = if frame < 1_000 { throttle[frame % 4] } else { Speed::Brake };
        snake.update(screen_200(), &Direction::Right, &mode, west(), west());
        assert!(snake.current_length <= snake.desired_length);
        assert_eq!(snake.current_length, total_speed(&snake));
    }
}

#[test]
fn trail_evicts_from_the_oldest_end() {
    let mut snake = Snake::new(screen_200(), 12_800);
    let mut history: Vec<Segment> = Vec::new();
    let throttle = [Speed::Accelerate, Speed::Brake, Speed::Accelerate, Speed::Coast];
    for frame in 0..600usize {
        history.push(snake.head);
        snake.update(screen_200(), &Direction::Left, &throttle[frame % 4], west(), west());
        let kept: usize = snake.body.len();
        let newest: Vec<Segment> = history[history.len() - kept..].to_vec();
        let trail: Vec<Segment> = snake.body.iter().copied().collect();
        assert_eq!(trail, newest);
        if kept < history.len() {
            let one_more: i64 = history[history.len() - kept - 1..].iter().map(|s| s.speed).sum();
            assert!(one_more > snake.desired_length);
        }
    }
    assert!(snake.body.len() < history.len());
}

#[test]
fn no_budget_and_a_moving_head_leave_no_trail() {
    let mut snake = Snake::new(screen_200(), 12_800);
    snake.desired_length = 0;
    snake.update(screen_200(), &Direction::Straight, &Speed::Coast, west(), west());
    assert!(snake.body.is_empty());
    assert_eq!(snake.current_length, 0);
}

#[test]
fn no_budget_and_a_standing_head_leave_its_copy() {
    let mut snake = Snake::new(screen_200(), 12_800);
    snake.desired_length = 0;
    snake.head.speed = 0;
    let before = snake.head;
    snake.update(screen_200(), &Direction::Straight, &Speed::Coast, west(), west());
    assert_eq!(snake.body.len(), 1);
    assert_eq!(snake.body[0], before);
    assert_eq!(snake.current_length, 0);
}

#[test]
fn a_cut_budget_trims_the_trail_on_the_next_frame() {
    let mut snake = Snake::new(screen_200(), 12_800);
    for _ in 0..50 {
        snake.update(screen_200(), &Direction::Straight, &Speed::Coast, west(), west());
    }
    assert_eq!(snake.body.len(), 50);
    snake.increase_length(-90_000);
    assert_eq!(snake.desired_length, 10_000);
    assert_eq!(snake.body.len(), 50);
    let newest = snake.head;
    snake.update(screen_200(), &Direction::Straight, &Speed::Coast, west(), west());
    assert_eq!(snake.body.len(), 10);
    assert_eq!(snake.body[9], newest);
    assert_eq!(snake.current_length, 10_000);
}

#[test]
fn increase_length_adds_and_clamps() {
    let mut snake = Snake::new(screen_200(), 12_800);
    snake.increase_length(100_000);
    assert_eq!(snake.desired_length, 200_000);
    snake.increase_length(-50_000);
    assert_eq!(snake.desired_length, 150_000);
    snake.increase_length(9_900_000);
    assert_eq!(snake.desired_length, 10_000_000);
    snake.increase_length(i64::MAX);
    assert_eq!(snake.desired_length, 10_000_000);
    snake.increase_length(-10_000_001);
    assert_eq!(snake.desired_length, 0);
    snake.increase_length(i64::MIN);
    assert_eq!(snake.desired_length, 0);
    snake.increase_length(0);
    assert_eq!(snake.desired_length, 0);
}

#[test]
fn snake_collide_measures_from_the_nose() {
    let mut snake = Snake::new(screen_200(), 8_000);
    snake.nose = Point::new(50 * PX, 50 * PX);
    assert!(snake.collide(&Point::new(50 * PX, 50 * PX), 12_000));
    assert!(!snake.collide(&Point::new(71 * PX, 50 * PX), 12_000));
    assert!(!snake.collide(&snake.head.pos, 12_000));
}

#[test]
fn collide_self_is_false_below_101_segments() {
    for len in [0usize, 1, 50, 99, 100] {
        let snake = snake_with_trail(vec![still_at(0, 0); len], 10_000);
        assert!(!snake.collide_self(), "{len} segments");
    }
}

#[test]
fn collide_self_sees_the_101st_newest_segment() {
    let snake = snake_with_trail(vec![still_at(0, 0); 101], 10_000);
    assert!(snake.collide_self());
    let mut trail = vec![still_at(500 * PX, 500 * PX); 101];
    trail[0] = still_at(0, 0);
    assert!(snake_with_trail(trail, 10_000).collide_self());
}

#[test]
fn collide_self_skips_the_newest_hundred() {
    let mut trail = vec![still_at(500 * PX, 500 * PX); 150];
    for newest in trail.iter_mut().skip(50) {
        *newest = still_at(0, 0);
    }
    assert!(!snake_with_trail(trail.clone(), 10_000).collide_self());
    trail[49] = still_at(0, 0);
    assert!(snake_with_trail(trail, 10_000).collide_self());
}

#[test]
fn collide_self_takes_the_trail_at_half_the_radius() {
    // The head's ten pixels and the trail's five reach fifteen pixels.
    let mut trail = vec![still_at(500 * PX, 500 * PX); 120];
    trail[3] = still_at(15 * PX, 0);
    assert!(!snake_with_trail(trail.clone(), 10_000).collide_self());
    trail[3] = still_at(15 * PX - 1, 0);
    assert!(snake_with_trail(trail.clone(), 10_000).collide_self());
    // An odd radius is halved downwards: 10.001 and 5 pixels.
    trail[3] = still_at(15 * PX + 999, 0);
    assert!(snake_with_trail(trail.clone(), 10_001).collide_self());
    trail[3] = still_at(15 * PX + 1_000, 0);
    assert!(!snake_with_trail(trail, 10_001).collide_self());
}

#[test]
fn segments_copies_the_trail_oldest_first() {
    let trail: Vec<Segment> =
        (0..7).map(|i| Segment::new(Point::new(i, -i), i * 3, 100 * i)).collect();
    let snake = snake_with_trail(trail.clone(), 10_000);
    assert_eq!(snake.segments(), trail);
    assert!(snake_with_trail(Vec::new(), 10_000).segments().is_empty());
}

#[test]
fn check_update_wants_the_head_in_the_world() {
    let mut snake = Snake::new(screen_200(), 12_800);
    assert!(snake.check_update(&Direction::Left));
    snake.head.pos.x = 1_000_000_000_000_000;
    assert!(snake.check_update(&Direction::Left));
    snake.head.pos.x = 1_000_000_000_000_001;
    assert!(!snake.check_update(&Direction::Left));
    snake.head.pos = Point::new(0, -1_000_000_000_000_001);
    assert!(!snake.check_update(&Direction::Straight));
    snake.head.pos = Point::new(0, 0);
    snake.head.angle = i64::MIN;
    assert!(!snake.check_update(&Direction::Left));
    assert!(snake.check_update(&Direction::Right));
}

#[test]
fn a_snake_on_a_small_screen_stays_in_the_world() {
    let tiny = Screen::new(4_000, 4_000);
    let mut snake = Snake::new(tiny, 12_800);
    for _ in 0..3_000 {
        assert!(snake.check_update(&Direction::Straight));
        snake.update(tiny, &Direction::Straight, &Speed::Accelerate, west(), west());
        assert!(0 <= snake.head.pos.x && snake.head.pos.x <= 4 * PX);
    }
}
