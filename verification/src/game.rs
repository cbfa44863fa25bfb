//! The game: waiting for a start, playing, and the pause after the snake has
//! run into itself.

use vstd::prelude::*;
use crate::explosion::{burst_of, Explosion, ExplosionView};
use crate::fruit::Fruit;
use crate::geometry::{Heading, Screen};
use crate::segment::{Direction, Speed};
use crate::snake::{Snake, SnakeView};
use crate::units::{COOLDOWN_MS, FRUIT_GROWTH, POP_FRAMES};

verus! {

/// The three states of the game.
#[derive(Clone, Copy, PartialEq, Eq, Structural, Debug)]
pub enum PlayState {
    /// Waiting for the start key; the snake drifts.
    Space,
    /// The simulation is on.
    Play,
    /// The snake has run into itself and the burst plays.
    Dead,
}

/// The keys that the game tells apart.
#[derive(Clone, Copy, PartialEq, Eq, Structural, Debug)]
pub enum Key {
    Escape,
    Space,
    A,
    D,
    W,
    S,
    Other,
}

/// The state that a key press leaves the game in.
pub open spec fn spec_key_state(play_state: PlayState, key: Key) -> PlayState {
    if play_state == PlayState::Space && key == Key::Space {
        PlayState::Play
    } else {
        play_state
    }
}

/// The steering after a key press: while playing, `A` steers left, `D` steers
/// right, `W` and `S` leave the steering alone, and every other key
/// straightens it. Outside play no key steers.
pub open spec fn spec_key_direction(play_state: PlayState, direction: Direction, key: Key)
    -> Direction {
    if play_state == PlayState::Play {
        match key {
            Key::A => Direction::Left,
            Key::D => Direction::Right,
            Key::W | Key::S => direction,
            _ => Direction::Straight,
        }
    } else {
        direction
    }
}

/// The throttle after a key press: while playing, `W` accelerates, `S` brakes,
/// `A` and `D` leave the throttle alone, and every other key lets the snake
/// coast. Outside play no key touches the throttle.
pub open spec fn spec_key_throttle(play_state: PlayState, accelerate: Speed, key: Key) -> Speed {
    if play_state == PlayState::Play {
        match key {
            Key::W => Speed::Accelerate,
            Key::S => Speed::Brake,
            Key::A | Key::D => accelerate,
            _ => Speed::Coast,
        }
    } else {
        accelerate
    }
}

/// Everything the game owns. `dead_timer` is the time, in milliseconds, at
/// which the snake died, and `explosion` the burst it left; both are there
/// exactly while the game is dead.
#[derive(Debug)]
pub struct State {
    pub play_state: PlayState,
    pub fruit_radius: u32,
    pub snake: Snake,
    pub direction: Direction,
    pub accelerate: Speed,
    pub fruit: Fruit,
    pub dead_timer: Option<u64>,
    pub explosion: Option<Explosion>,
}

impl State {
    /// The snake is valid, and the time of death and the burst are there
    /// exactly while the game is dead.
    pub open spec fn wf(&self) -> bool {
        &&& self.snake.wf()
        &&& self.dead_timer is Some <==> self.play_state == PlayState::Dead
        &&& self.explosion is Some <==> self.play_state == PlayState::Dead
    }

    /// A frame can be computed: the snake can move with the current steering
    /// and the burst's clock, if there is one, can take one more step.
    pub open spec fn can_update(&self) -> bool {
        &&& self.snake.can_update(self.direction)
        &&& self.explosion matches Some(e) ==> e.step < u64::MAX
    }

    /// The snake after this frame's move.
    pub open spec fn spec_moved(&self, screen: Screen, heading: Heading, next_heading: Heading)
        -> SnakeView {
        self.snake@.spec_update(screen, self.direction, self.accelerate, heading, next_heading)
    }

    /// After this frame's move the nose touches the fruit.
    pub open spec fn spec_eats(&self, screen: Screen, heading: Heading, next_heading: Heading)
        -> bool {
        self.spec_moved(screen, heading, next_heading).spec_collide(
            self.fruit.pos,
            self.fruit_radius,
        )
    }

    /// The snake after this frame's move and meal: eating makes it longer only
    /// while playing.
    pub open spec fn spec_fed(&self, screen: Screen, heading: Heading, next_heading: Heading)
        -> SnakeView {
        let moved = self.spec_moved(screen, heading, next_heading);
        if self.spec_eats(screen, heading, next_heading) && self.play_state == PlayState::Play {
            moved.spec_increase_length(FRUIT_GROWTH)
        } else {
            moved
        }
    }

    /// The snake runs into itself in this frame, which only happens in play.
    pub open spec fn spec_dies(&self, screen: Screen, heading: Heading, next_heading: Heading)
        -> bool {
        self.play_state == PlayState::Play && self.spec_fed(
            screen,
            heading,
            next_heading,
        ).spec_collide_self()
    }

    /// The game has been dead for more than `COOLDOWN_MS` at the time `now`.
    pub open spec fn spec_revives(&self, now: u64) -> bool {
        &&& self.play_state == PlayState::Dead
        &&& self.dead_timer matches Some(since)
        &&& now - since > COOLDOWN_MS
    }

    /// A game that waits for its start, with a fresh snake mid-screen and a
    /// fruit somewhere on the screen. The radii are in thousandths of a pixel.
    pub fn new(screen: Screen, head_radius: u32, fruit_radius: u32) -> (s: State)
        ensures
            s.play_state == PlayState::Space,
            s.fruit_radius == fruit_radius,
            s.snake@ == SnakeView::spec_start(screen, head_radius),
            s.direction == Direction::Straight,
            s.accelerate == Speed::Coast,
            s.fruit.spawned_on(screen),
            s.fruit.on_screen(screen),
            s.dead_timer is None,
            s.explosion is None,
            s.wf(),
            s.can_update(),
    {
        State {
            play_state: PlayState::Space,
            fruit_radius,
            snake: Snake::new(screen, head_radius),
            direction: Direction::Straight,
            accelerate: Speed::Coast,
            fruit: Fruit::new(screen),
            dead_timer: None,
            explosion: None,
        }
    }

    /// Whether [`State::update`] may be called.
    pub fn check_update(&self) -> (ok: bool)
        ensures
            ok == self.can_update(),
    {
        let clock_ok: bool = match &self.explosion {
            Some(e) => e.step < u64::MAX,
            None => true,
        };
        clock_ok && self.snake.check_update(&self.direction)
    }

    /// The angle that the head will have after the next frame's steering. Its
    /// heading is the `next_heading` that [`State::update`] asks for.
    pub fn next_angle(&self) -> (angle: i64)
        requires
            self.can_update(),
        ensures
            angle == crate::segment::spec_turned(
                self.snake.head.angle as int,
                self.snake.head.speed as int,
                self.direction,
            ),
    {
        self.snake.head.turned(&self.direction)
    }

    /// One frame at the time `now`, in milliseconds, on a screen of the given
    /// size. `heading` is the heading of the head's angle, `next_heading` that
    /// of the angle the head will have after this frame's steering.
    ///
    /// The snake moves. If its nose touches the fruit, a new fruit appears at
    /// random and, in play, the snake's budget grows. If in play the nose then
    /// touches the trail, the game is dead from `now` on and the trail bursts
    /// at random. A game that has been dead for more than `COOLDOWN_MS` waits
    /// for a new start with a fresh snake. A burst's clock takes one step.
    pub fn update(&mut self, screen: Screen, now: u64, heading: Heading, next_heading: Heading)
        requires
            old(self).wf(),
            old(self).can_update(),
            heading.wf(),
            next_heading.wf(),
        ensures
            final(self).wf(),
            final(self).snake.current_length <= final(self).snake.desired_length,
            final(self).fruit_radius == old(self).fruit_radius,
            final(self).direction == old(self).direction,
            final(self).accelerate == old(self).accelerate,
            final(self).play_state == (if old(self).spec_dies(screen, heading, next_heading) {
                PlayState::Dead
            } else if old(self).spec_revives(now) {
                PlayState::Space
            } else {
                old(self).play_state
            }),
            final(self).dead_timer == (if old(self).spec_dies(screen, heading, next_heading) {
                Some(now)
            } else if old(self).spec_revives(now) {
                None
            } else {
                old(self).dead_timer
            }),
            final(self).snake@ == (if old(self).spec_revives(now) {
                SnakeView::spec_start(screen, old(self).snake.head_radius)
            } else {
                old(self).spec_fed(screen, heading, next_heading)
            }),
            old(self).spec_eats(screen, heading, next_heading) ==> final(self).fruit.spawned_on(screen) && final(self).fruit.on_screen(screen),
            !old(self).spec_eats(screen, heading, next_heading) ==> final(self).fruit == old(self).fruit,
            old(self).spec_dies(screen, heading, next_heading) ==> (final(self).explosion matches Some(e) && burst_of(e.pops@, old(self).spec_fed(screen, heading, next_heading).body)
                && e.step == 1 && e.frame_count == POP_FRAMES),
            old(self).spec_revives(now) ==> final(self).explosion is None,
            !old(self).spec_dies(screen, heading, next_heading) && !old(self).spec_revives(now)
                ==> (match old(self).explosion {
                Some(before) => final(self).explosion matches Some(e) && e@ == (ExplosionView {
                    step: (before.step + 1) as u64,
                    ..before@
                }),
                None => final(self).explosion is None,
            }),
            screen.holds_a_stride() ==> final(self).snake.head.in_world(),
    {
        self.snake.update(screen, &self.direction, &self.accelerate, heading, next_heading);

        if self.snake.collide(&self.fruit.pos, self.fruit_radius) {
            self.fruit = Fruit::new(screen);
            if self.play_state == PlayState::Play {
                self.snake.increase_length(FRUIT_GROWTH);
            }
        }
        if self.play_state == PlayState::Play && self.snake.collide_self() {
            self.play_state = PlayState::Dead;
            self.dead_timer = Some(now);
            let segments: Vec<crate::segment::Segment> = self.snake.segments();
            self.explosion = Some(Explosion::new(&segments, POP_FRAMES));
        } else if self.play_state == PlayState::Dead {
            let expired: bool = match self.dead_timer {
                Some(since) => now > since && now - since > COOLDOWN_MS,
                None => false,
            };
            if expired {
                self.play_state = PlayState::Space;
                self.dead_timer = None;
                self.explosion = None;
                self.snake = Snake::new(screen, self.snake.head_radius);
            }
        }
        match &mut self.explosion {
            Some(explosion) => {
                explosion.update();
            },
            None => {},
        }
    }

    /// A key goes down. `Escape` asks to quit, which the result reports. The
    /// start key begins play from the waiting state; in play the keys steer
    /// and throttle.
    pub fn key_down_event(&mut self, keycode: Key) -> (quit: bool)
        ensures
            quit == (keycode == Key::Escape),
            final(self).play_state == spec_key_state(old(self).play_state, keycode),
            final(self).direction == spec_key_direction(
                old(self).play_state,
                old(self).direction,
                keycode,
            ),
            final(self).accelerate == spec_key_throttle(
                old(self).play_state,
                old(self).accelerate,
                keycode,
            ),
            final(self).fruit_radius == old(self).fruit_radius,
            final(self).snake == old(self).snake,
            final(self).fruit == old(self).fruit,
            final(self).dead_timer == old(self).dead_timer,
            final(self).explosion == old(self).explosion,
            old(self).wf() ==> final(self).wf(),
    {
        match self.play_state {
            PlayState::Space => {
                if keycode == Key::Space {
                    self.play_state = PlayState::Play;
                }
            },
            PlayState::Play => {
                match keycode {
                    Key::A => {
                        self.direction = Direction::Left;
                    },
                    Key::D => {
                        self.direction = Direction::Right;
                    },
                    Key::W => {
                        self.accelerate = Speed::Accelerate;
                    },
                    Key::S => {
                        self.accelerate = Speed::Brake;
                    },
                    _ => {
                        self.direction = Direction::Straight;
                        self.accelerate = Speed::Coast;
                    },
                }
            },
            PlayState::Dead => {},
        }
        keycode == Key::Escape
    }

    /// A key goes up: the snake goes straight and coasts, whichever key it was.
    pub fn key_up_event(&mut self)
        ensures
            final(self).direction == Direction::Straight,
            final(self).accelerate == Speed::Coast,
            final(self).play_state == old(self).play_state,
            final(self).fruit_radius == old(self).fruit_radius,
            final(self).snake == old(self).snake,
            final(self).fruit == old(self).fruit,
            final(self).dead_timer == old(self).dead_timer,
            final(self).explosion == old(self).explosion,
            old(self).wf() ==> final(self).wf(),
    {
        self.direction = Direction::Straight;
        self.accelerate = Speed::Coast;
    }

    /// The snake is drawn in every state but the dead one.
    pub fn snake_visible(&self) -> (visible: bool)
        ensures
            visible == (self.play_state != PlayState::Dead),
    {
        self.play_state != PlayState::Dead
    }

    /// The invitation to start is drawn only while the game waits.
    pub fn waiting_visible(&self) -> (visible: bool)
        ensures
            visible == (self.play_state == PlayState::Space),
    {
        self.play_state == PlayState::Space
    }
}

} // verus!
