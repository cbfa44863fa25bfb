//! Deterministic core of a snake arcade game on a wrap-around screen.
//!
//! A snake steers, speeds up and slows down, leaves a trail that is trimmed to
//! a length budget, grows when its nose touches the fruit, and bursts into
//! particles when its nose touches its own trail. This crate holds the rules;
//! drawing, input and the clock belong to the program around it, which calls
//! [`game::State::update`] once per frame.
//!
//! All quantities are integers in fixed point, chosen so that every formula
//! is exact:
//!
//! * speeds, radii, trail lengths and screen sizes are in thousandths of a
//!   pixel ([`units::UNIT`] per pixel);
//! * the components of a heading are in thousandths of a full step;
//! * positions are in millionths of a pixel ([`units::FINE`] per pixel), so
//!   that a position plus a heading times a length needs no rounding;
//! * angles are in hundred-thousandths of a radian, so that a frame of
//!   steering changes the angle by exactly the speed;
//! * times are in milliseconds.
//!
//! The heading that belongs to an angle is the unit vector that points along
//! the negative x axis, turned by the angle. Turning a vector takes
//! trigonometry, so the caller computes headings and hands them in.

pub mod units;
pub mod geometry;
pub mod segment;
pub mod trail;
pub mod snake;
mod random;
pub mod fruit;
pub mod explosion;
pub mod game;

pub use explosion::{Explosion, Pop, PopDraw};
pub use fruit::Fruit;
pub use game::{Key, PlayState, State};
pub use geometry::{collide, wrap, Heading, Point, Screen};
pub use segment::{Direction, Segment, Speed};
pub use snake::Snake;
