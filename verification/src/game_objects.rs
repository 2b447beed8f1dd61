//! The ball and the paddles.

use vstd::prelude::*;
use crate::input_system::InputData;
use crate::shapes::{Color, Rectangle, Vector2};

pub mod ball;
pub mod paddle;

verus! {

/// The gap between a paddle and its edge of the playfield.
pub const PADDLE_PADDING: i64 = 20_000_000;

pub const MAX_PLAYER_SPEED: i64 = 500_000_000;

/// The share of the playfield's width within which a paddle sees the ball,
/// at the start of a match.
pub const INITIAL_PADDLE_RANGE: i64 = 500_000;

pub const INITIAL_PADDLE_SPEED: i64 = 500_000_000;

pub const PADDLE_WIDTH: i64 = 11_000_000;

pub const PADDLE_HEIGHT: i64 = 65_000_000;

/// The ball: steered by the first player on top of the heading that it
/// carries from bounce to bounce.
#[derive(Clone, Copy, Debug)]
pub struct Ball {
    pub position: Vector2,
    pub velocity: Vector2,
    /// The colour for one, two and three lives.
    pub colors: [Color; 3],
    pub color: Color,
    pub radius: i64,
    pub speed: i64,
    pub lives: i32,
    pub is_active: bool,
    /// The heading that the ball keeps between bounces.
    pub prone_dir: Vector2,
}

/// A paddle: it moves up and down at a fixed distance from its edge,
/// after the ball by itself or as the second player steers it.
#[derive(Clone, Copy, Debug)]
pub struct Paddle {
    pub position: Vector2,
    pub velocity: i64,
    pub speed: i64,
    pub color: Color,
    /// The colour with the ball far off, and with the ball near.
    pub colors: [Color; 2],
    pub size: Vector2,
    /// The share of the playfield's width within which the paddle sees the
    /// ball.
    pub view_range: i64,
    pub hitbox: Rectangle,
    /// Where the ball is.
    pub player_pos: Vector2,
    /// Whether the next return is this paddle's.
    pub is_active: bool,
    pub player_controlled: bool,
}

/// What moves on the playfield frame by frame.
pub trait GameObject: Sized {
    /// Whether the object can be updated.
    spec fn ready(&self) -> bool;

    /// The object after a frame of `frame_time` under a sample.
    spec fn after_frame(&self, frame_time: i64, input: InputData) -> Self;

    /// Moves the object by one frame.
    fn update(&mut self, frame_time: i64, input: &InputData)
        requires
            old(self).ready(),
        ensures
            *final(self) == old(self).after_frame(frame_time, *input),
    ;
}

impl GameObject for Ball {
    open spec fn ready(&self) -> bool {
        self.wf()
    }

    open spec fn after_frame(&self, frame_time: i64, input: InputData) -> Ball {
        self.updated(frame_time, input)
    }

    fn update(&mut self, frame_time: i64, input: &InputData) {
        Ball::update(self, frame_time, input);
    }
}

impl GameObject for Paddle {
    open spec fn ready(&self) -> bool {
        self.wf()
    }

    open spec fn after_frame(&self, frame_time: i64, input: InputData) -> Paddle {
        self.updated(frame_time, input)
    }

    fn update(&mut self, frame_time: i64, input: &InputData) {
        Paddle::update(self, frame_time, input);
    }
}

} // verus!
