//! The match: one ball, two paddles, the score and the rules between them.

use vstd::prelude::*;
use crate::game_objects::{Ball, Paddle};
use crate::input_system::{DeviceReading, PlayerInput};
use crate::shapes::Color;

pub mod difficulty;
pub mod game_loop;
pub mod laws;
pub mod main_menu;

verus! {

/// Who plays a match. `Unselected` stands for a mode not chosen yet; no
/// match can be made with it.
#[derive(Clone, Copy, Debug, PartialEq, Eq, Structural)]
pub enum GameMode {
    Unselected,
    Singleplayer,
    Multiplayer,
}

/// The state of a match.
#[derive(Clone, Copy, Debug)]
pub struct GameLoop {
    pub score: i32,
    pub hiscore: i32,
    pub score_color: Color,
    pub ball: Ball,
    /// The score to which a lost life sets the match back.
    pub checkpoint: i32,
    /// For how long the ball has been off the playfield.
    pub respawn_timer: i64,
    /// Whether the ball has come off the top or the bottom since it last
    /// came off a paddle.
    pub bounced_vertically: bool,
    pub left_paddle: Paddle,
    pub right_paddle: Paddle,
    /// The sampler of the first player, who steers the ball.
    pub ball_input: PlayerInput,
    /// The sampler of the second player, who steers the paddles.
    pub paddle_input: PlayerInput,
    pub is_active: bool,
    pub debug_mode: bool,
    pub game_mode: GameMode,
}

/// What the outside gives to one update: the time, the time since the
/// last update, what the two players' devices report, and whether the
/// debug view was toggled.
#[derive(Clone, Copy, Debug)]
pub struct Frame {
    pub now: i64,
    pub frame_time: i64,
    pub ball_reading: DeviceReading,
    pub paddle_reading: DeviceReading,
    pub toggle_debug: bool,
}

} // verus!
