//! A two-dimensional ball-and-paddle game, stepped frame by frame.
//!
//! One player steers the ball, the other, or the game itself, the two
//! paddles. Each bounce off a paddle scores; a ball that leaves the
//! playfield to the left or to the right costs a life.
//!
//! All numbers of the simulation are fixed-point scalars (see [`fixed`]),
//! so that every step is exact and the same on every machine. The library
//! does no input or output: the caller reads the devices and the clock,
//! hands their values to [`game_scenes::GameLoop::update`], draws what the
//! match then holds, and keeps the high score that the update returns.
//!
//! - [`fixed`]: the scalars and their arithmetic.
//! - [`shapes`]: points, rectangles, colours and the tests of contact.
//! - [`input_system`]: from the buttons and the stick of a device to a
//!   cleaned and smoothed direction.
//! - [`game_objects`]: the ball and the paddles.
//! - [`game_scenes`]: the match, the difficulty ramp and the menu.
//! - [`ui_system`]: the texts, buttons and fields of the menu.
//! - [`networking`]: the frame of a message between two peers.
//! - [`utils`]: the size of the playfield and small helpers.

pub mod fixed;
pub mod shapes;
pub mod input_system;
pub mod game_objects;
pub mod game_scenes;
pub mod utils;
pub mod networking;
pub mod ui_system;
