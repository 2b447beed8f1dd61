use vstd::prelude::*;
use rand::Rng;
use crate::fixed::{
    clamped, difference_of, fx_abs, fx_add, fx_clamp, fx_div, fx_length, fx_mul, fx_neg,
    fx_signed_like, fx_steepen, fx_sub, length_of, magnitude_of, negation_of, product_of,
    quotient_of, signed_like, steepened, sum_of, ONE,
};
use crate::game_objects::{
    Ball, Paddle, INITIAL_PADDLE_RANGE, INITIAL_PADDLE_SPEED, PADDLE_HEIGHT, PADDLE_PADDING,
    PADDLE_WIDTH,
};
use crate::game_scenes::difficulty::{difficulty_for, ramp, ramp_threshold, Difficulty};
use crate::game_scenes::laws::lemma_step_keeps_inv;
use crate::game_scenes::{Frame, GameLoop, GameMode};
use crate::input_system::{InputData, InputDevice, PlayerInput};
use crate::shapes::{Color, Rectangle, Vector2};
use crate::utils::{SCREEN_CENTER_X, SCREEN_CENTER_Y, SCREEN_HEIGHT, SCREEN_WIDTH};

verus! {

/// The radius of the ball with all three lives.
pub const BALL_RADIUS: i64 = 10_800_000;

/// By how much the ball grows when the last life is lost.
pub const RADIUS_GROWTH: i64 = 1_600_000;

/// By how much the ball shrinks when a life is lost that is not the last.
pub const RADIUS_SHRINK: i64 = 800_000;

/// For how long the ball stays off the playfield before it comes back.
pub const RESPAWN_DELAY: i64 = 1_000_000;

/// A ball this near to the top or the bottom comes off a paddle at a wider
/// angle.
pub const EDGE_MARGIN: i64 = 73_000_000;

/// How much wider the angle is near the top or the bottom.
pub const EDGE_WIDENING: i64 = 1_500_000;

/// By how much the ball's radius is enlarged for the test against the
/// paddles.
pub const HIT_TOLERANCE: i64 = 5_000_000;

/// The least angle at which the ball comes off a paddle.
pub const ANGLE_MIN: i64 = 450_000;

/// The bound below which the angle off a paddle stays.
pub const ANGLE_MAX: i64 = 1_000_000;

/// The least angle at which the ball comes off the top or the bottom.
pub const REBOUND_MIN: i64 = 400_000;

/// The greatest angle at which the ball comes off the top or the bottom.
pub const REBOUND_MAX: i64 = 550_000;

/// How fast the first player's direction follows the device.
pub const BALL_SNAPNESS: i64 = 3_000_000;

/// How fast the second player's direction follows the device.
pub const PADDLE_SNAPNESS: i64 = 7_000_000;

/// The height at which the paddles start and to which they come back.
pub const PADDLE_HOME: i64 = 207_500_000;

/// Where the right paddle stands across the playfield.
pub const RIGHT_PADDLE_X: i64 = 609_000_000;

/// The radius of a ball with the given number of lives, in a match that
/// began with the radius `BALL_RADIUS`.
pub open spec fn radius_for(lives: i32) -> int {
    BALL_RADIUS - RADIUS_SHRINK * (3 - lives)
}

/// Draws an angle with `rand::thread_rng().gen_range(low..high)`. The
/// generator is seeded by the system, so that of the angle only its range
/// is known: it is at least `low` and below `high`. `gen_range` panics on
/// an empty range, which the precondition excludes.
#[verifier::external_body]
fn random_angle(low: i64, high: i64) -> (angle: i64)
    requires
        low < high,
    ensures
        low <= angle < high,
{
    rand::thread_rng().gen_range(low..high)
}

impl Paddle {
    /// Whether the paddle is as at the start of a match, `x` from the left
    /// edge: at its home height with its hitbox, at rest, with its colours,
    /// the speed and the view of the start, and the ball not yet seen.
    pub open spec fn is_start(self, x: i64, steered: bool, to_return: bool) -> bool {
        &&& self.colors@ == seq![
            Color { r: 255, g: 105, b: 97, a: 130 },
            Color { r: 255, g: 40, b: 0, a: 130 },
        ]
        &&& self == (Paddle {
            position: Vector2 { x, y: PADDLE_HOME },
            velocity: 0,
            speed: INITIAL_PADDLE_SPEED,
            color: Color { r: 255, g: 105, b: 97, a: 130 },
            colors: self.colors,
            size: Vector2 { x: PADDLE_WIDTH, y: PADDLE_HEIGHT },
            view_range: INITIAL_PADDLE_RANGE,
            hitbox: Rectangle { x, y: PADDLE_HOME, width: PADDLE_WIDTH, height: PADDLE_HEIGHT },
            player_pos: Vector2::zero(),
            is_active: to_return,
            player_controlled: steered,
        })
    }
}

impl GameLoop {
    /// Whether the ball is on the playfield, from the left edge to the
    /// right edge.
    pub open spec fn in_bounds(self) -> bool {
        0 <= self.ball.position.x <= SCREEN_WIDTH
    }

    /// Whether exactly one paddle is to make the next return.
    pub open spec fn one_paddle_active(self) -> bool {
        self.left_paddle.is_active != self.right_paddle.is_active
    }

    /// The least and the greatest place across the playfield at which the
    /// ball lies clear of both paddles.
    pub open spec fn clear_range(self) -> (i64, i64) {
        (
            sum_of(sum_of(self.left_paddle.position.x, PADDLE_WIDTH), self.ball.radius),
            difference_of(
                difference_of(self.right_paddle.position.x, PADDLE_WIDTH),
                self.ball.radius,
            ),
        )
    }

    /// Whether the match can be updated. While the ball is off the
    /// playfield it always can. While the ball is on it: the ball and the
    /// paddles can be updated, there is room for the ball between the
    /// paddles, and the score can still be counted up.
    pub open spec fn can_step(self) -> bool {
        self.in_bounds() ==> {
            &&& self.ball.wf()
            &&& self.left_paddle.wf()
            &&& self.right_paddle.wf()
            &&& self.clear_range().0 <= self.clear_range().1
            &&& self.score < i32::MAX
        }
    }

    /// What holds of a match from its start on, whatever is played.
    ///
    /// The ball has one to three lives and the radius that goes with them,
    /// and lies between the top and the bottom. It has no heading only
    /// while it waits in the middle to be served; else its heading goes
    /// across by 1, to the left or to the right. The checkpoint is the
    /// greatest threshold of the ramp not above the score, and the speeds,
    /// the view range and the colour of the score are those of the ramp at
    /// that score. Exactly one paddle is to make the next return. Each
    /// paddle stands at its place across the playfield, on the playfield,
    /// with its hitbox of the size of a paddle where it is. The respawn timer is below the delay.
    pub open spec fn inv(self) -> bool {
        &&& 1 <= self.ball.lives <= 3
        &&& self.ball.radius == radius_for(self.ball.lives)
        &&& self.ball.radius <= self.ball.position.y <= SCREEN_HEIGHT - self.ball.radius
        &&& self.ball.prone_dir == Vector2::zero() ==> self.ball.position == (Vector2 {
            x: SCREEN_CENTER_X,
            y: SCREEN_CENTER_Y,
        })
        &&& self.ball.prone_dir != Vector2::zero() ==> self.ball.prone_dir.x == ONE
            || self.ball.prone_dir.x == -ONE
        &&& 0 <= self.score
        &&& self.checkpoint == ramp_threshold(self.score)
        &&& self.score_color == ramp(self.score).score_color
        &&& self.ball.speed == ramp(self.score).ball_speed
        &&& self.left_paddle.speed == ramp(self.score).paddle_speed
        &&& self.right_paddle.speed == ramp(self.score).paddle_speed
        &&& self.left_paddle.view_range == ramp(self.score).paddle_view_range
        &&& self.right_paddle.view_range == ramp(self.score).paddle_view_range
        &&& self.one_paddle_active()
        &&& self.left_paddle.position.x == PADDLE_PADDING
        &&& self.right_paddle.position.x == RIGHT_PADDLE_X
        &&& self.left_paddle.hitbox_in_place()
        &&& self.right_paddle.hitbox_in_place()
        &&& self.left_paddle.hitbox.width == PADDLE_WIDTH
        &&& self.right_paddle.hitbox.width == PADDLE_WIDTH
        &&& self.left_paddle.hitbox.height == PADDLE_HEIGHT
        &&& self.right_paddle.hitbox.height == PADDLE_HEIGHT
        &&& 0 <= self.left_paddle.position.y <= SCREEN_HEIGHT
        &&& 0 <= self.right_paddle.position.y <= SCREEN_HEIGHT
        &&& 0 <= self.respawn_timer < RESPAWN_DELAY
    }

    /// Whether the match is as a new one is: the ball in the middle with
    /// three lives, its colours and no heading; the paddles at their home
    /// height with their colours, the next return the left paddle's; the
    /// score 0 with the settings of the ramp at 0; the first player on the
    /// first device with priority resolution, the second on the second with
    /// neutral resolution. The paddles are steered by the second player in
    /// a match for two, and move by themselves in a match for one.
    pub open spec fn is_start(
        self,
        selected_mode: GameMode,
        selected_devices: (InputDevice, InputDevice),
        hiscore: i32,
    ) -> bool {
        let steered = selected_mode == GameMode::Multiplayer;
        &&& self.score == 0
        &&& self.hiscore == hiscore
        &&& self.score_color == Color::dark_green()
        &&& self.checkpoint == 0
        &&& self.respawn_timer == 0
        &&& !self.bounced_vertically
        &&& self.is_active
        &&& !self.debug_mode
        &&& self.game_mode == selected_mode
        &&& self.ball_input == (PlayerInput {
            id: 0,
            input_snapness: BALL_SNAPNESS,
            last_data: InputData::blank(0),
            first_input_socd: true,
            device: selected_devices.0,
        })
        &&& self.paddle_input == (PlayerInput {
            id: 1,
            input_snapness: PADDLE_SNAPNESS,
            last_data: InputData::blank(0),
            first_input_socd: false,
            device: selected_devices.1,
        })
        &&& self.ball.colors@ == seq![
            Color { r: 188, g: 212, b: 230, a: 150 },
            Color { r: 137, g: 207, b: 240, a: 150 },
            Color { r: 10, g: 255, b: 255, a: 150 },
        ]
        &&& self.ball == (Ball {
            position: Vector2 { x: SCREEN_CENTER_X, y: SCREEN_CENTER_Y },
            velocity: Vector2::zero(),
            colors: self.ball.colors,
            color: Color { r: 10, g: 255, b: 255, a: 150 },
            radius: BALL_RADIUS,
            speed: 315_000_000,
            lives: 3,
            is_active: true,
            prone_dir: Vector2::zero(),
        })
        &&& self.left_paddle.is_start(PADDLE_PADDING, steered, true)
        &&& self.right_paddle.is_start(RIGHT_PADDLE_X, steered, false)
    }

    /// A new match, with the high score that was kept.
    pub fn new(
        selected_mode: GameMode,
        selected_devices: (InputDevice, InputDevice),
        hiscore: i32,
    ) -> (game: GameLoop)
        requires
            selected_mode != GameMode::Unselected,
        ensures
            game.is_start(selected_mode, selected_devices, hiscore),
            game.inv(),
            game.in_bounds(),
    {
        let steered: bool = selected_mode == GameMode::Multiplayer;
        let paddle_colors: [Color; 2] = [Color::new(255, 105, 97, 130), Color::new(255, 40, 0, 130)];
        GameLoop {
            score: 0,
            checkpoint: 0,
            respawn_timer: 0,
            hiscore,
            game_mode: selected_mode,
            score_color: Color::dark_green(),
            is_active: true,
            debug_mode: false,
            bounced_vertically: false,
            ball_input: PlayerInput::new(0, selected_devices.0, BALL_SNAPNESS, true),
            paddle_input: PlayerInput::new(1, selected_devices.1, PADDLE_SNAPNESS, false),
            ball: Ball::new(
                Vector2::new(SCREEN_CENTER_X, SCREEN_CENTER_Y),
                [
                    Color::new(188, 212, 230, 150),
                    Color::new(137, 207, 240, 150),
                    Color::new(10, 255, 255, 150),
                ],
                BALL_RADIUS,
                315_000_000,
            ),
            left_paddle: Paddle::new(
                Vector2 { x: PADDLE_PADDING, y: PADDLE_HOME },
                paddle_colors,
                Vector2 { x: PADDLE_WIDTH, y: PADDLE_HEIGHT },
                INITIAL_PADDLE_SPEED,
                INITIAL_PADDLE_RANGE,
                steered,
                true,
            ),
            right_paddle: Paddle::new(
                Vector2 { x: RIGHT_PADDLE_X, y: PADDLE_HOME },
                paddle_colors,
                Vector2 { x: PADDLE_WIDTH, y: PADDLE_HEIGHT },
                INITIAL_PADDLE_SPEED,
                INITIAL_PADDLE_RANGE,
                steered,
                false,
            ),
        }
    }

    pub fn is_active(&self) -> (active: bool)
        ensures
            active == self.is_active,
    {
        self.is_active
    }

    /// The match with the settings of the ramp at its score.
    pub open spec fn ramped(self) -> GameLoop {
        let settings = ramp(self.score);
        GameLoop {
            checkpoint: settings.checkpoint,
            score_color: settings.score_color,
            ball: Ball { speed: settings.ball_speed, ..self.ball },
            left_paddle: Paddle {
                speed: settings.paddle_speed,
                view_range: settings.paddle_view_range,
                ..self.left_paddle
            },
            right_paddle: Paddle {
                speed: settings.paddle_speed,
                view_range: settings.paddle_view_range,
                ..self.right_paddle
            },
            ..self
        }
    }

    /// Sets the checkpoint to the greatest threshold not above the score,
    /// and the speeds, the view range and the colour of the score to the
    /// settings at that threshold.
    pub fn update_difficulty(&mut self)
        ensures
            *final(self) == old(self).ramped(),
    {
        let settings: Difficulty = difficulty_for(self.score);
        self.checkpoint = settings.checkpoint;
        self.score_color = settings.score_color;
        self.ball.speed = settings.ball_speed;
        self.left_paddle.speed = settings.paddle_speed;
        self.right_paddle.speed = settings.paddle_speed;
        self.left_paddle.view_range = settings.paddle_view_range;
        self.right_paddle.view_range = settings.paddle_view_range;
    }

    /// The match after the ball has spent `frame_time` more off the
    /// playfield.
    ///
    /// Until the delay is over only the timer moves. Then the ball comes
    /// back to the middle without a heading, the first player's smoothed
    /// direction is cleared, the paddles go home and the next return is the
    /// left paddle's; a score above the high score becomes the high score;
    /// the last life lost gives three new lives, a larger ball and the
    /// checkpoint 0, another life lost a smaller ball; the score falls back
    /// to the checkpoint, and the ramp is applied at that score.
    pub open spec fn respawned(self, frame_time: i64) -> GameLoop {
        let timer = sum_of(self.respawn_timer, frame_time);
        if timer < RESPAWN_DELAY {
            GameLoop { respawn_timer: timer, ..self }
        } else {
            let last_life = self.ball.lives <= 1;
            let checkpoint = if last_life {
                0
            } else {
                self.checkpoint
            };
            GameLoop {
                ball: Ball {
                    position: Vector2 { x: SCREEN_CENTER_X, y: SCREEN_CENTER_Y },
                    prone_dir: Vector2::zero(),
                    lives: if last_life {
                        3
                    } else {
                        (self.ball.lives - 1) as i32
                    },
                    radius: if last_life {
                        sum_of(self.ball.radius, RADIUS_GROWTH)
                    } else {
                        difference_of(self.ball.radius, RADIUS_SHRINK)
                    },
                    is_active: true,
                    ..self.ball
                },
                left_paddle: Paddle {
                    position: Vector2 { x: self.left_paddle.position.x, y: PADDLE_HOME },
                    hitbox: Rectangle { y: PADDLE_HOME, ..self.left_paddle.hitbox },
                    is_active: true,
                    ..self.left_paddle
                },
                right_paddle: Paddle {
                    position: Vector2 { x: self.right_paddle.position.x, y: PADDLE_HOME },
                    hitbox: Rectangle { y: PADDLE_HOME, ..self.right_paddle.hitbox },
                    is_active: false,
                    ..self.right_paddle
                },
                ball_input: PlayerInput {
                    last_data: InputData { dir: Vector2::zero(), ..self.ball_input.last_data },
                    ..self.ball_input
                },
                hiscore: if self.score > self.hiscore {
                    self.score
                } else {
                    self.hiscore
                },
                checkpoint,
                score: checkpoint,
                respawn_timer: 0,
                ..self
            }.ramped()
        }
    }

    /// The high score that a respawn brings, if it brings one: the score,
    /// where the delay is over and the score is above the high score.
    pub open spec fn respawn_record(self, frame_time: i64) -> Option<i32> {
        if sum_of(self.respawn_timer, frame_time) >= RESPAWN_DELAY && self.score > self.hiscore {
            Some(self.score)
        } else {
            None
        }
    }

    /// Counts the time that the ball is off the playfield, and brings it
    /// back when the delay is over. Returns the new high score, if there is
    /// one, for the caller to keep.
    pub fn respawn_player(&mut self, frame_time: i64) -> (record: Option<i32>)
        ensures
            *final(self) == old(self).respawned(frame_time),
            record == old(self).respawn_record(frame_time),
    {
        self.respawn_timer = fx_add(self.respawn_timer, frame_time);
        if self.respawn_timer < RESPAWN_DELAY {
            return None;
        }
        self.ball.position = Vector2 { x: SCREEN_CENTER_X, y: SCREEN_CENTER_Y };
        self.left_paddle.position.y = PADDLE_HOME;
        self.left_paddle.hitbox.y = PADDLE_HOME;
        self.right_paddle.position.y = PADDLE_HOME;
        self.right_paddle.hitbox.y = PADDLE_HOME;
        self.ball_input.override_last_dir(Vector2::zero());
        self.ball.prone_dir = Vector2::zero();
        let mut record: Option<i32> = None;
        if self.score > self.hiscore {
            record = Some(self.score);
            self.hiscore = self.score;
        }
        if self.ball.lives <= 1 {
            self.ball.radius = fx_add(self.ball.radius, RADIUS_GROWTH);
            self.ball.lives = 3;
            self.checkpoint = 0;
        } else {
            self.ball.lives = self.ball.lives - 1;
            self.ball.radius = fx_sub(self.ball.radius, RADIUS_SHRINK);
        }
        self.ball.is_active = true;
        self.left_paddle.is_active = true;
        self.right_paddle.is_active = false;
        self.score = self.checkpoint;
        self.respawn_timer = 0;
        self.update_difficulty();
        record
    }

    /// Whether the ball is within the margin of the top or the bottom.
    pub open spec fn near_edge(self) -> bool {
        ||| self.ball.position.y >= difference_of(
            difference_of(SCREEN_HEIGHT, self.ball.radius),
            EDGE_MARGIN,
        )
        ||| self.ball.position.y <= sum_of(self.ball.radius, EDGE_MARGIN)
    }

    /// The angle at which the ball comes off a paddle, for the angle
    /// `roll` that was drawn: wider near the top or the bottom; with the sign
    /// of the heading where the ball has come off the top or the bottom
    /// since the last paddle, or the player does not steer up or down; else
    /// with the sign of the player's raw direction.
    pub open spec fn paddle_angle(self, ball_input: InputData, roll: i64) -> i64 {
        let size = if self.near_edge() {
            product_of(roll, EDGE_WIDENING)
        } else {
            roll
        };
        if self.bounced_vertically || ball_input.raw_dir.y == 0 {
            signed_like(size, self.ball.prone_dir.y)
        } else {
            signed_like(size, ball_input.raw_dir.y)
        }
    }

    /// The match after the ball has come off a paddle.
    ///
    /// The ball is set clear of both paddles and heads the other way
    /// across, at the new angle; the next return passes to the other paddle;
    /// the score goes up by one and the ramp is applied; the first player's
    /// smoothed direction is cleared.
    pub open spec fn paddle_bounced(self, ball_input: InputData, roll: i64) -> GameLoop {
        let (low, high) = self.clear_range();
        GameLoop {
            ball: Ball {
                position: Vector2 {
                    x: clamped(self.ball.position.x, low, high),
                    y: self.ball.position.y,
                },
                prone_dir: Vector2 {
                    x: negation_of(self.ball.prone_dir.x),
                    y: self.paddle_angle(ball_input, roll),
                },
                ..self.ball
            },
            left_paddle: Paddle { is_active: !self.left_paddle.is_active, ..self.left_paddle },
            right_paddle: Paddle { is_active: !self.right_paddle.is_active, ..self.right_paddle },
            score: (self.score + 1) as i32,
            bounced_vertically: false,
            ball_input: PlayerInput {
                last_data: InputData { dir: Vector2::zero(), ..self.ball_input.last_data },
                ..self.ball_input
            },
            ..self
        }.ramped()
    }

    /// Sends the ball back from a paddle at the angle `roll`. The next
    /// return passes to the other paddle: where exactly one paddle was to
    /// make it before, exactly one is afterwards, and it is the other one.
    pub fn paddle_bounce_with(&mut self, ball_input: &InputData, roll: i64)
        requires
            old(self).clear_range().0 <= old(self).clear_range().1,
            old(self).score < i32::MAX,
        ensures
            *final(self) == old(self).paddle_bounced(*ball_input, roll),
            final(self).score == old(self).score + 1,
            final(self).left_paddle.is_active == !old(self).left_paddle.is_active,
            final(self).right_paddle.is_active == !old(self).right_paddle.is_active,
            old(self).one_paddle_active() ==> final(self).one_paddle_active(),
    {
        let close_to_edge: bool = self.ball.position.y >= fx_sub(
            fx_sub(SCREEN_HEIGHT, self.ball.radius),
            EDGE_MARGIN,
        ) || self.ball.position.y <= fx_add(self.ball.radius, EDGE_MARGIN);
        let mut new_angle: i64 = roll;
        if close_to_edge {
            new_angle = fx_mul(new_angle, EDGE_WIDENING);
        }
        if self.bounced_vertically || ball_input.raw_dir.y == 0 {
            new_angle = fx_signed_like(new_angle, self.ball.prone_dir.y);
        } else {
            new_angle = fx_signed_like(new_angle, ball_input.raw_dir.y);
        }
        let min: i64 = fx_add(fx_add(self.left_paddle.position.x, PADDLE_WIDTH), self.ball.radius);
        let max: i64 = fx_sub(fx_sub(self.right_paddle.position.x, PADDLE_WIDTH), self.ball.radius);
        self.ball.position.x = fx_clamp(self.ball.position.x, min, max);
        self.left_paddle.is_active = !self.left_paddle.is_active;
        self.right_paddle.is_active = !self.right_paddle.is_active;
        self.ball.prone_dir.x = fx_neg(self.ball.prone_dir.x);
        self.ball.prone_dir.y = new_angle;
        self.score = self.score + 1;
        self.update_difficulty();
        self.bounced_vertically = false;
        self.ball_input.override_last_dir(Vector2::zero());
    }

    /// Sends the ball back from a paddle at an angle drawn at random, at
    /// least `ANGLE_MIN` and below `ANGLE_MAX`.
    pub fn paddle_bounce(&mut self, ball_input: &InputData)
        requires
            old(self).clear_range().0 <= old(self).clear_range().1,
            old(self).score < i32::MAX,
        ensures
            exists|roll: i64|
                ANGLE_MIN <= roll < ANGLE_MAX && *final(self) == #[trigger] old(
                    self,
                ).paddle_bounced(*ball_input, roll),
            ANGLE_MIN <= final(self).ball.prone_dir.y < 1_500_000
                || -1_500_000 < final(self).ball.prone_dir.y <= -ANGLE_MIN,
            final(self).score == old(self).score + 1,
            final(self).left_paddle.is_active == !old(self).left_paddle.is_active,
            final(self).right_paddle.is_active == !old(self).right_paddle.is_active,
            old(self).one_paddle_active() ==> final(self).one_paddle_active(),
    {
        let roll: i64 = random_angle(ANGLE_MIN, ANGLE_MAX);
        self.paddle_bounce_with(ball_input, roll);
    }

    /// The angle at which the ball comes off the top or the bottom: the
    /// share of its velocity that went up or down, steepened and kept
    /// between `REBOUND_MIN` and `REBOUND_MAX`, pointing away from the edge.
    /// A ball at rest comes off at the least angle.
    pub open spec fn edge_angle(self) -> i64 {
        let velocity = self.ball.velocity;
        let entry = quotient_of(magnitude_of(velocity.y), length_of(velocity.x, velocity.y));
        let size = clamped(steepened(entry), REBOUND_MIN, REBOUND_MAX);
        if velocity.y < 0 {
            size
        } else {
            negation_of(size)
        }
    }

    /// The match after the ball has come off the top or the bottom: the
    /// heading goes up or down at the new angle, and the first player's
    /// smoothed direction keeps half of what was sampled across and nothing
    /// up or down.
    pub open spec fn edge_bounced(self, ball_input: InputData) -> GameLoop {
        GameLoop {
            ball: Ball {
                prone_dir: Vector2 { x: self.ball.prone_dir.x, y: self.edge_angle() },
                ..self.ball
            },
            bounced_vertically: true,
            ball_input: PlayerInput {
                last_data: InputData {
                    dir: Vector2 { x: product_of(ball_input.dir.x, (ONE / 2) as i64), y: 0 },
                    ..self.ball_input.last_data
                },
                ..self.ball_input
            },
            ..self
        }
    }

    /// Sends the ball back from the top or the bottom, at an angle between
    /// `REBOUND_MIN` and `REBOUND_MAX` that points down for a ball that went
    /// up, and up for every other.
    pub fn edge_bounce(&mut self, ball_input: &InputData)
        ensures
            *final(self) == old(self).edge_bounced(*ball_input),
            old(self).ball.velocity.y < 0 ==> REBOUND_MIN <= final(self).ball.prone_dir.y
                <= REBOUND_MAX,
            old(self).ball.velocity.y >= 0 ==> -REBOUND_MAX <= final(self).ball.prone_dir.y
                <= -REBOUND_MIN,
    {
        let entry_angle: i64 = fx_div(
            fx_abs(self.ball.velocity.y),
            fx_length(self.ball.velocity.x, self.ball.velocity.y),
        );
        let mut new_angle: i64 = fx_clamp(fx_steepen(entry_angle), REBOUND_MIN, REBOUND_MAX);
        if self.ball.velocity.y >= 0 {
            new_angle = fx_neg(new_angle);
        }
        let new_input: Vector2 = Vector2::new(fx_mul(ball_input.dir.x, ONE / 2), 0);
        self.ball_input.override_last_dir(new_input);
        self.ball.prone_dir.y = new_angle;
        self.bounced_vertically = true;
    }

    /// Whether the ball lies against the top or the bottom.
    pub open spec fn hits_edge(self) -> bool {
        ||| self.ball.position.y == self.ball.radius
        ||| self.ball.position.y == difference_of(SCREEN_HEIGHT, self.ball.radius)
    }

    /// Whether the ball, its radius enlarged by the tolerance, reaches
    /// the hitbox of a paddle.
    pub open spec fn hits_paddle(self) -> bool {
        let reach = sum_of(self.ball.radius, HIT_TOLERANCE);
        ||| self.right_paddle.hitbox.touches_circle(self.ball.position, reach)
        ||| self.left_paddle.hitbox.touches_circle(self.ball.position, reach)
    }

    /// The match after its collisions are resolved: first a paddle's, then
    /// that of the top or the bottom, both as found before either.
    pub open spec fn collided(self, ball_input: InputData, roll: i64) -> GameLoop {
        let after_paddle = if self.hits_paddle() {
            self.paddle_bounced(ball_input, roll)
        } else {
            self
        };
        if self.hits_edge() {
            after_paddle.edge_bounced(ball_input)
        } else {
            after_paddle
        }
    }

    fn find_collisions(&self) -> (hits: (bool, bool))
        ensures
            hits.0 == self.hits_paddle(),
            hits.1 == self.hits_edge(),
    {
        let hit_vertical_edge: bool = self.ball.position.y == self.ball.radius
            || self.ball.position.y == fx_sub(SCREEN_HEIGHT, self.ball.radius);
        let reach: i64 = fx_add(self.ball.radius, HIT_TOLERANCE);
        let hit_paddle: bool = self.right_paddle.hitbox.check_collision_circle_rec(
            self.ball.position,
            reach,
        ) || self.left_paddle.hitbox.check_collision_circle_rec(self.ball.position, reach);
        (hit_paddle, hit_vertical_edge)
    }

    /// Resolves the collisions of the ball, with `roll` as the angle off a
    /// paddle.
    pub fn check_ball_collisions_with(&mut self, ball_input: &InputData, roll: i64)
        requires
            old(self).clear_range().0 <= old(self).clear_range().1,
            old(self).score < i32::MAX,
        ensures
            *final(self) == old(self).collided(*ball_input, roll),
    {
        let (hit_paddle, hit_vertical_edge) = self.find_collisions();
        if hit_paddle {
            self.paddle_bounce_with(ball_input, roll);
        }
        if hit_vertical_edge {
            self.edge_bounce(ball_input);
        }
    }

    /// Resolves the collisions of the ball, with an angle off a paddle
    /// drawn at random, at least `ANGLE_MIN` and below `ANGLE_MAX`.
    pub fn check_ball_collisions(&mut self, ball_input: &InputData)
        requires
            old(self).clear_range().0 <= old(self).clear_range().1,
            old(self).score < i32::MAX,
        ensures
            exists|roll: i64|
                ANGLE_MIN <= roll < ANGLE_MAX && *final(self) == #[trigger] old(self).collided(
                    *ball_input,
                    roll,
                ),
    {
        let (hit_paddle, hit_vertical_edge) = self.find_collisions();
        let ghost mut drawn: i64 = ANGLE_MIN;
        if hit_paddle {
            let roll: i64 = random_angle(ANGLE_MIN, ANGLE_MAX);
            proof {
                drawn = roll;
            }
            self.paddle_bounce_with(ball_input, roll);
        }
        if hit_vertical_edge {
            self.edge_bounce(ball_input);
        }
        assert(*self == old(self).collided(*ball_input, drawn));
    }
}

impl GameLoop {
    /// The match with the ball served: a ball without a heading takes the
    /// heading to the left as soon as the first player's smoothed direction
    /// is not zero.
    pub open spec fn served(self, ball_input: InputData) -> GameLoop {
        if self.ball.prone_dir == Vector2::zero() && ball_input.dir != Vector2::zero() {
            GameLoop {
                ball: Ball { prone_dir: Vector2 { x: (-ONE) as i64, y: 0 }, ..self.ball },
                ..self
            }
        } else {
            self
        }
    }

    /// The match after the ball and the paddles have moved by one frame:
    /// the ball is served and updated, each paddle is told where the ball
    /// is and updated.
    pub open spec fn advanced(
        self,
        frame_time: i64,
        ball_input: InputData,
        paddle_input: InputData,
    ) -> GameLoop {
        let ball = self.served(ball_input).ball.updated(frame_time, ball_input);
        GameLoop {
            ball,
            left_paddle: Paddle { player_pos: ball.position, ..self.left_paddle }.updated(
                frame_time,
                paddle_input,
            ),
            right_paddle: Paddle { player_pos: ball.position, ..self.right_paddle }.updated(
                frame_time,
                paddle_input,
            ),
            ..self
        }
    }

    /// The match with both players sampled for a frame, the debug view
    /// toggled where the frame says so, and the ball marked as on the
    /// playfield or off it.
    pub open spec fn sampled(self, frame: Frame) -> GameLoop {
        GameLoop {
            ball_input: PlayerInput {
                last_data: self.ball_input.after_get(
                    frame.now,
                    frame.frame_time,
                    frame.ball_reading,
                ),
                ..self.ball_input
            },
            paddle_input: PlayerInput {
                last_data: self.paddle_input.after_get(
                    frame.now,
                    frame.frame_time,
                    frame.paddle_reading,
                ),
                ..self.paddle_input
            },
            debug_mode: self.debug_mode != frame.toggle_debug,
            ball: Ball { is_active: self.in_bounds(), ..self.ball },
            ..self
        }
    }

    /// The match after one update, with `roll` as the angle off a paddle.
    ///
    /// Both players are sampled. With the ball off the playfield nothing
    /// else happens but the respawn. With the ball on it, the ball and the
    /// paddles move, and then the collisions are resolved.
    pub open spec fn stepped(self, frame: Frame, roll: i64) -> GameLoop {
        let sampled = self.sampled(frame);
        if !self.in_bounds() {
            sampled.respawned(frame.frame_time)
        } else {
            sampled.advanced(
                frame.frame_time,
                sampled.ball_input.last_data,
                sampled.paddle_input.last_data,
            ).collided(sampled.ball_input.last_data, roll)
        }
    }

    /// The high score that an update brings, if it brings one.
    pub open spec fn step_record(self, frame: Frame) -> Option<i32> {
        if self.in_bounds() {
            None
        } else {
            self.respawn_record(frame.frame_time)
        }
    }

    /// Whether the match can be updated.
    pub fn can_update(&self) -> (ready: bool)
        ensures
            ready == self.can_step(),
    {
        if self.ball.position.x < 0 || self.ball.position.x > SCREEN_WIDTH {
            return true;
        }
        let low: i64 = fx_add(fx_add(self.left_paddle.position.x, PADDLE_WIDTH), self.ball.radius);
        let high: i64 = fx_sub(
            fx_sub(self.right_paddle.position.x, PADDLE_WIDTH),
            self.ball.radius,
        );
        1 <= self.ball.lives && self.ball.lives <= 3 && self.ball.radius <= fx_sub(
            SCREEN_HEIGHT,
            self.ball.radius,
        ) && (self.left_paddle.player_controlled || self.left_paddle.speed >= 0) && (
            self.right_paddle.player_controlled || self.right_paddle.speed >= 0) && low <= high
            && self.score < i32::MAX
    }

    /// Samples both players for a frame, toggles the debug view where the
    /// frame says so, and marks the ball as on the playfield or off it.
    /// Returns the two samples.
    pub fn sample_players(&mut self, frame: &Frame) -> (samples: (InputData, InputData))
        ensures
            *final(self) == old(self).sampled(*frame),
            samples.0 == final(self).ball_input.last_data,
            samples.1 == final(self).paddle_input.last_data,
    {
        let ball_input: InputData = self.ball_input.get_data(
            frame.now,
            frame.frame_time,
            &frame.ball_reading,
        );
        let paddle_input: InputData = self.paddle_input.get_data(
            frame.now,
            frame.frame_time,
            &frame.paddle_reading,
        );
        if frame.toggle_debug {
            self.debug_mode = !self.debug_mode;
        }
        self.ball.is_active = 0 <= self.ball.position.x && self.ball.position.x <= SCREEN_WIDTH;
        (ball_input, paddle_input)
    }

    /// Moves the ball and the paddles by one frame. Afterwards the ball
    /// lies between the top and the bottom, and each paddle is on the
    /// playfield with its hitbox where it is.
    pub fn advance(&mut self, frame_time: i64, ball_input: &InputData, paddle_input: &InputData)
        requires
            old(self).ball.wf(),
            old(self).left_paddle.wf(),
            old(self).right_paddle.wf(),
        ensures
            *final(self) == old(self).advanced(frame_time, *ball_input, *paddle_input),
            final(self).ball.wf(),
            final(self).ball.radius <= final(self).ball.position.y <= difference_of(
                SCREEN_HEIGHT,
                final(self).ball.radius,
            ),
            final(self).left_paddle.hitbox_in_place(),
            final(self).right_paddle.hitbox_in_place(),
            0 <= final(self).left_paddle.position.y <= SCREEN_HEIGHT,
            0 <= final(self).right_paddle.position.y <= SCREEN_HEIGHT,
    {
        if self.ball.prone_dir == Vector2::zero() && ball_input.dir != Vector2::zero() {
            self.ball.prone_dir = Vector2::new(-ONE, 0);
        }
        self.ball.update(frame_time, ball_input);
        self.left_paddle.player_pos = self.ball.position;
        self.right_paddle.player_pos = self.ball.position;
        self.left_paddle.update(frame_time, paddle_input);
        self.right_paddle.update(frame_time, paddle_input);
    }

    /// Everything of an update that comes before the collisions. Returns
    /// the first player's sample where the collisions are still to be
    /// resolved, and the new high score where the ball came back.
    fn begin_update(&mut self, frame: &Frame) -> (outcome: (Option<InputData>, Option<i32>))
        requires
            old(self).can_step(),
        ensures
            !old(self).in_bounds() ==> {
                &&& outcome.0 is None
                &&& outcome.1 == old(self).respawn_record(frame.frame_time)
                &&& *final(self) == old(self).sampled(*frame).respawned(frame.frame_time)
            },
            old(self).in_bounds() ==> {
                &&& outcome.0 == Some(old(self).sampled(*frame).ball_input.last_data)
                &&& outcome.1 is None
                &&& *final(self) == old(self).sampled(*frame).advanced(
                    frame.frame_time,
                    old(self).sampled(*frame).ball_input.last_data,
                    old(self).sampled(*frame).paddle_input.last_data,
                )
                &&& final(self).ball.radius <= final(self).ball.position.y <= difference_of(
                    SCREEN_HEIGHT,
                    final(self).ball.radius,
                )
                &&& final(self).left_paddle.hitbox_in_place()
                &&& final(self).right_paddle.hitbox_in_place()
                &&& 0 <= final(self).left_paddle.position.y <= SCREEN_HEIGHT
                &&& 0 <= final(self).right_paddle.position.y <= SCREEN_HEIGHT
            },
    {
        let (ball_input, paddle_input) = self.sample_players(frame);
        if !self.ball.is_active {
            let record: Option<i32> = self.respawn_player(frame.frame_time);
            return (None, record);
        }
        self.advance(frame.frame_time, &ball_input, &paddle_input);
        (Some(ball_input), None)
    }

    /// Updates the match by one frame, with `roll` as the angle at which
    /// the ball comes off a paddle, should it come off one. Returns the new
    /// high score, if there is one, for the caller to keep.
    ///
    /// What holds of a match from its start on holds after the update too,
    /// if the frame time is not negative.
    pub fn update_with(&mut self, frame: &Frame, roll: i64) -> (record: Option<i32>)
        requires
            old(self).can_step(),
        ensures
            *final(self) == old(self).stepped(*frame, roll),
            record == old(self).step_record(*frame),
            old(self).inv() && frame.frame_time >= 0 ==> final(self).inv(),
    {
        let (sample, record) = self.begin_update(frame);
        match sample {
            Some(ball_input) => {
                self.check_ball_collisions_with(&ball_input, roll);
            },
            None => {},
        }
        proof {
            if old(self).inv() && frame.frame_time >= 0 {
                lemma_step_keeps_inv(*old(self), *frame, roll);
            }
        }
        record
    }

    /// Updates the match by one frame. Where the ball comes off a paddle,
    /// its angle is drawn at random, at least `ANGLE_MIN` and below
    /// `ANGLE_MAX`. Returns the new high score, if there is one, for the
    /// caller to keep.
    pub fn update(&mut self, frame: &Frame) -> (record: Option<i32>)
        requires
            old(self).can_step(),
        ensures
            exists|roll: i64|
                ANGLE_MIN <= roll < ANGLE_MAX && *final(self) == #[trigger] old(self).stepped(
                    *frame,
                    roll,
                ),
            record == old(self).step_record(*frame),
            old(self).inv() && frame.frame_time >= 0 ==> final(self).inv(),
    {
        let (sample, record) = self.begin_update(frame);
        match sample {
            Some(ball_input) => {
                let ghost before = *self;
                self.check_ball_collisions(&ball_input);
                proof {
                    let roll = choose|roll: i64|
                        ANGLE_MIN <= roll < ANGLE_MAX && *self == #[trigger] before.collided(
                            ball_input,
                            roll,
                        );
                    assert(*self == old(self).stepped(*frame, roll));
                    if old(self).inv() && frame.frame_time >= 0 {
                        lemma_step_keeps_inv(*old(self), *frame, roll);
                    }
                }
            },
            None => {
                assert(*self == old(self).stepped(*frame, ANGLE_MIN));
                proof {
                    if old(self).inv() && frame.frame_time >= 0 {
                        lemma_step_keeps_inv(*old(self), *frame, ANGLE_MIN);
                    }
                }
            },
        }
        record
    }
}

} // verus!
