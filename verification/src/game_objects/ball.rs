use vstd::prelude::*;
use crate::fixed::{
    clamped, difference_of, fx_abs, fx_add, fx_clamp, fx_from_channel, fx_mul, fx_sub,
    fx_to_channel, magnitude_of, product_of, sum_of, channel_scalar, scalar_channel, ONE,
};
use crate::game_objects::Ball;
use crate::input_system::InputData;
use crate::shapes::{Color, Vector2};
use crate::utils::SCREEN_HEIGHT;

verus! {

/// How much of the steering reaches the ball across: 1 / 2.25.
pub const STEER_ACROSS: i64 = 444_444;

/// How much of the steering reaches the ball up and down: 1 / 1.70.
pub const STEER_ALONG: i64 = 588_235;

/// What the alpha channel gains per second at full steering.
pub const ALPHA_RISE: i64 = 6_800_000_000;

/// What the alpha channel loses per second with no steering.
pub const ALPHA_FALL: i64 = 500_000_000;

/// How strongly a sample steers: the mean of the magnitudes of the two
/// components of its smoothed direction.
pub open spec fn steering_intensity(input: InputData) -> i64 {
    product_of(sum_of(magnitude_of(input.dir.x), magnitude_of(input.dir.y)), (ONE / 2) as i64)
}

/// The alpha channel after a frame of `frame_time`: it rises with the
/// intensity while the player steers, and falls, the faster the weaker the
/// steering, while not.
pub open spec fn faded_alpha(alpha: u8, frame_time: i64, input: InputData) -> i64 {
    let intensity = steering_intensity(input);
    if input.raw_dir != Vector2::zero() {
        sum_of(channel_scalar(alpha), product_of(product_of(ALPHA_RISE, intensity), frame_time))
    } else {
        let rest = difference_of(ONE, intensity);
        difference_of(
            channel_scalar(alpha),
            product_of(product_of(ALPHA_FALL, product_of(rest, rest)), frame_time),
        )
    }
}

impl Ball {
    /// Whether the ball can be updated: it has one to three lives and fits
    /// between the top and the bottom of the playfield.
    pub open spec fn wf(self) -> bool {
        &&& 1 <= self.lives <= 3
        &&& self.radius <= difference_of(SCREEN_HEIGHT, self.radius)
    }

    pub fn new(position: Vector2, colors: [Color; 3], radius: i64, speed: i64) -> (ball: Ball)
        ensures
            ball == (Ball {
                position,
                velocity: Vector2::zero(),
                colors,
                color: colors[2],
                radius,
                speed,
                lives: 3,
                is_active: true,
                prone_dir: Vector2::zero(),
            }),
    {
        Ball {
            lives: 3,
            is_active: true,
            color: colors[2],
            velocity: Vector2::zero(),
            prone_dir: Vector2::zero(),
            position,
            radius,
            speed,
            colors,
        }
    }

    /// The velocity under a sample: the heading plus the steering, the
    /// steering damped more across than up and down, times the speed.
    pub open spec fn steered_velocity(self, input: InputData) -> Vector2 {
        let desired = input.dir.stretched(Vector2 { x: STEER_ACROSS, y: STEER_ALONG });
        self.prone_dir.added(desired).scaled(self.speed)
    }

    pub fn update_velocity(&mut self, input: &InputData)
        ensures
            *final(self) == (Ball { velocity: old(self).steered_velocity(*input), ..*old(self) }),
    {
        let desired: Vector2 = input.dir.stretched(Vector2 { x: STEER_ACROSS, y: STEER_ALONG });
        self.velocity = self.prone_dir.added(desired).scaled(self.speed);
    }

    /// The colour after a frame: that of the number of lives, with the
    /// faded alpha channel kept between that colour's own and opaque.
    pub open spec fn faded_color(self, frame_time: i64, input: InputData) -> Color {
        let base = self.colors[self.lives - 1];
        Color {
            a: scalar_channel(
                clamped(
                    faded_alpha(self.color.a, frame_time, input),
                    channel_scalar(base.a),
                    (255 * ONE) as i64,
                ),
            ),
            ..base
        }
    }

    pub fn update_color(&mut self, frame_time: i64, input: &InputData)
        requires
            1 <= old(self).lives <= 3,
        ensures
            *final(self) == (Ball { color: old(self).faded_color(frame_time, *input), ..*old(self) }),
    {
        let mut alpha: i64 = fx_from_channel(self.color.a);
        let intensity: i64 = fx_mul(fx_add(fx_abs(input.dir.x), fx_abs(input.dir.y)), ONE / 2);
        if input.raw_dir != Vector2::zero() {
            alpha = fx_add(alpha, fx_mul(fx_mul(ALPHA_RISE, intensity), frame_time));
        } else {
            let rest: i64 = fx_sub(ONE, intensity);
            alpha = fx_sub(alpha, fx_mul(fx_mul(ALPHA_FALL, fx_mul(rest, rest)), frame_time));
        }
        let base: Color = self.colors[(self.lives - 1) as usize];
        let a: u8 = fx_to_channel(fx_clamp(alpha, fx_from_channel(base.a), 255 * ONE));
        self.color = Color { r: base.r, g: base.g, b: base.b, a };
    }

    /// The position after a frame at the current velocity, kept between
    /// the top and the bottom of the playfield.
    pub open spec fn moved_position(self, frame_time: i64) -> Vector2 {
        let free = self.position.added(self.velocity.scaled(frame_time));
        Vector2 {
            x: free.x,
            y: clamped(free.y, self.radius, difference_of(SCREEN_HEIGHT, self.radius)),
        }
    }

    pub fn translate(&mut self, frame_time: i64)
        requires
            old(self).radius <= difference_of(SCREEN_HEIGHT, old(self).radius),
        ensures
            *final(self) == (Ball { position: old(self).moved_position(frame_time), ..*old(self) }),
            final(self).radius <= final(self).position.y <= difference_of(
                SCREEN_HEIGHT,
                final(self).radius,
            ),
    {
        let free: Vector2 = self.position.added(self.velocity.scaled(frame_time));
        self.position = Vector2 {
            x: free.x,
            y: fx_clamp(free.y, self.radius, fx_sub(SCREEN_HEIGHT, self.radius)),
        };
    }

    /// The ball after a frame: velocity, then colour, then position.
    pub open spec fn updated(self, frame_time: i64, input: InputData) -> Ball {
        let steered = Ball { velocity: self.steered_velocity(input), ..self };
        Ball {
            color: self.faded_color(frame_time, input),
            position: steered.moved_position(frame_time),
            ..steered
        }
    }

    /// Moves the ball by one frame. Whatever the frame time and the
    /// velocity, the ball stays between the top and the bottom of the
    /// playfield.
    pub fn update(&mut self, frame_time: i64, input: &InputData)
        requires
            old(self).wf(),
        ensures
            *final(self) == old(self).updated(frame_time, *input),
            final(self).wf(),
            final(self).radius <= final(self).position.y <= difference_of(
                SCREEN_HEIGHT,
                final(self).radius,
            ),
    {
        self.update_velocity(input);
        self.update_color(frame_time, input);
        self.translate(frame_time);
    }
}

/// An update changes the velocity, the colour and the position of the
/// ball and nothing else, and leaves the ball between the top and the
/// bottom of the playfield, whatever the frame time and the velocity.
pub proof fn lemma_update_contains(ball: Ball, frame_time: i64, input: InputData)
    requires
        ball.wf(),
    ensures
        ball.updated(frame_time, input) == (Ball {
            velocity: ball.updated(frame_time, input).velocity,
            color: ball.updated(frame_time, input).color,
            position: ball.updated(frame_time, input).position,
            ..ball
        }),
        ball.radius <= ball.updated(frame_time, input).position.y <= difference_of(
            SCREEN_HEIGHT,
            ball.radius,
        ),
{
}

} // verus!
