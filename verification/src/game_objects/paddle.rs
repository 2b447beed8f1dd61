use vstd::prelude::*;
use crate::fixed::{
    channel_scalar, clamped, difference_of, fx_abs, fx_add, fx_clamp, fx_div, fx_from_channel,
    fx_lerp, fx_mul, fx_neg, fx_sub, fx_to_channel, blend_of, magnitude_of, negation_of,
    product_of, quotient_of, scalar_channel, sum_of, ONE,
};
use crate::game_objects::Paddle;
use crate::input_system::InputData;
use crate::shapes::{Color, Rectangle, Vector2};
use crate::utils::{SCREEN_HEIGHT, SCREEN_WIDTH};

verus! {

/// A paddle that moves by itself stays where it is while the ball is less
/// than this far above or below it.
pub const TRACKING_DEADBAND: i64 = 5_000_000;

/// The gain of a paddle that moves by itself, per unit of distance.
pub const TRACKING_GAIN: i64 = 60_000_000;

/// The share of its speed that a steered paddle takes from the smoothed
/// direction.
pub const STEER_SHARE: i64 = 600_000;

/// The share of its speed that a steered paddle takes from the raw
/// direction, with the ball at the paddle.
pub const DASH_SHARE: i64 = 700_000;

/// The alpha channel of a paddle at rest.
pub const ALPHA_FLOOR: i64 = 130_000_000;

/// What the alpha channel of a paddle gains or loses per second.
pub const ALPHA_RATE: i64 = 500_000_000;

/// The third power of a scalar.
pub open spec fn cubed(a: i64) -> i64 {
    product_of(product_of(a, a), a)
}

fn cube(a: i64) -> (r: i64)
    ensures
        r == cubed(a),
{
    fx_mul(fx_mul(a, a), a)
}

/// How far the alpha channel stands between its floor and opaque,
/// as a share.
pub open spec fn alpha_share(alpha: u8) -> i64 {
    quotient_of(
        difference_of(channel_scalar(alpha), ALPHA_FLOOR),
        difference_of((255 * ONE) as i64, ALPHA_FLOOR),
    )
}

/// One channel between its value in the far colour and in the near colour.
pub open spec fn blended_channel(far: u8, near: u8, step: i64) -> u8 {
    scalar_channel(blend_of(channel_scalar(far), channel_scalar(near), step))
}

fn blend_channel(far: u8, near: u8, step: i64) -> (c: u8)
    ensures
        c == blended_channel(far, near, step),
{
    fx_to_channel(fx_lerp(fx_from_channel(far), fx_from_channel(near), step))
}

impl Paddle {
    /// Whether the paddle can be updated: the speed of a paddle that
    /// moves by itself is not negative.
    pub open spec fn wf(self) -> bool {
        self.player_controlled || self.speed >= 0
    }

    /// Whether the hitbox stands where the paddle does.
    pub open spec fn hitbox_in_place(self) -> bool {
        self.hitbox.x == self.position.x && self.hitbox.y == self.position.y
    }

    pub fn new(
        position: Vector2,
        colors: [Color; 2],
        size: Vector2,
        speed: i64,
        view_range: i64,
        player_controlled: bool,
        is_active: bool,
    ) -> (paddle: Paddle)
        ensures
            paddle == (Paddle {
                position,
                velocity: 0,
                speed,
                color: colors[0],
                colors,
                size,
                view_range,
                hitbox: Rectangle { x: position.x, y: position.y, width: size.x, height: size.y },
                player_pos: Vector2::zero(),
                is_active,
                player_controlled,
            }),
    {
        Paddle {
            is_active,
            player_controlled,
            colors,
            view_range,
            position,
            speed,
            size,
            color: colors[0],
            hitbox: Rectangle::new(position.x, position.y, size.x, size.y),
            velocity: 0,
            player_pos: Vector2::zero(),
        }
    }

    /// How near the ball is across the playfield, from 0, at the end of
    /// the paddle's view or beyond, to 1, at the paddle. A paddle whose view
    /// has no width sees nothing.
    pub open spec fn closeness(self) -> i64 {
        let view_distance = product_of(SCREEN_WIDTH, self.view_range);
        let distance = difference_of(self.player_pos.x, self.position.x);
        if view_distance <= 0 {
            0
        } else {
            difference_of(
                ONE,
                clamped(quotient_of(magnitude_of(distance), view_distance), 0, ONE),
            )
        }
    }

    pub fn get_player_pos_closeness(&self) -> (closeness: i64)
        ensures
            closeness == self.closeness(),
            0 <= closeness <= ONE,
    {
        let view_distance: i64 = fx_mul(SCREEN_WIDTH, self.view_range);
        let distance: i64 = fx_sub(self.player_pos.x, self.position.x);
        if view_distance <= 0 {
            return 0;
        }
        fx_sub(ONE, fx_clamp(fx_div(fx_abs(distance), view_distance), 0, ONE))
    }

    /// The velocity under a sample.
    ///
    /// A steered paddle stands still while the return is not its own; else
    /// it follows the smoothed direction, and the raw one the more the
    /// nearer the ball is. A paddle that moves by itself stands still while
    /// the ball is out of view or level with it; else it makes for the ball,
    /// the faster the nearer the ball is, up to its speed.
    pub open spec fn tracking_velocity(self, input: InputData) -> i64 {
        let closeness = self.closeness();
        let distance = difference_of(self.player_pos.y, self.position.y);
        if self.player_controlled {
            if !self.is_active {
                0
            } else {
                sum_of(
                    product_of(product_of(input.dir.y, self.speed), STEER_SHARE),
                    product_of(
                        product_of(product_of(input.raw_dir.y, cubed(closeness)), self.speed),
                        DASH_SHARE,
                    ),
                )
            }
        } else if closeness <= 0 || magnitude_of(distance) < TRACKING_DEADBAND {
            0
        } else {
            clamped(
                product_of(product_of(distance, product_of(closeness, closeness)), TRACKING_GAIN),
                negation_of(self.speed),
                self.speed,
            )
        }
    }

    pub fn update_velocity(&mut self, input: &InputData)
        requires
            old(self).wf(),
        ensures
            *final(self) == (Paddle { velocity: old(self).tracking_velocity(*input), ..*old(self) }),
            !old(self).player_controlled ==> -old(self).speed <= final(self).velocity <= old(
                self,
            ).speed,
            old(self).player_controlled && !old(self).is_active ==> final(self).velocity == 0,
    {
        let closeness: i64 = self.get_player_pos_closeness();
        let distance: i64 = fx_sub(self.player_pos.y, self.position.y);
        if self.player_controlled {
            if !self.is_active {
                self.velocity = 0;
                return;
            }
            self.velocity = fx_add(
                fx_mul(fx_mul(input.dir.y, self.speed), STEER_SHARE),
                fx_mul(fx_mul(fx_mul(input.raw_dir.y, cube(closeness)), self.speed), DASH_SHARE),
            );
            return;
        }
        if closeness <= 0 || fx_abs(distance) < TRACKING_DEADBAND {
            self.velocity = 0;
            return;
        }
        let new_vel: i64 = fx_mul(fx_mul(distance, fx_mul(closeness, closeness)), TRACKING_GAIN);
        self.velocity = fx_clamp(new_vel, fx_neg(self.speed), self.speed);
    }

    /// The colour after a frame. That of a paddle that moves by itself
    /// stays. That of a steered paddle goes from the far colour toward the
    /// near one in green and blue: by the nearness of the ball and its own
    /// alpha channel while the return is its own, by its alpha channel alone
    /// while not; and its alpha channel rises while the return is its own
    /// and falls while not, between the floor and opaque.
    pub open spec fn tinted_color(self, frame_time: i64) -> Color {
        if !self.player_controlled {
            self.color
        } else {
            let step = if self.is_active {
                product_of(cubed(self.closeness()), alpha_share(self.color.a))
            } else {
                alpha_share(self.color.a)
            };
            let change = product_of(ALPHA_RATE, frame_time);
            let alpha = if self.is_active {
                sum_of(channel_scalar(self.color.a), change)
            } else {
                difference_of(channel_scalar(self.color.a), change)
            };
            Color {
                r: self.color.r,
                g: blended_channel(self.colors[0].g, self.colors[1].g, step),
                b: blended_channel(self.colors[0].b, self.colors[1].b, step),
                a: scalar_channel(clamped(alpha, ALPHA_FLOOR, (255 * ONE) as i64)),
            }
        }
    }

    pub fn update_color(&mut self, frame_time: i64)
        ensures
            *final(self) == (Paddle { color: old(self).tinted_color(frame_time), ..*old(self) }),
    {
        if !self.player_controlled {
            return;
        }
        let closeness: i64 = self.get_player_pos_closeness();
        let mut alpha: i64 = fx_from_channel(self.color.a);
        let share: i64 = fx_div(fx_sub(alpha, ALPHA_FLOOR), fx_sub(255 * ONE, ALPHA_FLOOR));
        let change: i64 = fx_mul(ALPHA_RATE, frame_time);
        let mut step: i64 = share;
        if self.is_active {
            step = fx_mul(cube(closeness), share);
            alpha = fx_add(alpha, change);
        } else {
            alpha = fx_sub(alpha, change);
        }
        let g: u8 = blend_channel(self.colors[0].g, self.colors[1].g, step);
        let b: u8 = blend_channel(self.colors[0].b, self.colors[1].b, step);
        let a: u8 = fx_to_channel(fx_clamp(alpha, ALPHA_FLOOR, 255 * ONE));
        self.color = Color { r: self.color.r, g, b, a };
    }

    /// The height after a frame at the current velocity, kept on the
    /// playfield.
    pub open spec fn moved_height(self, frame_time: i64) -> i64 {
        clamped(sum_of(self.position.y, product_of(self.velocity, frame_time)), 0, SCREEN_HEIGHT)
    }

    /// The paddle after a frame of movement, its hitbox with it.
    pub open spec fn translated(self, frame_time: i64) -> Paddle {
        let y = self.moved_height(frame_time);
        Paddle {
            position: Vector2 { x: self.position.x, y },
            hitbox: Rectangle { x: self.position.x, y, ..self.hitbox },
            ..self
        }
    }

    pub fn translate(&mut self, frame_time: i64)
        ensures
            *final(self) == old(self).translated(frame_time),
            final(self).hitbox_in_place(),
            0 <= final(self).position.y <= SCREEN_HEIGHT,
    {
        let y: i64 = fx_clamp(
            fx_add(self.position.y, fx_mul(self.velocity, frame_time)),
            0,
            SCREEN_HEIGHT,
        );
        self.position.y = y;
        self.hitbox.x = self.position.x;
        self.hitbox.y = self.position.y;
    }

    /// The paddle after a frame: velocity, then colour, then position.
    pub open spec fn updated(self, frame_time: i64, input: InputData) -> Paddle {
        let tracking = Paddle { velocity: self.tracking_velocity(input), ..self };
        Paddle { color: self.tinted_color(frame_time), ..tracking }.translated(frame_time)
    }

    /// Moves the paddle by one frame. Afterwards the hitbox stands where
    /// the paddle does, and the paddle is on the playfield.
    pub fn update(&mut self, frame_time: i64, input: &InputData)
        requires
            old(self).wf(),
        ensures
            *final(self) == old(self).updated(frame_time, *input),
            final(self).wf(),
            final(self).hitbox_in_place(),
            0 <= final(self).position.y <= SCREEN_HEIGHT,
    {
        self.update_velocity(input);
        self.update_color(frame_time);
        self.translate(frame_time);
    }
}

/// An update changes the velocity, the colour, the height and the hitbox
/// of a paddle and nothing else, and leaves the paddle on the playfield
/// with its hitbox where it is.
pub proof fn lemma_update_keeps_place(paddle: Paddle, frame_time: i64, input: InputData)
    ensures
        paddle.updated(frame_time, input) == (Paddle {
            velocity: paddle.updated(frame_time, input).velocity,
            color: paddle.updated(frame_time, input).color,
            position: Vector2 {
                x: paddle.position.x,
                y: paddle.updated(frame_time, input).position.y,
            },
            hitbox: Rectangle {
                x: paddle.position.x,
                y: paddle.updated(frame_time, input).position.y,
                ..paddle.hitbox
            },
            ..paddle
        }),
        0 <= paddle.updated(frame_time, input).position.y <= SCREEN_HEIGHT,
{
}

} // verus!
