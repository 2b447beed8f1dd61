//! What holds of a match over whole runs of updates.

use vstd::prelude::*;
use crate::game_objects::ball::lemma_update_contains;
use crate::game_objects::paddle::lemma_update_keeps_place;
use crate::game_objects::{Ball, Paddle};
use crate::game_scenes::difficulty::ramp_threshold;
use crate::fixed::{lemma_product_with_zero, sum_of};
use crate::game_objects::ball::{STEER_ACROSS, STEER_ALONG};
use crate::game_scenes::game_loop::{HIT_TOLERANCE, RADIUS_GROWTH, RESPAWN_DELAY};
use crate::game_scenes::{Frame, GameLoop};
use crate::input_system::InputData;
use crate::shapes::Vector2;
use crate::utils::{SCREEN_CENTER_X, SCREEN_CENTER_Y, SCREEN_HEIGHT};

verus! {

/// The time that a run of frames takes.
pub open spec fn total_time(frames: Seq<Frame>) -> int
    decreases frames.len(),
{
    if frames.len() == 0 {
        0
    } else {
        total_time(frames.drop_last()) + frames.last().frame_time
    }
}

impl GameLoop {
    /// The match after a run of updates, one angle for each frame.
    pub open spec fn run(self, frames: Seq<Frame>, rolls: Seq<i64>) -> GameLoop
        decreases frames.len(),
    {
        if frames.len() == 0 {
            self
        } else {
            self.run(frames.drop_last(), rolls.drop_last()).stepped(frames.last(), rolls.last())
        }
    }

    /// The match after the ball has come off a paddle once for each of the
    /// samples, one angle for each.
    pub open spec fn bounced_each(self, samples: Seq<InputData>, rolls: Seq<i64>) -> GameLoop
        decreases samples.len(),
    {
        if samples.len() == 0 {
            self
        } else {
            self.bounced_each(samples.drop_last(), rolls.drop_last()).paddle_bounced(
                samples.last(),
                rolls.last(),
            )
        }
    }

    /// Whether play stands in `other` as it stands in `self`: the ball but
    /// for its mark of being on the playfield, the paddles, the score, the
    /// checkpoint, the high score and what goes with them.
    pub open spec fn same_play(self, other: GameLoop) -> bool {
        &&& other.ball == (Ball { is_active: other.ball.is_active, ..self.ball })
        &&& other.left_paddle == self.left_paddle
        &&& other.right_paddle == self.right_paddle
        &&& other.score == self.score
        &&& other.checkpoint == self.checkpoint
        &&& other.hiscore == self.hiscore
        &&& other.score_color == self.score_color
        &&& other.bounced_vertically == self.bounced_vertically
    }
}

/// The next return passes from paddle to paddle. Where exactly one paddle
/// is to make it, exactly one is after every bounce off a paddle, and it is
/// never the one before: after a run of bounces it is the same paddle if
/// the run has an even number of them, the other if not.
pub proof fn lemma_serve_alternates(game: GameLoop, samples: Seq<InputData>, rolls: Seq<i64>)
    requires
        game.one_paddle_active(),
        samples.len() == rolls.len(),
    ensures
        game.bounced_each(samples, rolls).one_paddle_active(),
        game.bounced_each(samples, rolls).left_paddle.is_active == (game.left_paddle.is_active
            == (samples.len() % 2 == 0)),
        samples.len() > 0 ==> game.bounced_each(samples, rolls).left_paddle.is_active
            != game.bounced_each(samples.drop_last(), rolls.drop_last()).left_paddle.is_active,
    decreases samples.len(),
{
    if samples.len() > 0 {
        lemma_serve_alternates(game, samples.drop_last(), rolls.drop_last());
    }
}

/// Where no frame of a run takes less than no time, its last frame does
/// not, nor does any frame of the run without its last.
pub proof fn lemma_shorter_run_takes_time(frames: Seq<Frame>)
    requires
        frames.len() > 0,
        forall|i: int| 0 <= i < frames.len() ==> (#[trigger] frames[i]).frame_time >= 0,
    ensures
        frames.last().frame_time >= 0,
        forall|i: int|
            0 <= i < frames.drop_last().len() ==> (#[trigger] frames.drop_last()[i]).frame_time
                >= 0,
{
    assert(frames.last() == frames[frames.len() - 1]);
    let earlier = frames.drop_last();
    assert forall|i: int| 0 <= i < earlier.len() implies (#[trigger] earlier[i]).frame_time
        >= 0 by {
        assert(earlier[i] == frames[i]);
    }
}

/// While the ball is off the playfield and the delay is not over, nothing
/// of play changes: over a run of frames that together take less than what
/// is left of the delay, the ball, the paddles, the score, the checkpoint
/// and the high score stay, and the timer counts their time.
pub proof fn lemma_respawn_waits(game: GameLoop, frames: Seq<Frame>, rolls: Seq<i64>)
    requires
        !game.in_bounds(),
        game.respawn_timer >= 0,
        frames.len() == rolls.len(),
        forall|i: int| 0 <= i < frames.len() ==> (#[trigger] frames[i]).frame_time >= 0,
        game.respawn_timer + total_time(frames) < RESPAWN_DELAY,
    ensures
        game.same_play(game.run(frames, rolls)),
        game.run(frames, rolls).respawn_timer == game.respawn_timer + total_time(frames),
        !game.run(frames, rolls).in_bounds(),
        total_time(frames) >= 0,
    decreases frames.len(),
{
    if frames.len() > 0 {
        let earlier = frames.drop_last();
        lemma_shorter_run_takes_time(frames);
        lemma_total_time_grows(earlier);
        lemma_respawn_waits(game, earlier, rolls.drop_last());
    }
}

/// A run of frames that each take no time or more takes no time or more.
pub proof fn lemma_total_time_grows(frames: Seq<Frame>)
    requires
        forall|i: int| 0 <= i < frames.len() ==> (#[trigger] frames[i]).frame_time >= 0,
    ensures
        total_time(frames) >= 0,
    decreases frames.len(),
{
    if frames.len() > 0 {
        let earlier = frames.drop_last();
        lemma_shorter_run_takes_time(frames);
        lemma_total_time_grows(earlier);
    }
}

/// The update with which the delay is over brings the ball back, once:
/// the timer is 0 again and the ball is on the playfield, in the middle,
/// without a heading, so that the next update is no respawn. The last life
/// lost gives three lives, a ball larger by `RADIUS_GROWTH`, and the score
/// and the checkpoint 0.
pub proof fn lemma_respawn_resets(game: GameLoop, frame: Frame, roll: i64)
    requires
        !game.in_bounds(),
        game.respawn_timer + frame.frame_time >= RESPAWN_DELAY,
    ensures
        ({
            let after = game.stepped(frame, roll);
            &&& after.respawn_timer == 0
            &&& after.in_bounds()
            &&& after.ball.is_active
            &&& after.ball.position == (Vector2 { x: SCREEN_CENTER_X, y: SCREEN_CENTER_Y })
            &&& after.ball.prone_dir == Vector2::zero()
            &&& after.left_paddle.is_active
            &&& !after.right_paddle.is_active
            &&& after.checkpoint == ramp_threshold(after.score)
            &&& game.ball.lives <= 1 ==> {
                &&& after.ball.lives == 3
                &&& after.score == 0
                &&& after.checkpoint == 0
                &&& game.ball.radius + RADIUS_GROWTH <= i64::MAX ==> after.ball.radius
                    == game.ball.radius + RADIUS_GROWTH
            }
            &&& game.ball.lives > 1 ==> {
                &&& after.ball.lives == game.ball.lives - 1
                &&& after.score == game.checkpoint
            }
        }),
{
}

/// After a life is lost the score is the checkpoint: in a match that is as
/// it is from its start on, the respawn leaves the score at the checkpoint
/// that was reached, or at 0 with the last life, and never above it.
pub proof fn lemma_respawn_falls_back(game: GameLoop, frame_time: i64)
    requires
        game.inv(),
        game.respawn_timer + frame_time >= RESPAWN_DELAY,
    ensures
        game.respawned(frame_time).score == game.respawned(frame_time).checkpoint,
        game.ball.lives > 1 ==> game.respawned(frame_time).score == game.checkpoint,
        game.ball.lives <= 1 ==> game.respawned(frame_time).score == 0,
        game.respawned(frame_time).inv(),
{
}

/// A ball without a heading that is not steered stays where it is.
pub proof fn lemma_waiting_ball_rests(ball: Ball, frame_time: i64, input: InputData)
    requires
        ball.prone_dir == Vector2::zero(),
        input.dir == Vector2::zero(),
        ball.radius <= ball.position.y <= SCREEN_HEIGHT - ball.radius,
        ball.radius >= 0,
    ensures
        ball.updated(frame_time, input).position == ball.position,
        ball.updated(frame_time, input).velocity == Vector2::zero(),
{
    lemma_product_with_zero(0, STEER_ACROSS);
    lemma_product_with_zero(0, STEER_ALONG);
    lemma_product_with_zero(0, ball.speed);
    lemma_product_with_zero(0, frame_time);
    let velocity = ball.steered_velocity(input);
    assert(velocity == Vector2::zero());
    assert(velocity.scaled(frame_time) == Vector2::zero());
}

/// A ball in the middle of the playfield that is no larger than at the
/// start reaches neither paddle.
pub proof fn lemma_middle_is_clear(game: GameLoop)
    requires
        game.inv(),
        game.ball.position == (Vector2 { x: SCREEN_CENTER_X, y: SCREEN_CENTER_Y }),
    ensures
        !game.hits_paddle(),
{
    let reach = sum_of(game.ball.radius, HIT_TOLERANCE);
    assert(0 <= reach <= 15_800_000);
    let (left_x, left_y) = game.left_paddle.hitbox.nearest_to(game.ball.position);
    let (right_x, right_y) = game.right_paddle.hitbox.nearest_to(game.ball.position);
    lemma_far_across(SCREEN_CENTER_X - left_x, SCREEN_CENTER_Y - left_y, reach as int);
    lemma_far_across(right_x - SCREEN_CENTER_X, SCREEN_CENTER_Y - right_y, reach as int);
    assert((SCREEN_CENTER_X - right_x) * (SCREEN_CENTER_X - right_x) == (right_x
        - SCREEN_CENTER_X) * (right_x - SCREEN_CENTER_X)) by (nonlinear_arith);
}

proof fn lemma_far_across(dx: int, dy: int, reach: int)
    by (nonlinear_arith)
    requires
        0 <= reach <= 15_800_000,
        dx > 15_800_000,
    ensures
        dx * dx + dy * dy > reach * reach,
{
    assert(dx * dx > reach * reach);
    assert(dy * dy >= 0);
}

/// What holds of a match from its start on holds after the ball and the
/// paddles have moved.
pub proof fn lemma_advance_keeps_inv(
    game: GameLoop,
    frame_time: i64,
    ball_input: InputData,
    paddle_input: InputData,
)
    requires
        game.inv(),
    ensures
        game.advanced(frame_time, ball_input, paddle_input).inv(),
        game.advanced(frame_time, ball_input, paddle_input).score == game.score,
{
    let served = game.served(ball_input);
    lemma_update_contains(served.ball, frame_time, ball_input);
    if served.ball.prone_dir == Vector2::zero() {
        lemma_waiting_ball_rests(served.ball, frame_time, ball_input);
    }
    let ball = served.ball.updated(frame_time, ball_input);
    lemma_update_keeps_place(
        Paddle { player_pos: ball.position, ..game.left_paddle },
        frame_time,
        paddle_input,
    );
    lemma_update_keeps_place(
        Paddle { player_pos: ball.position, ..game.right_paddle },
        frame_time,
        paddle_input,
    );
}

/// What holds of a match from its start on holds after the ball has come
/// off a paddle that it reached, and the score is one higher.
pub proof fn lemma_paddle_bounce_keeps_inv(game: GameLoop, ball_input: InputData, roll: i64)
    requires
        game.inv(),
        game.hits_paddle(),
        game.score < i32::MAX,
    ensures
        game.paddle_bounced(ball_input, roll).inv(),
        game.paddle_bounced(ball_input, roll).score == game.score + 1,
        game.paddle_bounced(ball_input, roll).ball.prone_dir != Vector2::zero(),
{
    if game.ball.prone_dir == Vector2::zero() {
        lemma_middle_is_clear(game);
    }
}

/// What holds of a match from its start on holds after a ball with a
/// heading has come off the top or the bottom.
pub proof fn lemma_edge_bounce_keeps_inv(game: GameLoop, ball_input: InputData)
    requires
        game.inv(),
        game.ball.prone_dir != Vector2::zero(),
    ensures
        game.edge_bounced(ball_input).inv(),
        game.edge_bounced(ball_input).score == game.score,
{
}

/// What holds of a match from its start on holds while the ball is off
/// the playfield and when it comes back.
pub proof fn lemma_respawn_keeps_inv(game: GameLoop, frame_time: i64)
    requires
        game.inv(),
        frame_time >= 0,
    ensures
        game.respawned(frame_time).inv(),
        game.respawned(frame_time).score <= game.score,
{
}

/// What holds of a match from its start on holds after every update with
/// a frame time that is not negative: among the rest, the checkpoint is
/// the greatest threshold not above the score.
pub proof fn lemma_step_keeps_inv(game: GameLoop, frame: Frame, roll: i64)
    requires
        game.inv(),
        game.in_bounds() ==> game.score < i32::MAX,
        frame.frame_time >= 0,
    ensures
        game.can_step(),
        game.stepped(frame, roll).inv(),
        game.stepped(frame, roll).score <= game.score + 1,
{
    let sampled = game.sampled(frame);
    assert(sampled.inv());
    if !game.in_bounds() {
        lemma_respawn_keeps_inv(sampled, frame.frame_time);
    } else {
        let ball_input = sampled.ball_input.last_data;
        let paddle_input = sampled.paddle_input.last_data;
        lemma_advance_keeps_inv(sampled, frame.frame_time, ball_input, paddle_input);
        let advanced = sampled.advanced(frame.frame_time, ball_input, paddle_input);
        let after_paddle = if advanced.hits_paddle() {
            advanced.paddle_bounced(ball_input, roll)
        } else {
            advanced
        };
        if advanced.hits_paddle() {
            lemma_paddle_bounce_keeps_inv(advanced, ball_input, roll);
        }
        if advanced.hits_edge() {
            lemma_edge_bounce_keeps_inv(after_paddle, ball_input);
        }
    }
}

/// The same over a whole run of updates, as long as the score can be
/// counted.
pub proof fn lemma_run_keeps_inv(game: GameLoop, frames: Seq<Frame>, rolls: Seq<i64>)
    requires
        game.inv(),
        game.score + frames.len() < i32::MAX,
        frames.len() == rolls.len(),
        forall|i: int| 0 <= i < frames.len() ==> (#[trigger] frames[i]).frame_time >= 0,
    ensures
        game.run(frames, rolls).inv(),
        game.run(frames, rolls).score <= game.score + frames.len(),
        game.run(frames, rolls).checkpoint == ramp_threshold(game.run(frames, rolls).score),
    decreases frames.len(),
{
    if frames.len() > 0 {
        let earlier = frames.drop_last();
        let earlier_rolls = rolls.drop_last();
        lemma_shorter_run_takes_time(frames);
        lemma_run_keeps_inv(game, earlier, earlier_rolls);
        lemma_step_keeps_inv(game.run(earlier, earlier_rolls), frames.last(), rolls.last());
    }
}

/// Applying the ramp twice gives what applying it once gives.
pub proof fn lemma_ramp_is_idempotent(game: GameLoop)
    ensures
        game.ramped().ramped() == game.ramped(),
        game.inv() ==> game.ramped() == game,
{
}

} // verus!
