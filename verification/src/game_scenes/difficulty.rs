//! The difficulty ramp: from the score to the speeds and the paddles' view.

use vstd::prelude::*;
use crate::shapes::Color;

verus! {

/// What the ramp sets at one of its thresholds. The speed and the view
/// range hold for both paddles.
#[derive(Clone, Copy, Debug, PartialEq, Eq, Structural)]
pub struct Difficulty {
    pub checkpoint: i32,
    pub score_color: Color,
    pub ball_speed: i64,
    pub paddle_speed: i64,
    pub paddle_view_range: i64,
}

/// The greatest threshold of the ramp that is not above the score.
pub open spec fn ramp_threshold(score: i32) -> i32 {
    if score >= 75 {
        75
    } else if score >= 50 {
        50
    } else if score >= 25 {
        25
    } else if score >= 10 {
        10
    } else {
        0
    }
}

/// Whether `value` is one of the thresholds of the ramp.
pub open spec fn is_threshold(value: i32) -> bool {
    value == 0 || value == 10 || value == 25 || value == 50 || value == 75
}

/// The settings at a score: those of the greatest threshold not above it.
pub open spec fn ramp(score: i32) -> Difficulty {
    let checkpoint = ramp_threshold(score);
    if checkpoint == 75 {
        Difficulty {
            checkpoint,
            score_color: Color::red(),
            ball_speed: 500_000_000,
            paddle_speed: 250_000_000,
            paddle_view_range: 300_000,
        }
    } else if checkpoint == 50 {
        Difficulty {
            checkpoint,
            score_color: Color::gold(),
            ball_speed: 450_000_000,
            paddle_speed: 300_000_000,
            paddle_view_range: 375_000,
        }
    } else if checkpoint == 25 {
        Difficulty {
            checkpoint,
            score_color: Color::yellow(),
            ball_speed: 425_000_000,
            paddle_speed: 400_000_000,
            paddle_view_range: 400_000,
        }
    } else if checkpoint == 10 {
        Difficulty {
            checkpoint,
            score_color: Color::green(),
            ball_speed: 375_000_000,
            paddle_speed: 450_000_000,
            paddle_view_range: 500_000,
        }
    } else {
        Difficulty {
            checkpoint,
            score_color: Color::dark_green(),
            ball_speed: 315_000_000,
            paddle_speed: 500_000_000,
            paddle_view_range: 500_000,
        }
    }
}

#[verifier::when_used_as_spec(ramp)]
pub fn difficulty_for(score: i32) -> (settings: Difficulty)
    ensures
        settings == ramp(score),
        settings.checkpoint == ramp_threshold(score),
        settings.paddle_speed >= 0,
{
    if score >= 75 {
        Difficulty {
            checkpoint: 75,
            score_color: Color::red(),
            ball_speed: 500_000_000,
            paddle_speed: 250_000_000,
            paddle_view_range: 300_000,
        }
    } else if score >= 50 {
        Difficulty {
            checkpoint: 50,
            score_color: Color::gold(),
            ball_speed: 450_000_000,
            paddle_speed: 300_000_000,
            paddle_view_range: 375_000,
        }
    } else if score >= 25 {
        Difficulty {
            checkpoint: 25,
            score_color: Color::yellow(),
            ball_speed: 425_000_000,
            paddle_speed: 400_000_000,
            paddle_view_range: 400_000,
        }
    } else if score >= 10 {
        Difficulty {
            checkpoint: 10,
            score_color: Color::green(),
            ball_speed: 375_000_000,
            paddle_speed: 450_000_000,
            paddle_view_range: 500_000,
        }
    } else {
        Difficulty {
            checkpoint: 0,
            score_color: Color::dark_green(),
            ball_speed: 315_000_000,
            paddle_speed: 500_000_000,
            paddle_view_range: 500_000,
        }
    }
}

/// The threshold of a score is a threshold, is not above a score that is
/// not negative, and no threshold lies between the two.
pub proof fn lemma_threshold_is_greatest(score: i32, other: i32)
    requires
        is_threshold(other),
        other <= score,
    ensures
        is_threshold(ramp_threshold(score)),
        ramp_threshold(score) <= score,
        other <= ramp_threshold(score),
{
}

/// The settings at a threshold are those at every score that has this
/// threshold: between thresholds nothing changes.
pub proof fn lemma_ramp_keeps_between(score: i32)
    ensures
        ramp(ramp_threshold(score)) == ramp(score),
        ramp_threshold(ramp_threshold(score)) == ramp_threshold(score),
{
}

} // verus!
