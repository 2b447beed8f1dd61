use pong2::fixed::ONE;
use pong2::game_objects::{PADDLE_HEIGHT, PADDLE_PADDING, PADDLE_WIDTH};
use pong2::game_scenes::difficulty::{difficulty_for, Difficulty};
use pong2::game_scenes::game_loop::{
    ANGLE_MAX, ANGLE_MIN, BALL_RADIUS, PADDLE_HOME, RADIUS_GROWTH, RADIUS_SHRINK, RESPAWN_DELAY,
    RIGHT_PADDLE_X,
};
use pong2::game_scenes::{Frame, GameLoop, GameMode};
use pong2::input_system::{DeviceReading, InputData, InputDevice, KeyboardInput};
use pong2::shapes::{Color, Rectangle, Vector2};
use pong2::utils::{SCREEN_HEIGHT, SCREEN_WIDTH};

const FRAME: i64 = 16_667;

fn devices() -> (InputDevice, InputDevice) {
    (
        InputDevice::Keyboard(KeyboardInput::new(true)),
        InputDevice::Keyboard(KeyboardInput::new(false)),
    )
}

fn new_game(mode: GameMode) -> GameLoop {
    GameLoop::new(mode, devices(), 12)
}

fn keys(right: bool, left: bool, down: bool, up: bool) -> DeviceReading {
    DeviceReading { buttons: [right, left, down, up], axis: Vector2::zero() }
}

fn idle_frame(now: i64) -> Frame {
    Frame {
        now,
        frame_time: FRAME,
        ball_reading: keys(false, false, false, false),
        paddle_reading: keys(false, false, false, false),
        toggle_debug: false,
    }
}

fn no_input() -> InputData {
    InputData::new(1)
}

fn one_paddle_active(game: &GameLoop) -> bool {
    game.left_paddle.is_active != game.right_paddle.is_active
}

#[test]
fn new_match_starts_in_the_middle_with_the_left_paddle_to_return() {
    let game = new_game(GameMode::Singleplayer);
    assert_eq!(game.score, 0);
    assert_eq!(game.checkpoint, 0);
    assert_eq!(game.hiscore, 12);
    assert_eq!(game.respawn_timer, 0);
    assert_eq!(game.score_color, Color::dark_green());
    assert!(game.is_active());
    assert!(!game.debug_mode);
    assert!(!game.bounced_vertically);
    assert_eq!(game.game_mode, GameMode::Singleplayer);
    assert_eq!(game.ball.position, Vector2::new(320 * ONE, 240 * ONE));
    assert_eq!(game.ball.radius, 10_800_000);
    assert_eq!(game.ball.speed, 315 * ONE);
    assert_eq!(game.ball.lives, 3);
    assert_eq!(game.ball.prone_dir, Vector2::zero());
    assert_eq!(game.ball.colors[0], Color::new(188, 212, 230, 150));
    assert_eq!(game.ball.colors[1], Color::new(137, 207, 240, 150));
    assert_eq!(game.ball.colors[2], Color::new(10, 255, 255, 150));
    assert_eq!(game.left_paddle.position, Vector2::new(20 * ONE, 207_500_000));
    assert_eq!(game.right_paddle.position, Vector2::new(609 * ONE, 207_500_000));
    assert_eq!(game.left_paddle.hitbox, Rectangle::new(20 * ONE, 207_500_000, 11 * ONE, 65 * ONE));
    assert_eq!(game.right_paddle.hitbox, Rectangle::new(609 * ONE, 207_500_000, 11 * ONE, 65 * ONE));
    assert_eq!(game.left_paddle.colors[0], Color::new(255, 105, 97, 130));
    assert_eq!(game.left_paddle.colors[1], Color::new(255, 40, 0, 130));
    assert_eq!(game.left_paddle.speed, 500 * ONE);
    assert_eq!(game.right_paddle.view_range, ONE / 2);
    assert!(game.left_paddle.is_active);
    assert!(!game.right_paddle.is_active);
    assert!(!game.left_paddle.player_controlled);
    assert!(!game.right_paddle.player_controlled);
    assert_eq!(game.ball_input.id, 0);
    assert_eq!(game.ball_input.input_snapness, 3 * ONE);
    assert!(game.ball_input.first_input_socd);
    assert_eq!(game.paddle_input.id, 1);
    assert_eq!(game.paddle_input.input_snapness, 7 * ONE);
    assert!(!game.paddle_input.first_input_socd);
    assert_eq!(PADDLE_HOME, SCREEN_HEIGHT / 2 - PADDLE_HEIGHT / 2);
    assert_eq!(RIGHT_PADDLE_X, SCREEN_WIDTH - PADDLE_WIDTH - PADDLE_PADDING);
}

#[test]
fn paddles_are_steered_in_a_match_for_two() {
    let game = new_game(GameMode::Multiplayer);
    assert!(game.left_paddle.player_controlled);
    assert!(game.right_paddle.player_controlled);
    assert_eq!(game.game_mode, GameMode::Multiplayer);
}

#[test]
fn ramp_has_its_settings_at_each_threshold() {
    let at = |score: i32| difficulty_for(score);
    assert_eq!(
        at(0),
        Difficulty {
            checkpoint: 0,
            score_color: Color::dark_green(),
            ball_speed: 315 * ONE,
            paddle_speed: 500 * ONE,
            paddle_view_range: 500_000,
        }
    );
    assert_eq!(
        at(10),
        Difficulty {
            checkpoint: 10,
            score_color: Color::green(),
            ball_speed: 375 * ONE,
            paddle_speed: 450 * ONE,
            paddle_view_range: 500_000,
        }
    );
    assert_eq!(
        at(25),
        Difficulty {
            checkpoint: 25,
            score_color: Color::yellow(),
            ball_speed: 425 * ONE,
            paddle_speed: 400 * ONE,
            paddle_view_range: 400_000,
        }
    );
    assert_eq!(
        at(50),
        Difficulty {
            checkpoint: 50,
            score_color: Color::gold(),
            ball_speed: 450 * ONE,
            paddle_speed: 300 * ONE,
            paddle_view_range: 375_000,
        }
    );
    assert_eq!(
        at(75),
        Difficulty {
            checkpoint: 75,
            score_color: Color::red(),
            ball_speed: 500 * ONE,
            paddle_speed: 250 * ONE,
            paddle_view_range: 300_000,
        }
    );
}

#[test]
fn ramp_keeps_its_settings_between_thresholds() {
    assert_eq!(difficulty_for(9), difficulty_for(0));
    assert_eq!(difficulty_for(-3), difficulty_for(0));
    assert_eq!(difficulty_for(24), difficulty_for(10));
    assert_eq!(difficulty_for(49), difficulty_for(25));
    assert_eq!(difficulty_for(74), difficulty_for(50));
    assert_eq!(difficulty_for(i32::MAX), difficulty_for(75));
    assert_ne!(difficulty_for(9), difficulty_for(10));
}

#[test]
fn applying_the_ramp_twice_changes_nothing_more() {
    for score in [0, 7, 10, 25, 33, 50, 75, 400] {
        let mut game = new_game(GameMode::Singleplayer);
        game.score = score;
        game.update_difficulty();
        let once = (
            game.checkpoint,
            game.score_color,
            game.ball.speed,
            game.left_paddle.speed,
            game.right_paddle.speed,
            game.left_paddle.view_range,
            game.right_paddle.view_range,
        );
        game.update_difficulty();
        let twice = (
            game.checkpoint,
            game.score_color,
            game.ball.speed,
            game.left_paddle.speed,
            game.right_paddle.speed,
            game.left_paddle.view_range,
            game.right_paddle.view_range,
        );
        assert_eq!(once, twice);
        assert_eq!(game.score, score);
    }
}

#[test]
fn update_difficulty_sets_the_checkpoint_and_both_paddles() {
    let mut game = new_game(GameMode::Singleplayer);
    game.score = 60;
    game.update_difficulty();
    assert_eq!(game.checkpoint, 50);
    assert_eq!(game.score_color, Color::gold());
    assert_eq!(game.ball.speed, 450 * ONE);
    assert_eq!(game.left_paddle.speed, 300 * ONE);
    assert_eq!(game.right_paddle.speed, 300 * ONE);
    assert_eq!(game.left_paddle.view_range, 375_000);
    assert_eq!(game.right_paddle.view_range, 375_000);
}

#[test]
fn paddle_bounce_at_screen_center() {
    let mut game = new_game(GameMode::Singleplayer);
    game.ball.position = Vector2::new(100 * ONE, 240 * ONE);
    game.ball.prone_dir = Vector2::new(-ONE, 0);
    let left_before = game.left_paddle.is_active;
    let right_before = game.right_paddle.is_active;
    let mut now: i64 = 1;
    while game.score == 0 && now < 120 {
        let before = game.ball.position.x;
        let record = game.update_with(&idle_frame(now), 700_000);
        assert_eq!(record, None);
        if game.score == 0 {
            assert!(game.ball.position.x < before);
            assert_eq!(game.ball.prone_dir, Vector2::new(-ONE, 0));
            assert_eq!(game.left_paddle.is_active, left_before);
        }
        now += 1;
    }
    assert_eq!(game.score, 1);
    assert_eq!(game.ball.prone_dir.x, ONE);
    assert_eq!(game.ball.prone_dir.y, 700_000);
    assert!(
        game.ball.position.x >= game.left_paddle.position.x + PADDLE_WIDTH + game.ball.radius
    );
    assert!(game.ball.position.x <= 20 * ONE + 11 * ONE + 10_800_000 + 5 * ONE);
    assert_eq!(game.left_paddle.is_active, !left_before);
    assert_eq!(game.right_paddle.is_active, !right_before);
    assert!(one_paddle_active(&game));
    assert!(!game.bounced_vertically);
    assert_eq!(game.ball_input.last_data.dir, Vector2::zero());
    assert_eq!(game.checkpoint, 0);
}

#[test]
fn ball_overlapping_a_paddle_is_set_clear_of_it() {
    let mut game = new_game(GameMode::Singleplayer);
    game.ball.position = Vector2::new(25 * ONE, 240 * ONE);
    game.ball.prone_dir = Vector2::new(-ONE, -300_000);
    game.paddle_bounce_with(&no_input(), 500_000);
    assert_eq!(game.ball.position, Vector2::new(41_800_000, 240 * ONE));
    assert_eq!(game.ball.prone_dir, Vector2::new(ONE, -500_000));
    assert_eq!(game.score, 1);
    let mut game = new_game(GameMode::Singleplayer);
    game.ball.position = Vector2::new(615 * ONE, 100 * ONE);
    game.ball.prone_dir = Vector2::new(ONE, 300_000);
    game.paddle_bounce_with(&no_input(), 500_000);
    // 609 - 11 - 10.8
    assert_eq!(game.ball.position, Vector2::new(587_200_000, 100 * ONE));
    assert_eq!(game.ball.prone_dir, Vector2::new(-ONE, 500_000));
}

#[test]
fn angle_off_a_paddle_takes_its_sign_from_the_player_or_the_heading() {
    let mut steer_up = no_input();
    steer_up.raw_dir = Vector2::new(0, -ONE);
    // The player steers up: up.
    let mut game = new_game(GameMode::Singleplayer);
    game.ball.prone_dir = Vector2::new(-ONE, 300_000);
    game.paddle_bounce_with(&steer_up, 600_000);
    assert_eq!(game.ball.prone_dir.y, -600_000);
    // After a bounce off the top or the bottom the heading decides.
    let mut game = new_game(GameMode::Singleplayer);
    game.ball.prone_dir = Vector2::new(-ONE, 300_000);
    game.bounced_vertically = true;
    game.paddle_bounce_with(&steer_up, 600_000);
    assert_eq!(game.ball.prone_dir.y, 600_000);
    assert!(!game.bounced_vertically);
    // Without steering up or down the heading decides.
    let mut game = new_game(GameMode::Singleplayer);
    game.ball.prone_dir = Vector2::new(-ONE, -300_000);
    game.paddle_bounce_with(&no_input(), 600_000);
    assert_eq!(game.ball.prone_dir.y, -600_000);
}

#[test]
fn angle_off_a_paddle_is_wider_near_the_top_and_the_bottom() {
    let mut game = new_game(GameMode::Singleplayer);
    game.ball.position = Vector2::new(40 * ONE, 83_800_000);
    game.ball.prone_dir = Vector2::new(-ONE, 0);
    game.paddle_bounce_with(&no_input(), 700_000);
    assert_eq!(game.ball.prone_dir.y, 1_050_000);
    let mut game = new_game(GameMode::Singleplayer);
    game.ball.position = Vector2::new(40 * ONE, 83_800_001);
    game.ball.prone_dir = Vector2::new(-ONE, 0);
    game.paddle_bounce_with(&no_input(), 700_000);
    assert_eq!(game.ball.prone_dir.y, 700_000);
    let mut game = new_game(GameMode::Singleplayer);
    // 480 - 10.8 - 73
    game.ball.position = Vector2::new(40 * ONE, 396_200_000);
    game.ball.prone_dir = Vector2::new(-ONE, 0);
    game.paddle_bounce_with(&no_input(), 700_000);
    assert_eq!(game.ball.prone_dir.y, 1_050_000);
}

#[test]
fn next_return_passes_from_paddle_to_paddle() {
    let mut game = new_game(GameMode::Singleplayer);
    let mut left_active = game.left_paddle.is_active;
    for bounce in 0..40 {
        game.paddle_bounce_with(&no_input(), ANGLE_MIN + bounce);
        assert!(one_paddle_active(&game));
        assert_eq!(game.left_paddle.is_active, !left_active);
        left_active = game.left_paddle.is_active;
        assert_eq!(game.score, bounce as i32 + 1);
    }
}

#[test]
fn drawn_angle_is_in_its_range_and_changes() {
    let mut seen_low = false;
    let mut seen_high = false;
    for _ in 0..400 {
        let mut game = new_game(GameMode::Singleplayer);
        game.ball.prone_dir = Vector2::new(-ONE, 0);
        game.paddle_bounce(&no_input());
        let angle = game.ball.prone_dir.y;
        assert!(ANGLE_MIN <= angle && angle < ANGLE_MAX);
        assert_eq!(game.ball.prone_dir.x, ONE);
        assert_eq!(game.score, 1);
        assert!(!game.left_paddle.is_active && game.right_paddle.is_active);
        if angle < 650_000 {
            seen_low = true;
        }
        if angle > 800_000 {
            seen_high = true;
        }
    }
    assert!(seen_low && seen_high);
}

#[test]
fn score_reaches_the_checkpoints_of_the_ramp() {
    let mut game = new_game(GameMode::Singleplayer);
    let thresholds = [0, 10, 25, 50, 75];
    for _ in 0..90 {
        game.paddle_bounce_with(&no_input(), 500_000);
        let greatest = thresholds.iter().rev().find(|t| **t <= game.score).unwrap();
        assert_eq!(game.checkpoint, *greatest);
        assert_eq!(game.ball.speed, difficulty_for(game.score).ball_speed);
        assert_eq!(game.left_paddle.speed, difficulty_for(game.score).paddle_speed);
        assert_eq!(game.right_paddle.view_range, difficulty_for(game.score).paddle_view_range);
        assert_eq!(game.score_color, difficulty_for(game.score).score_color);
    }
    assert_eq!(game.score, 90);
    assert_eq!(game.checkpoint, 75);
}

#[test]
fn edge_bounce_sends_the_ball_away_from_the_edge() {
    let mut sample = no_input();
    sample.dir = Vector2::new(600_000, -400_000);
    let mut game = new_game(GameMode::Singleplayer);
    game.ball.prone_dir = Vector2::new(-ONE, -700_000);
    game.ball.velocity = Vector2::new(-200 * ONE, -150 * ONE);
    game.edge_bounce(&sample);
    // The share 0.6 steepened is 0.429102; the ball went up, so it comes down.
    assert_eq!(game.ball.prone_dir, Vector2::new(-ONE, 429_102));
    assert!(game.bounced_vertically);
    assert_eq!(game.ball_input.last_data.dir, Vector2::new(300_000, 0));
    assert_eq!(game.score, 0);
    let mut game = new_game(GameMode::Singleplayer);
    game.ball.prone_dir = Vector2::new(ONE, 900_000);
    game.ball.velocity = Vector2::new(-100 * ONE, 300 * ONE);
    game.edge_bounce(&sample);
    assert_eq!(game.ball.prone_dir, Vector2::new(ONE, -550_000));
}

#[test]
fn edge_bounce_of_a_ball_at_rest_takes_the_least_angle() {
    let mut game = new_game(GameMode::Singleplayer);
    game.ball.velocity = Vector2::zero();
    game.edge_bounce(&no_input());
    assert_eq!(game.ball.prone_dir.y, -400_000);
    let mut game = new_game(GameMode::Singleplayer);
    game.ball.velocity = Vector2::new(-300 * ONE, 0);
    game.edge_bounce(&no_input());
    assert_eq!(game.ball.prone_dir.y, -400_000);
}

#[test]
fn ball_against_the_top_bounces_in_an_update() {
    let mut game = new_game(GameMode::Singleplayer);
    game.ball.position = Vector2::new(320 * ONE, 12 * ONE);
    game.ball.prone_dir = Vector2::new(-ONE, -ONE);
    game.update_with(&idle_frame(1), 700_000);
    assert_eq!(game.ball.position.y, game.ball.radius);
    assert!(game.bounced_vertically);
    // The ball went up and across alike: the share 0.707106 steepened is above the range.
    assert_eq!(game.ball.prone_dir, Vector2::new(-ONE, 550_000));
    assert_eq!(game.score, 0);
}

#[test]
fn collisions_with_a_paddle_and_an_edge_are_both_resolved() {
    let mut game = new_game(GameMode::Singleplayer);
    game.left_paddle.position.y = 0;
    game.left_paddle.hitbox.y = 0;
    game.ball.position = Vector2::new(40 * ONE, game.ball.radius);
    game.ball.prone_dir = Vector2::new(-ONE, -500_000);
    game.ball.velocity = Vector2::new(-200 * ONE, -150 * ONE);
    let mut sample = no_input();
    sample.dir = Vector2::new(-800_000, 0);
    game.check_ball_collisions_with(&sample, 600_000);
    assert_eq!(game.score, 1);
    assert_eq!(game.ball.prone_dir, Vector2::new(ONE, 429_102));
    assert!(game.bounced_vertically);
    assert_eq!(game.ball_input.last_data.dir, Vector2::new(-400_000, 0));
    assert!(!game.left_paddle.is_active && game.right_paddle.is_active);
}

#[test]
fn ball_clear_of_everything_collides_with_nothing() {
    let mut game = new_game(GameMode::Singleplayer);
    game.ball.prone_dir = Vector2::new(-ONE, 200_000);
    game.check_ball_collisions_with(&no_input(), 600_000);
    assert_eq!(game.score, 0);
    assert_eq!(game.ball.prone_dir, Vector2::new(-ONE, 200_000));
    assert!(!game.bounced_vertically);
    assert!(game.left_paddle.is_active && !game.right_paddle.is_active);
    game.check_ball_collisions(&no_input());
    assert_eq!(game.score, 0);
    assert_eq!(game.ball.prone_dir, Vector2::new(-ONE, 200_000));
}

#[test]
fn ball_waits_for_the_first_input_to_be_served() {
    let mut game = new_game(GameMode::Singleplayer);
    for now in 1..10 {
        game.update_with(&idle_frame(now), 700_000);
        assert_eq!(game.ball.prone_dir, Vector2::zero());
        assert_eq!(game.ball.position, Vector2::new(320 * ONE, 240 * ONE));
    }
    let mut frame = idle_frame(10);
    frame.ball_reading = keys(false, false, true, false);
    game.update(&frame);
    assert_eq!(game.ball.prone_dir, Vector2::new(-ONE, 0));
    assert!(game.ball.position.x < 320 * ONE);
    assert!(game.ball.position.y > 240 * ONE);
    assert_eq!(game.left_paddle.player_pos, game.ball.position);
    assert_eq!(game.right_paddle.player_pos, game.ball.position);
}

#[test]
fn update_samples_both_players_and_toggles_the_debug_view() {
    let mut game = new_game(GameMode::Multiplayer);
    let mut frame = idle_frame(3);
    frame.ball_reading = keys(true, false, false, false);
    frame.paddle_reading = keys(false, false, false, true);
    frame.toggle_debug = true;
    game.update_with(&frame, 700_000);
    assert!(game.debug_mode);
    assert_eq!(game.ball_input.last_data.sample_time, 3);
    assert_eq!(game.ball_input.last_data.raw_dir, Vector2::new(ONE, 0));
    assert_eq!(game.ball_input.last_data.dir, Vector2::new(50_001, 0));
    assert_eq!(game.paddle_input.last_data.raw_dir, Vector2::new(0, -ONE));
    // 7.0 * 0.016667 = 0.116669
    assert_eq!(game.paddle_input.last_data.dir, Vector2::new(0, -116_669));
    // The left paddle is to return and is steered up.
    assert!(game.left_paddle.velocity < 0);
    assert_eq!(game.right_paddle.velocity, 0);
    frame.toggle_debug = false;
    game.update_with(&frame, 700_000);
    assert!(game.debug_mode);
    frame.now = 4;
    frame.toggle_debug = true;
    game.update_with(&frame, 700_000);
    assert!(!game.debug_mode);
}

#[test]
fn total_life_loss() {
    let mut game = new_game(GameMode::Singleplayer);
    game.ball.lives = 1;
    game.ball.radius = 9_200_000;
    game.ball.position = Vector2::new(-5 * ONE, 100 * ONE);
    game.ball.prone_dir = Vector2::new(-ONE, 300_000);
    game.score = 30;
    game.update_difficulty();
    assert_eq!(game.checkpoint, 25);
    let radius_before = game.ball.radius;
    let mut record = None;
    let mut now: i64 = 1;
    let mut elapsed: i64 = 0;
    while elapsed < RESPAWN_DELAY {
        assert_eq!(game.ball.lives, 1);
        record = game.update_with(&idle_frame(now), 700_000);
        elapsed += FRAME;
        now += 1;
    }
    assert_eq!(now, 61);
    assert_eq!(game.ball.lives, 3);
    assert_eq!(game.ball.radius, radius_before + RADIUS_GROWTH);
    assert_eq!(game.ball.radius, BALL_RADIUS);
    assert_eq!(game.checkpoint, 0);
    assert_eq!(game.score, 0);
    assert_eq!(record, Some(30));
    assert_eq!(game.hiscore, 30);
    assert_eq!(game.respawn_timer, 0);
    assert_eq!(game.ball.position, Vector2::new(320 * ONE, 240 * ONE));
    assert_eq!(game.ball.prone_dir, Vector2::zero());
    assert!(game.ball.is_active);
    assert!(game.left_paddle.is_active && !game.right_paddle.is_active);
    assert_eq!(game.ball.speed, 315 * ONE);
    assert_eq!(game.left_paddle.speed, 500 * ONE);
    assert_eq!(game.score_color, Color::dark_green());
}

#[test]
fn nothing_but_the_timer_moves_before_the_respawn() {
    let mut game = new_game(GameMode::Singleplayer);
    game.ball.position = Vector2::new(641 * ONE, 100 * ONE);
    game.ball.velocity = Vector2::new(300 * ONE, 20 * ONE);
    game.ball.prone_dir = Vector2::new(ONE, 300_000);
    game.left_paddle.position.y = 50 * ONE;
    game.left_paddle.hitbox.y = 50 * ONE;
    game.score = 17;
    game.update_difficulty();
    let ball = game.ball;
    let left = game.left_paddle;
    let right = game.right_paddle;
    for step in 1..60 {
        let mut frame = idle_frame(step);
        frame.ball_reading = keys(true, false, true, false);
        frame.paddle_reading = keys(false, false, false, true);
        let record = game.update_with(&frame, 700_000);
        assert_eq!(record, None);
        assert_eq!(game.respawn_timer, step * FRAME);
        assert!(!game.ball.is_active);
        assert_eq!(game.ball.position, ball.position);
        assert_eq!(game.ball.velocity, ball.velocity);
        assert_eq!(game.ball.prone_dir, ball.prone_dir);
        assert_eq!(game.ball.lives, 3);
        assert_eq!(game.ball.radius, ball.radius);
        assert_eq!(game.left_paddle.position, left.position);
        assert_eq!(game.left_paddle.is_active, left.is_active);
        assert_eq!(game.right_paddle.position, right.position);
        assert_eq!(game.score, 17);
        assert_eq!(game.checkpoint, 10);
        assert_eq!(game.hiscore, 12);
    }
    // 59 frames make 0.983353 s; the next one completes the delay.
    let record = game.update_with(&idle_frame(60), 700_000);
    assert_eq!(record, Some(17));
    assert_eq!(game.respawn_timer, 0);
    assert_eq!(game.ball.lives, 2);
    assert_eq!(game.ball.radius, ball.radius - RADIUS_SHRINK);
    assert_eq!(game.score, 10);
    assert_eq!(game.checkpoint, 10);
    assert_eq!(game.hiscore, 17);
    assert_eq!(game.ball.position, Vector2::new(320 * ONE, 240 * ONE));
    assert_eq!(game.left_paddle.position.y, PADDLE_HOME);
    assert_eq!(game.left_paddle.hitbox.y, PADDLE_HOME);
    assert_eq!(game.right_paddle.position.y, PADDLE_HOME);
    assert_eq!(game.ball_input.last_data.dir, Vector2::zero());
    // The ball is back: the next update is no respawn.
    game.update_with(&idle_frame(61), 700_000);
    assert_eq!(game.ball.lives, 2);
    assert_eq!(game.respawn_timer, 0);
    assert_eq!(game.score, 10);
}

#[test]
fn respawn_is_due_at_exactly_one_second() {
    let mut game = new_game(GameMode::Singleplayer);
    game.ball.position.x = -1;
    assert_eq!(game.respawn_player(RESPAWN_DELAY - 1), None);
    assert_eq!(game.respawn_timer, RESPAWN_DELAY - 1);
    assert_eq!(game.ball.lives, 3);
    assert_eq!(game.respawn_player(1), None);
    assert_eq!(game.respawn_timer, 0);
    assert_eq!(game.ball.lives, 2);
}

#[test]
fn ball_on_the_border_is_on_the_playfield() {
    let mut game = new_game(GameMode::Singleplayer);
    game.ball.position.x = 0;
    game.update_with(&idle_frame(1), 700_000);
    assert!(game.ball.is_active);
    assert_eq!(game.respawn_timer, 0);
    game.ball.position.x = SCREEN_WIDTH;
    game.update_with(&idle_frame(2), 700_000);
    assert!(game.ball.is_active);
    assert_eq!(game.respawn_timer, 0);
    game.ball.position.x = SCREEN_WIDTH + 1;
    game.update_with(&idle_frame(3), 700_000);
    assert!(!game.ball.is_active);
    assert_eq!(game.respawn_timer, FRAME);
}

#[test]
fn score_falls_back_to_the_checkpoint_with_each_life() {
    let mut game = new_game(GameMode::Singleplayer);
    for _ in 0..27 {
        game.paddle_bounce_with(&no_input(), 500_000);
    }
    assert_eq!((game.score, game.checkpoint), (27, 25));
    game.ball.position.x = -ONE;
    assert_eq!(game.respawn_player(RESPAWN_DELAY), Some(27));
    assert_eq!((game.score, game.checkpoint, game.ball.lives), (25, 25, 2));
    assert_eq!(game.ball.radius, 10_000_000);
    assert_eq!(game.ball.speed, 425 * ONE);
    game.paddle_bounce_with(&no_input(), 500_000);
    assert_eq!((game.score, game.checkpoint), (26, 25));
    assert_eq!(game.respawn_player(RESPAWN_DELAY), None);
    assert_eq!((game.score, game.checkpoint, game.ball.lives), (25, 25, 1));
    assert_eq!(game.ball.radius, 9_200_000);
    assert_eq!(game.hiscore, 27);
    assert_eq!(game.respawn_player(RESPAWN_DELAY), None);
    assert_eq!((game.score, game.checkpoint, game.ball.lives), (0, 0, 3));
    assert_eq!(game.ball.radius, 10_800_000);
    assert_eq!(game.ball.speed, 315 * ONE);
    assert_eq!(game.hiscore, 27);
}

#[test]
fn long_play_keeps_the_match_as_it_should_be() {
    let mut game = new_game(GameMode::Singleplayer);
    let thresholds = [0, 10, 25, 50, 75];
    let mut bounces = 0;
    for now in 1..6000i64 {
        let mut frame = idle_frame(now);
        let down = (now / 45) % 2 == 0;
        frame.ball_reading = keys(false, now % 7 == 0, down, !down);
        let score_before = game.score;
        let left_before = game.left_paddle.is_active;
        game.update(&frame);
        if game.score == score_before + 1 {
            bounces += 1;
            assert_eq!(game.left_paddle.is_active, !left_before);
        }
        assert!(one_paddle_active(&game));
        assert!(1 <= game.ball.lives && game.ball.lives <= 3);
        assert_eq!(game.ball.radius, BALL_RADIUS - RADIUS_SHRINK * (3 - game.ball.lives as i64));
        assert!(game.ball.radius <= game.ball.position.y);
        assert!(game.ball.position.y <= SCREEN_HEIGHT - game.ball.radius);
        let greatest = thresholds.iter().rev().find(|t| **t <= game.score).unwrap();
        assert_eq!(game.checkpoint, *greatest);
        assert_eq!(game.left_paddle.hitbox.y, game.left_paddle.position.y);
        assert_eq!(game.right_paddle.hitbox.y, game.right_paddle.position.y);
        assert!(0 <= game.left_paddle.position.y && game.left_paddle.position.y <= SCREEN_HEIGHT);
        assert!(0 <= game.respawn_timer && game.respawn_timer < RESPAWN_DELAY);
        if game.ball.prone_dir == Vector2::zero() {
            assert_eq!(game.ball.position, Vector2::new(320 * ONE, 240 * ONE));
        } else {
            assert!(game.ball.prone_dir.x == ONE || game.ball.prone_dir.x == -ONE);
        }
    }
    assert!(bounces > 0);
}
