use pong::{
    contact_spin, Ball, BallOffScreen, CurveDir, MoveDirection, PlayerId, Rgb, Surface,
};
use std::time::Duration;

const ARENA_WIDTH: f32 = 16.0;
const ARENA_HEIGHT: f32 = 9.0;
const BALL_SIZE: f32 = 0.02 * ARENA_HEIGHT;
const BALL_OFF_SCREEN_X_MAG: f32 = (ARENA_WIDTH / 2f32) - (BALL_SIZE / 2f32);

fn off_screen_at(paused: bool, x: f32) -> Option<BallOffScreen> {
    let mut ball = Ball::new();
    if !paused {
        ball.start();
    }
    ball.off_screen(x.abs() > BALL_OFF_SCREEN_X_MAG, x.is_sign_positive())
}

#[test]
fn test_ball_off_screen_sys_paused() {
    assert_eq!(off_screen_at(true, BALL_OFF_SCREEN_X_MAG * 2f32), None);
}

#[test]
fn test_ball_off_screen_sys_left() {
    assert_eq!(
        off_screen_at(false, -(BALL_OFF_SCREEN_X_MAG + 1f32)),
        Some(BallOffScreen::Left)
    );
}

#[test]
fn test_ball_off_screen_sys_right() {
    assert_eq!(
        off_screen_at(false, BALL_OFF_SCREEN_X_MAG + 1f32),
        Some(BallOffScreen::Right)
    );
}

#[test]
fn test_ball_off_screen_sys_neither() {
    assert_eq!(off_screen_at(false, BALL_OFF_SCREEN_X_MAG - 1f32), None);
}

#[test]
fn off_screen_just_past_right_edge() {
    let x = BALL_OFF_SCREEN_X_MAG + 0.001;
    assert_eq!(off_screen_at(false, x), Some(BallOffScreen::Right));
    assert_eq!(off_screen_at(true, x), None);
}

#[test]
fn test_reset_ball_sys() {
    let mut ball = Ball::new();
    ball.start();
    // two contacts with a left paddle moving up: clockwise, level 2
    ball.apply_contact(Surface::Paddle, PlayerId::Player1, MoveDirection::Up);
    ball.apply_contact(Surface::Paddle, PlayerId::Player1, MoveDirection::Up);
    assert_eq!(ball.curve().dir(), CurveDir::Clockwise);
    assert_eq!(ball.curve().level(), 2);

    ball.reset();
    assert!(ball.is_paused());
    assert_eq!(ball.curve().level(), 0);
    assert_eq!(ball.curve().dir(), CurveDir::Straight);
}

#[test]
fn test_start_ball_sys() {
    let mut ball = Ball::new();
    assert!(ball.is_paused());
    ball.start();
    assert!(!ball.is_paused());
}

#[test]
fn start_keeps_spin() {
    let mut ball = Ball::new();
    ball.apply_contact(Surface::Paddle, PlayerId::Player2, MoveDirection::Up);
    ball.start();
    assert_eq!(ball.curve().dir(), CurveDir::CounterClockwise);
    assert_eq!(ball.curve().level(), 1);
}

#[test]
fn wall_contact_leaves_spin() {
    let mut ball = Ball::new();
    ball.start();
    ball.apply_contact(Surface::Paddle, PlayerId::Player2, MoveDirection::Down);
    ball.apply_contact(Surface::Wall, PlayerId::Player2, MoveDirection::Up);
    assert_eq!(ball.curve().dir(), CurveDir::Clockwise);
    assert_eq!(ball.curve().level(), 1);
}

#[test]
fn paddle_contact_feeds_spin_mapping() {
    let cases = [
        (PlayerId::Player1, MoveDirection::Up, CurveDir::Clockwise),
        (PlayerId::Player1, MoveDirection::Down, CurveDir::CounterClockwise),
        (PlayerId::Player1, MoveDirection::Still, CurveDir::Straight),
        (PlayerId::Player2, MoveDirection::Up, CurveDir::CounterClockwise),
        (PlayerId::Player2, MoveDirection::Down, CurveDir::Clockwise),
        (PlayerId::Player2, MoveDirection::Still, CurveDir::Straight),
    ];
    for (paddle, moved, spin) in cases {
        assert_eq!(contact_spin(paddle, moved), spin);
        let mut ball = Ball::new();
        ball.apply_contact(Surface::Paddle, paddle, moved);
        assert_eq!(ball.curve().dir(), spin);
        assert_eq!(ball.curve().level(), if spin == CurveDir::Straight { 0 } else { 1 });
    }
}

#[test]
fn test_curve_visuals_sys() {
    let mut ball = Ball::new();
    ball.apply_contact(Surface::Paddle, PlayerId::Player2, MoveDirection::Up);
    ball.apply_contact(Surface::Paddle, PlayerId::Player2, MoveDirection::Up);
    assert_eq!(ball.color(Duration::from_millis(16)), Rgb { r: 255, g: 255, b: 0 });
    assert_eq!(ball.curve().rotation_rate(), 30);
}
