//! Ball integration and paddle movement.

use popongong::component::{Ball, Paddle};
use popongong::constants::Color;
use popongong::vector::Vector;

fn test_ball(pos: Vector, velocity: Vector) -> Ball {
    Ball::new(pos, 20, 20, velocity, Color::Purple)
}

fn test_paddle(y: i64) -> Paddle {
    Paddle::new(Vector { x: 0, y }, 35, 200, 1000, Color::Red)
}

#[test]
fn update_zero_leaves_position_unchanged() {
    let mut ball = test_ball(Vector { x: 123_000, y: 456_000 }, Vector { x: -400, y: 100 });
    ball.update(0);
    assert_eq!(ball.pos.x, 123_000);
    assert_eq!(ball.pos.y, 456_000);
    assert_eq!(ball.velocity.x, -400);
    assert_eq!(ball.velocity.y, 100);
}

#[test]
fn update_displaces_each_axis_independently() {
    // -400 millipixels/ms for 10 ms is -4 pixels; 100 for 10 ms is 1 pixel.
    let mut ball = test_ball(Vector { x: 0, y: 0 }, Vector { x: -400, y: 100 });
    ball.update(10);
    assert_eq!(ball.pos.x, -4_000);
    assert_eq!(ball.pos.y, 1_000);
}

#[test]
fn update_rounds_half_pixels_away_from_zero() {
    // 150 millipixels/ms for 10 ms is 1.5 pixels: rounds to 2, and to -2
    // on the other axis.
    let mut ball = test_ball(Vector { x: 0, y: 0 }, Vector { x: 150, y: -150 });
    ball.update(10);
    assert_eq!(ball.pos.x, 2_000);
    assert_eq!(ball.pos.y, -2_000);
}

#[test]
fn update_rounds_under_half_pixel_to_nothing() {
    // 0.15 pixels rounds to no movement at all.
    let mut ball = test_ball(Vector { x: 7_000, y: 7_000 }, Vector { x: 150, y: -150 });
    ball.update(1);
    assert_eq!(ball.pos.x, 7_000);
    assert_eq!(ball.pos.y, 7_000);
}

#[test]
fn flips_negate_one_axis_only() {
    let mut ball = test_ball(Vector { x: 0, y: 0 }, Vector { x: -400, y: 100 });
    ball.flip_x();
    assert_eq!(ball.velocity.x, 400);
    assert_eq!(ball.velocity.y, 100);
    ball.flip_y();
    assert_eq!(ball.velocity.x, 400);
    assert_eq!(ball.velocity.y, -100);
}

#[test]
fn velocity_magnitude_keeps_sign() {
    let mut ball = test_ball(Vector { x: 0, y: 0 }, Vector { x: -400, y: -100 });
    ball.set_velocity_y_magnitude(250);
    assert_eq!(ball.velocity.y, -250);
    let mut ball = test_ball(Vector { x: 0, y: 0 }, Vector { x: -400, y: 100 });
    ball.set_velocity_y_magnitude(250);
    assert_eq!(ball.velocity.y, 250);
}

#[test]
fn zero_velocity_moves_in_neither_direction() {
    let ball = test_ball(Vector { x: 0, y: 0 }, Vector { x: 0, y: 0 });
    assert!(!ball.is_moving_up());
    assert!(!ball.is_moving_down());
    assert!(!ball.is_moving_left());
    assert!(!ball.is_moving_right());
}

#[test]
fn edges_truncate_toward_zero() {
    let ball = test_ball(Vector { x: -1_500, y: 2_700 }, Vector { x: 0, y: 0 });
    assert_eq!(ball.left_edge(), -1);
    assert_eq!(ball.right_edge(), 19);
    assert_eq!(ball.top_edge(), 2);
    assert_eq!(ball.bottom_edge(), 22);
}

#[test]
fn paddle_up_takes_full_step_inside_the_board() {
    let mut paddle = test_paddle(100_000);
    paddle.up(10, 0);
    assert_eq!(paddle.pos.y, 90_000);
}

#[test]
fn paddle_up_snaps_to_the_top() {
    // From 5 pixels at 1 pixel/ms for 10 ms: the step overshoots, so the
    // paddle snaps to zero rather than creeping the remaining distance.
    let mut paddle = test_paddle(5_000);
    paddle.up(10, 0);
    assert_eq!(paddle.pos.y, 0);
}

#[test]
fn paddle_down_snaps_flush_to_the_bottom() {
    let mut paddle = test_paddle(399_000);
    paddle.down(10, 600_000);
    assert_eq!(paddle.pos.y, 400_000);
}

#[test]
fn paddle_stays_on_the_board_through_any_moves() {
    let mut paddle = test_paddle(0);
    let bottom = 600_000;
    for round in 0..50u64 {
        if round % 3 == 0 {
            paddle.down(round % 17, bottom);
        } else {
            paddle.up(round % 13, 0);
        }
        assert!(paddle.pos.y >= 0);
        assert!(paddle.pos.y <= 400_000);
    }
}

#[test]
fn hit_count_saturates_at_five() {
    let mut paddle = test_paddle(0);
    for _ in 0..10 {
        paddle.hit();
        assert!(paddle.hits <= 5);
    }
    assert_eq!(paddle.hits, 5);
    for _ in 0..10 {
        paddle.miss();
    }
    assert_eq!(paddle.hits, 0);
    paddle.hit();
    paddle.hit();
    paddle.reset_hits();
    assert_eq!(paddle.hits, 0);
}

#[test]
fn distance_to_measures_center_offsets() {
    // Ball center (10, 110) pixels; paddle center (17.5, 100) pixels.
    let ball = test_ball(Vector { x: 0, y: 100_000 }, Vector { x: 0, y: 0 });
    let paddle = test_paddle(0);
    let d = ball.distance_to(&paddle);
    assert_eq!(d.x, -7_500);
    assert_eq!(d.y, 10_000);
}
