//! Whole-board frames: pausing, reflections, paddle strikes, scoring.

use popongong::component::Ball;
use popongong::constants::{inner_constants, outer_constants, Color, Constants};
use popongong::game::{Game, GameStates, Inputs};
use popongong::vector::Vector;

fn no_inputs() -> Inputs {
    Inputs { paddle_one_up: false, paddle_one_down: false, paddle_two_up: false, paddle_two_down: false }
}

/// An 800 by 600 board with 200-pixel paddles, segment 25, vertical ball
/// speed cap 800 millipixels per millisecond.
fn test_constants() -> Constants {
    Constants {
        window_width: 800,
        window_height: 600,
        paddle_width: 35,
        paddle_height: 200,
        paddle_segment: 25,
        max_paddle_speed: 150,
        ball_width: 20,
        ball_height: 20,
        max_ball_speed: Vector { x: 400, y: 800 },
        ball_color: Color::Purple,
        background_color: Color::Black,
        color_sequence: [Color::Red, Color::Green, Color::Blue],
    }
}

fn playing_game(ball_pos: Vector, ball_velocity: Vector) -> Game {
    let mut game = Game::new(test_constants());
    game.start();
    game.ball = Ball::new(ball_pos, 20, 20, ball_velocity, Color::Purple);
    game
}

#[test]
fn new_game_starts_paused_and_centered() {
    let game = Game::new(test_constants());
    assert_eq!(game.state, GameStates::Paused);
    assert_eq!(game.color_index, 0);
    assert_eq!(game.ball.pos.x, 390_000);
    assert_eq!(game.ball.pos.y, 290_000);
    assert_eq!(game.paddle_one.pos.x, 0);
    assert_eq!(game.paddle_one.pos.y, 0);
    assert_eq!(game.paddle_two.pos.x, 765_000);
    assert_eq!(game.paddle_two.pos.y, 0);
    assert_eq!(game.hits(), 0);
}

#[test]
fn starting_speeds_come_from_the_documented_ranges() {
    for _ in 0..50 {
        let game = Game::new(test_constants());
        assert!(game.ball.velocity.x == 400 || game.ball.velocity.x == -400);
        let mag = game.ball.velocity.y.abs();
        // Below three quarters of the vertical cap, at least 100.
        assert!((100..600).contains(&mag));
    }
}

#[test]
fn paused_game_ignores_updates() {
    let mut game = Game::new(test_constants());
    let held = Inputs { paddle_one_up: true, paddle_one_down: false, paddle_two_up: false, paddle_two_down: true };
    let ball_before = game.ball.pos;
    let vel_before = game.ball.velocity;
    for _ in 0..10 {
        game.update(&held, 16);
    }
    assert_eq!(game.state, GameStates::Paused);
    assert_eq!(game.ball.pos.x, ball_before.x);
    assert_eq!(game.ball.pos.y, ball_before.y);
    assert_eq!(game.ball.velocity.x, vel_before.x);
    assert_eq!(game.ball.velocity.y, vel_before.y);
    assert_eq!(game.paddle_one.pos.y, 0);
    assert_eq!(game.paddle_two.pos.y, 0);
}

#[test]
fn play_pause_toggles_and_start_plays() {
    let mut game = Game::new(test_constants());
    assert_eq!(game.state, GameStates::Paused);
    game.play_pause();
    assert_eq!(game.state, GameStates::Playing);
    game.play_pause();
    assert_eq!(game.state, GameStates::Paused);
    game.start();
    assert_eq!(game.state, GameStates::Playing);
}

#[test]
fn held_keys_move_the_paddles() {
    let mut game = Game::new(test_constants());
    game.start();
    let held = Inputs { paddle_one_down: true, paddle_one_up: false, paddle_two_up: false, paddle_two_down: true };
    game.update(&no_inputs(), 0);
    assert_eq!(game.paddle_one.pos.y, 0);
    game.update(&held, 100);
    // 150 millipixels/ms for 100 ms.
    assert_eq!(game.paddle_one.pos.y, 15_000);
    assert_eq!(game.paddle_two.pos.y, 15_000);
}

#[test]
fn ball_above_the_top_moving_up_reflects_down() {
    // Top edge at -1 pixels: one resolver pass flips the vertical
    // velocity to positive and leaves the horizontal one alone.
    let mut game = playing_game(Vector { x: 390_000, y: -1_000 }, Vector { x: 400, y: -100 });
    game.update(&no_inputs(), 0);
    assert_eq!(game.ball.velocity.y, 100);
    assert_eq!(game.ball.velocity.x, 400);
}

#[test]
fn ball_at_the_bottom_moving_down_reflects_up() {
    let mut game = playing_game(Vector { x: 390_000, y: 581_000 }, Vector { x: 400, y: 100 });
    game.update(&no_inputs(), 0);
    assert_eq!(game.ball.velocity.y, -100);
    assert_eq!(game.ball.velocity.x, 400);
}

#[test]
fn ball_with_no_vertical_motion_never_reflects_vertically() {
    // An exactly zero component counts as moving in neither direction,
    // so the top rule does not fire even at the edge.
    let mut game = playing_game(Vector { x: 390_000, y: 0 }, Vector { x: 400, y: 0 });
    game.update(&no_inputs(), 0);
    assert_eq!(game.ball.velocity.y, 0);
    assert_eq!(game.ball.velocity.x, 400);
}

#[test]
fn left_wall_charges_paddle_one_a_miss() {
    let mut game = playing_game(Vector { x: 0, y: 290_000 }, Vector { x: -400, y: 0 });
    game.paddle_one.hit();
    game.paddle_one.hit();
    assert_eq!(game.paddle_one.hits, 2);
    game.update(&no_inputs(), 0);
    assert_eq!(game.ball.velocity.x, 400);
    assert_eq!(game.paddle_one.hits, 1);
}

#[test]
fn right_wall_charges_paddle_two_a_miss() {
    let mut game = playing_game(Vector { x: 780_000, y: 290_000 }, Vector { x: 400, y: 0 });
    game.paddle_two.hit();
    game.update(&no_inputs(), 0);
    assert_eq!(game.ball.velocity.x, -400);
    assert_eq!(game.paddle_two.hits, 0);
}

#[test]
fn left_paddle_strike_deflects_by_the_offset_formula() {
    // Ball at x = 1, top = 100: inside the left paddle's span. The
    // centers are 10 pixels apart, so the new vertical speed is
    // 10000 * 800 / (2000 * 200) = 20 millipixels/ms, kept downward;
    // the horizontal velocity flips and the paddle records the hit.
    let mut game = playing_game(Vector { x: 1_000, y: 100_000 }, Vector { x: -400, y: 100 });
    game.update(&no_inputs(), 0);
    assert_eq!(game.ball.velocity.x, 400);
    assert_eq!(game.ball.velocity.y, 20);
    assert_eq!(game.paddle_one.hits, 1);
    assert_eq!(game.paddle_two.hits, 0);
}

#[test]
fn extremity_strike_flips_the_vertical_direction() {
    // Ball moving up, top = 150, below the paddle center at 100: offset
    // 60 pixels is beyond two segments (50), so the vertical direction
    // flips before the magnitude is recomputed:
    // 60000 * 800 / (2000 * 200) = 120, now moving down.
    let mut game = playing_game(Vector { x: 1_000, y: 150_000 }, Vector { x: -400, y: -100 });
    game.update(&no_inputs(), 0);
    assert_eq!(game.ball.velocity.x, 400);
    assert_eq!(game.ball.velocity.y, 120);
    assert_eq!(game.paddle_one.hits, 1);
}

#[test]
fn right_paddle_strike_mirrors_the_left() {
    // Right paddle spans x = 765..800; ball right edge 784 is past 765.
    let mut game = playing_game(Vector { x: 764_000, y: 100_000 }, Vector { x: 400, y: 100 });
    game.update(&no_inputs(), 0);
    assert_eq!(game.ball.velocity.x, -400);
    assert_eq!(game.ball.velocity.y, 20);
    assert_eq!(game.paddle_two.hits, 1);
    assert_eq!(game.paddle_one.hits, 0);
}

#[test]
fn ball_outside_the_paddle_span_passes_by() {
    // Vertically past the paddle: top = 250 > paddle bottom 200.
    let mut game = playing_game(Vector { x: 1_000, y: 250_000 }, Vector { x: -400, y: 0 });
    game.update(&no_inputs(), 0);
    assert_eq!(game.ball.velocity.x, -400);
    assert_eq!(game.paddle_one.hits, 0);
}

#[test]
fn integration_runs_before_collision_checks() {
    // The ball starts clear of the top but the step carries it past:
    // the flip happens in the same frame, against the post-step position.
    let mut game = playing_game(Vector { x: 390_000, y: 5_000 }, Vector { x: 0, y: -1_000 });
    game.update(&no_inputs(), 10);
    assert_eq!(game.ball.pos.y, -5_000);
    assert_eq!(game.ball.velocity.y, 1_000);
}

#[test]
fn next_color_cycles_and_clears_hits() {
    let mut game = Game::new(test_constants());
    game.paddle_one.hit();
    game.paddle_two.hit();
    game.next_color();
    assert_eq!(game.color_index, 1);
    assert_eq!(game.paddle_one.border_color, Color::Green);
    assert_eq!(game.paddle_two.border_color, Color::Green);
    assert_eq!(game.hits(), 0);
    game.next_color();
    assert_eq!(game.color_index, 2);
    assert_eq!(game.paddle_one.border_color, Color::Blue);
    game.next_color();
    assert_eq!(game.color_index, 0);
    assert_eq!(game.paddle_two.border_color, Color::Red);
}

#[test]
fn hits_sums_both_paddles() {
    let mut game = Game::new(test_constants());
    game.paddle_one.hit();
    game.paddle_one.hit();
    game.paddle_two.hit();
    assert_eq!(game.hits(), 3);
}

#[test]
fn shipped_configurations_are_valid() {
    assert!(outer_constants().is_valid());
    assert!(inner_constants().is_valid());
    assert_eq!(outer_constants().window_width, 1200);
    assert_eq!(inner_constants().max_ball_speed.y, 1500);
}

#[test]
fn long_run_keeps_the_board_invariants() {
    let mut game = Game::new(outer_constants());
    game.start();
    let held = Inputs { paddle_one_up: true, paddle_one_down: false, paddle_two_up: false, paddle_two_down: true };
    for frame in 0..2000u64 {
        game.update(&held, 16 + frame % 7);
        assert!(game.paddle_one.hits <= 5);
        assert!(game.paddle_two.hits <= 5);
        assert!(game.paddle_one.pos.y >= 0);
        assert!(game.paddle_one.pos.y <= 650_000);
        assert!(game.paddle_two.pos.y >= 0);
        assert!(game.paddle_two.pos.y <= 650_000);
        assert!(game.hits() <= 10);
    }
}

#[test]
fn degenerate_configuration_is_rejected() {
    let mut constants = test_constants();
    constants.paddle_height = 0;
    assert!(!constants.is_valid());
    let mut constants = test_constants();
    constants.max_ball_speed.y = 100;
    assert!(!constants.is_valid());
}
