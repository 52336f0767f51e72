//! Render layout: the colored rectangles each entity hands a renderer.

use popongong::component::{Ball, Paddle};
use popongong::constants::{Color, Constants};
use popongong::game::Game;
use popongong::vector::Vector;

fn test_constants() -> Constants {
    Constants {
        window_width: 800,
        window_height: 600,
        paddle_width: 35,
        paddle_height: 200,
        paddle_segment: 25,
        max_paddle_speed: 150,
        ball_width: 20,
        ball_height: 20,
        max_ball_speed: Vector { x: 400, y: 800 },
        ball_color: Color::Purple,
        background_color: Color::Black,
        color_sequence: [Color::Red, Color::Green, Color::Blue],
    }
}

#[test]
fn ball_draws_one_rectangle_with_separate_truncations() {
    let ball = Ball::new(
        Vector { x: -1_500, y: 2_700 },
        20,
        20,
        Vector { x: 0, y: 0 },
        Color::Purple,
    );
    let components = ball.components(&Vector { x: 1_000, y: 0 });
    assert_eq!(components.len(), 1);
    // Each coordinate truncates on its own before the shift is added:
    // -1.5 truncates to -1, then +1.
    assert_eq!(components[0].x, 0);
    assert_eq!(components[0].y, 2);
    assert_eq!(components[0].width, 20);
    assert_eq!(components[0].height, 20);
    assert_eq!(components[0].color, Color::Purple);
}

#[test]
fn paddle_draws_border_background_and_one_segment_per_hit() {
    let mut paddle = Paddle::new(Vector { x: 0, y: 0 }, 35, 200, 150, Color::Red);
    paddle.hit();
    paddle.hit();
    let components = paddle.components(&Vector { x: 0, y: 0 });
    assert_eq!(components.len(), 4);

    assert_eq!(components[0].x, 0);
    assert_eq!(components[0].y, 0);
    assert_eq!(components[0].width, 35);
    assert_eq!(components[0].height, 200);
    assert_eq!(components[0].color, Color::Red);

    assert_eq!(components[1].x, 5);
    assert_eq!(components[1].y, 5);
    assert_eq!(components[1].width, 25);
    assert_eq!(components[1].height, 190);
    assert_eq!(components[1].color, Color::White);

    // Segment height (200 - 10) / 5 = 38; the indicators stack upward
    // from the paddle's bottom, inset five pixels.
    assert_eq!(components[2].x, 5);
    assert_eq!(components[2].y, 157);
    assert_eq!(components[2].width, 25);
    assert_eq!(components[2].height, 38);
    assert_eq!(components[2].color, Color::Red);

    assert_eq!(components[3].y, 119);
}

#[test]
fn board_draws_background_paddles_then_ball() {
    let mut game = Game::new(test_constants());
    game.paddle_one.hit();
    let origin = Vector { x: 10_000, y: 20_000 };
    let components = game.components(&origin);
    assert_eq!(components.len(), 7);

    assert_eq!(components[0].x, 10);
    assert_eq!(components[0].y, 20);
    assert_eq!(components[0].width, 800);
    assert_eq!(components[0].height, 600);
    assert_eq!(components[0].color, Color::Black);

    // Left paddle border at the shifted origin, right paddle past it.
    assert_eq!(components[1].x, 10);
    assert_eq!(components[1].color, Color::Red);
    assert_eq!(components[4].x, 775);

    // The ball comes last, centered on the board plus the shift.
    let last = components[components.len() - 1];
    assert_eq!(last.x, 400);
    assert_eq!(last.y, 310);
    assert_eq!(last.color, Color::Purple);
}
