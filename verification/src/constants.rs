//! Board configuration: colors, sizes and speeds.
//!
//! Lengths are whole pixels, speeds are millipixels per millisecond. The
//! caps below are generous machine limits: they keep every product the
//! physics computes inside `i64`, and no sensible board comes near them.

use vstd::prelude::*;

use crate::vector::Vector;

verus! {

/// Largest accepted board or entity dimension, in pixels.
pub const DIM_LIMIT: i64 = 100_000;

/// Largest accepted configured speed, in millipixels per millisecond.
pub const SPEED_LIMIT: i64 = 1_000_000;

/// Largest accepted frame time, in milliseconds.
pub const DT_LIMIT: u64 = 100_000;

/// Largest ball coordinate the physics accepts, in millipixels.
pub const POS_LIMIT: i64 = 1_000_000_000_000_000;

/// Bound on any ball velocity component that play can produce, in
/// millipixels per millisecond.
pub const VEL_LIMIT: i64 = 100_000_000_000;

/// Largest coordinate, in millipixels, the render layout accepts.
pub const RENDER_POS_LIMIT: i64 = 1_000_000_000_000_000_000;

#[derive(PartialEq, Eq, Structural, Hash, Clone, Copy, Debug)]
pub enum Color {
    Red,
    Green,
    Blue,
    Black,
    White,
    Purple,
}

/// The immutable settings record a board is built from.
#[derive(Clone, Copy, Debug)]
pub struct Constants {
    pub window_width: i64,
    pub window_height: i64,
    pub paddle_width: i64,
    pub paddle_height: i64,
    pub paddle_segment: i64,
    pub max_paddle_speed: i64,
    pub ball_width: i64,
    pub ball_height: i64,
    pub max_ball_speed: Vector,
    pub ball_color: Color,
    pub background_color: Color,
    pub color_sequence: [Color; 3],
}

impl Constants {
    /// A usable configuration: everything positive where a zero would make
    /// the physics degenerate, everything under the machine caps, paddles
    /// no larger than the board, and a vertical ball speed large enough
    /// that a starting speed can be drawn below three quarters of it.
    pub open spec fn wf(self) -> bool {
        &&& 1 <= self.window_width <= DIM_LIMIT
        &&& 1 <= self.window_height <= DIM_LIMIT
        &&& 11 <= self.paddle_width <= DIM_LIMIT
        &&& 11 <= self.paddle_height <= DIM_LIMIT
        &&& 0 <= self.paddle_segment <= DIM_LIMIT
        &&& self.paddle_width <= self.window_width
        &&& self.paddle_height <= self.window_height
        &&& 1 <= self.ball_width <= DIM_LIMIT
        &&& 1 <= self.ball_height <= DIM_LIMIT
        &&& 0 <= self.max_paddle_speed <= SPEED_LIMIT
        &&& 0 <= self.max_ball_speed.x <= SPEED_LIMIT
        &&& 0 <= self.max_ball_speed.y <= SPEED_LIMIT
        &&& 100 < (self.max_ball_speed.y * 750) / 1000
    }

    /// Runtime check of `wf`, for callers that take a configuration from
    /// outside and must reject a degenerate one before building a board.
    pub fn is_valid(&self) -> (r: bool)
        ensures
            r == self.wf(),
    {
        1 <= self.window_width && self.window_width <= DIM_LIMIT
            && 1 <= self.window_height && self.window_height <= DIM_LIMIT
            && 11 <= self.paddle_width && self.paddle_width <= DIM_LIMIT
            && 11 <= self.paddle_height && self.paddle_height <= DIM_LIMIT
            && 0 <= self.paddle_segment && self.paddle_segment <= DIM_LIMIT
            && self.paddle_width <= self.window_width
            && self.paddle_height <= self.window_height
            && 1 <= self.ball_width && self.ball_width <= DIM_LIMIT
            && 1 <= self.ball_height && self.ball_height <= DIM_LIMIT
            && 0 <= self.max_paddle_speed && self.max_paddle_speed <= SPEED_LIMIT
            && 0 <= self.max_ball_speed.x && self.max_ball_speed.x <= SPEED_LIMIT
            && 0 <= self.max_ball_speed.y && self.max_ball_speed.y <= SPEED_LIMIT
            && 100 < ((self.max_ball_speed.y as u64 * 750) / 1000) as i64
    }
}

/// Settings of the large outer board.
pub fn outer_constants() -> (r: Constants)
    ensures
        r.wf(),
        r.window_width == 1200,
        r.window_height == 800,
        r.paddle_width == 35,
        r.paddle_height == 150,
        r.paddle_segment == 25,
        r.max_paddle_speed == 150,
        r.ball_width == 510,
        r.ball_height == 310,
        r.max_ball_speed == (Vector { x: 150, y: 800 }),
        r.ball_color == Color::Purple,
        r.background_color == Color::Black,
        r.color_sequence[0] == Color::Red,
        r.color_sequence[1] == Color::Green,
        r.color_sequence[2] == Color::Blue,
{
    Constants {
        window_width: 1200,
        window_height: 800,
        paddle_width: 35,
        paddle_height: 150,
        paddle_segment: 25,
        max_paddle_speed: 150,
        ball_width: 510,
        ball_height: 310,
        max_ball_speed: Vector { x: 150, y: 800 },
        ball_color: Color::Purple,
        background_color: Color::Black,
        color_sequence: [Color::Red, Color::Green, Color::Blue],
    }
}

/// Settings of the small board nested inside the outer one.
pub fn inner_constants() -> (r: Constants)
    ensures
        r.wf(),
        r.window_width == 500,
        r.window_height == 300,
        r.paddle_width == 20,
        r.paddle_height == 90,
        r.paddle_segment == 15,
        r.max_paddle_speed == 250,
        r.ball_width == 15,
        r.ball_height == 15,
        r.max_ball_speed == (Vector { x: 450, y: 1500 }),
        r.ball_color == Color::Purple,
        r.background_color == Color::Black,
        r.color_sequence[0] == Color::Red,
        r.color_sequence[1] == Color::Green,
        r.color_sequence[2] == Color::Blue,
{
    Constants {
        window_width: 500,
        window_height: 300,
        paddle_width: 20,
        paddle_height: 90,
        paddle_segment: 15,
        max_paddle_speed: 250,
        ball_width: 15,
        ball_height: 15,
        max_ball_speed: Vector { x: 450, y: 1500 },
        ball_color: Color::Purple,
        background_color: Color::Black,
        color_sequence: [Color::Red, Color::Green, Color::Blue],
    }
}

} // verus!
