//! The two moving entities of a board: the ball and the paddles.
//!
//! Positions are millipixels, speeds millipixels per millisecond, sizes
//! whole pixels. Edge coordinates are whole pixels, truncated toward zero
//! from the millipixel position, and every mutation carries an exact
//! contract: the spec functions below say precisely what each operation
//! does to the entity.

use vstd::prelude::*;

use crate::constants::{
    Color, DIM_LIMIT, DT_LIMIT, POS_LIMIT, RENDER_POS_LIMIT, SPEED_LIMIT, VEL_LIMIT,
};
use crate::fixed::{mpx_round_px, mpx_to_px, round_px, to_px, PIXEL};
use crate::vector::Vector;

verus! {

/// One colored rectangle handed to a renderer: a whole-pixel position and
/// size.
#[derive(Clone, Copy, Debug)]
pub struct Component {
    pub x: i64,
    pub y: i64,
    pub width: u32,
    pub height: u32,
    pub color: Color,
}

#[derive(Clone, Copy, Debug)]
pub struct Ball {
    pub pos: Vector,
    pub width: u32,
    pub height: u32,
    pub velocity: Vector,
    pub color: Color,
}

impl Ball {
    /// Horizontal center, in millipixels.
    pub open spec fn center_x(self) -> int {
        self.pos.x + self.width * 500
    }

    /// Vertical center, in millipixels.
    pub open spec fn center_y(self) -> int {
        self.pos.y + self.height * 500
    }

    /// Left edge in whole pixels.
    pub open spec fn left_px(self) -> int {
        to_px(self.pos.x as int)
    }

    /// Right edge in whole pixels.
    pub open spec fn right_px(self) -> int {
        to_px(self.pos.x as int) + self.width
    }

    /// Top edge in whole pixels.
    pub open spec fn top_px(self) -> int {
        to_px(self.pos.y as int)
    }

    /// Bottom edge in whole pixels.
    pub open spec fn bottom_px(self) -> int {
        to_px(self.pos.y as int) + self.height
    }

    /// The ball after one integration step: each axis moves by the
    /// velocity times the elapsed milliseconds, rounded to the nearest
    /// whole pixel independently of the other axis.
    pub open spec fn after_update(self, delta_ms: u64) -> Ball {
        Ball {
            pos: Vector {
                x: (self.pos.x + round_px(self.velocity.x * delta_ms) * PIXEL) as i64,
                y: (self.pos.y + round_px(self.velocity.y * delta_ms) * PIXEL) as i64,
            },
            ..self
        }
    }

    /// The ball with its vertical velocity negated.
    pub open spec fn flipped_y(self) -> Ball {
        Ball { velocity: Vector { x: self.velocity.x, y: (-self.velocity.y) as i64 }, ..self }
    }

    /// The ball with its horizontal velocity negated.
    pub open spec fn flipped_x(self) -> Ball {
        Ball { velocity: Vector { x: (-self.velocity.x) as i64, y: self.velocity.y }, ..self }
    }

    /// The ball with `|velocity.y|` replaced by `mag`, keeping the sign:
    /// a ball moving up keeps moving up, any other ball moves down.
    pub open spec fn with_vy_magnitude(self, mag: int) -> Ball {
        Ball {
            velocity: Vector {
                x: self.velocity.x,
                y: if self.velocity.y < 0 {
                    (-mag) as i64
                } else {
                    mag as i64
                },
            },
            ..self
        }
    }

    pub fn new(pos: Vector, width: u32, height: u32, velocity: Vector, color: Color) -> (r: Ball)
        ensures
            r == (Ball { pos, width, height, velocity, color }),
    {
        Ball { pos, width, height, velocity, color }
    }

    /// Horizontal position in whole pixels.
    pub fn x(&self) -> (r: i64)
        requires
            self.pos.x > i64::MIN,
        ensures
            r == to_px(self.pos.x as int),
    {
        mpx_to_px(self.pos.x)
    }

    /// Vertical position in whole pixels.
    pub fn y(&self) -> (r: i64)
        requires
            self.pos.y > i64::MIN,
        ensures
            r == to_px(self.pos.y as int),
    {
        mpx_to_px(self.pos.y)
    }

    /// Advance the position by `velocity * delta_ms`, each axis rounded to
    /// a whole pixel on its own before it is added.
    pub fn update(&mut self, delta_ms: u64)
        requires
            delta_ms <= DT_LIMIT,
            -VEL_LIMIT <= old(self).velocity.x <= VEL_LIMIT,
            -VEL_LIMIT <= old(self).velocity.y <= VEL_LIMIT,
            -POS_LIMIT <= old(self).pos.x <= POS_LIMIT,
            -POS_LIMIT <= old(self).pos.y <= POS_LIMIT,
        ensures
            *final(self) == old(self).after_update(delta_ms),
    {
        proof {
            crate::fixed::lemma_mul_bounds(
                self.velocity.x as int,
                delta_ms as int,
                VEL_LIMIT as int,
                DT_LIMIT as int,
            );
            crate::fixed::lemma_mul_bounds(
                self.velocity.y as int,
                delta_ms as int,
                VEL_LIMIT as int,
                DT_LIMIT as int,
            );
        }
        let new_x = mpx_round_px(self.velocity.x * (delta_ms as i64));
        let new_y = mpx_round_px(self.velocity.y * (delta_ms as i64));

        self.pos.add_mut(&Vector { x: new_x * PIXEL, y: new_y * PIXEL });
    }

    /// Replace the magnitude of the vertical velocity, preserving its sign.
    pub fn set_velocity_y_magnitude(&mut self, new_y_mag: i64)
        requires
            new_y_mag >= 0,
        ensures
            *final(self) == old(self).with_vy_magnitude(new_y_mag as int),
    {
        let mut new_y = new_y_mag;

        if self.velocity.y < 0 {
            new_y = -new_y_mag;
        }

        self.velocity.y = new_y;
    }

    /// Vector from the paddle's center to the ball's center, in
    /// millipixels.
    pub fn distance_to(&self, paddle: &Paddle) -> (r: Vector)
        requires
            self.pos.x + self.width * 500 <= i64::MAX,
            self.pos.y + self.height * 500 <= i64::MAX,
            paddle.pos.x + paddle.width * 500 <= i64::MAX,
            paddle.pos.y + paddle.height * 500 <= i64::MAX,
            i64::MIN <= self.center_x() - paddle.center_x() <= i64::MAX,
            i64::MIN <= self.center_y() - paddle.center_y() <= i64::MAX,
        ensures
            r.x == self.center_x() - paddle.center_x(),
            r.y == self.center_y() - paddle.center_y(),
    {
        self.center().subtract(&paddle.center())
    }

    /// Center position in millipixels.
    pub fn center(&self) -> (r: Vector)
        requires
            self.pos.x + self.width * 500 <= i64::MAX,
            self.pos.y + self.height * 500 <= i64::MAX,
        ensures
            r.x == self.center_x(),
            r.y == self.center_y(),
    {
        Vector {
            x: self.pos.x + (self.width as i64) * 500,
            y: self.pos.y + (self.height as i64) * 500,
        }
    }

    /// A strictly negative vertical velocity; an exactly zero component
    /// counts as moving in neither direction.
    pub fn is_moving_up(&self) -> (r: bool)
        ensures
            r == (self.velocity.y < 0),
    {
        self.velocity.y < 0
    }

    /// A strictly positive vertical velocity.
    pub fn is_moving_down(&self) -> (r: bool)
        ensures
            r == (self.velocity.y > 0),
    {
        self.velocity.y > 0
    }

    /// A strictly negative horizontal velocity.
    pub fn is_moving_left(&self) -> (r: bool)
        ensures
            r == (self.velocity.x < 0),
    {
        self.velocity.x < 0
    }

    /// A strictly positive horizontal velocity.
    pub fn is_moving_right(&self) -> (r: bool)
        ensures
            r == (self.velocity.x > 0),
    {
        self.velocity.x > 0
    }

    pub fn flip_y(&mut self)
        requires
            old(self).velocity.y > i64::MIN,
        ensures
            *final(self) == old(self).flipped_y(),
    {
        self.velocity.y = -self.velocity.y;
    }

    pub fn flip_x(&mut self)
        requires
            old(self).velocity.x > i64::MIN,
        ensures
            *final(self) == old(self).flipped_x(),
    {
        self.velocity.x = -self.velocity.x;
    }

    pub fn top_edge(&self) -> (r: i64)
        requires
            self.pos.y > i64::MIN,
        ensures
            r == self.top_px(),
    {
        self.y()
    }

    pub fn bottom_edge(&self) -> (r: i64)
        requires
            self.pos.y > i64::MIN,
            to_px(self.pos.y as int) + self.height <= i64::MAX,
        ensures
            r == self.bottom_px(),
    {
        self.y() + self.height as i64
    }

    pub fn left_edge(&self) -> (r: i64)
        requires
            self.pos.x > i64::MIN,
        ensures
            r == self.left_px(),
    {
        self.x()
    }

    pub fn right_edge(&self) -> (r: i64)
        requires
            self.pos.x > i64::MIN,
            to_px(self.pos.x as int) + self.width <= i64::MAX,
        ensures
            r == self.right_px(),
    {
        self.x() + self.width as i64
    }

    /// The one rectangle the ball draws as, shifted by `origin`: each
    /// coordinate is truncated to pixels on its own before the shift is
    /// added.
    pub open spec fn component(self, origin: Vector) -> Component {
        Component {
            x: (to_px(self.pos.x as int) + to_px(origin.x as int)) as i64,
            y: (to_px(self.pos.y as int) + to_px(origin.y as int)) as i64,
            width: self.width,
            height: self.height,
            color: self.color,
        }
    }

    /// The rectangles to draw for the ball: one, in its color.
    pub fn components(&self, origin: &Vector) -> (r: Vec<Component>)
        requires
            -RENDER_POS_LIMIT <= self.pos.x <= RENDER_POS_LIMIT,
            -RENDER_POS_LIMIT <= self.pos.y <= RENDER_POS_LIMIT,
            -RENDER_POS_LIMIT <= origin.x <= RENDER_POS_LIMIT,
            -RENDER_POS_LIMIT <= origin.y <= RENDER_POS_LIMIT,
        ensures
            r@.len() == 1,
            r@[0] == self.component(*origin),
    {
        proof {
            crate::fixed::lemma_to_px_close(self.pos.x as int);
            crate::fixed::lemma_to_px_close(self.pos.y as int);
            crate::fixed::lemma_to_px_close(origin.x as int);
            crate::fixed::lemma_to_px_close(origin.y as int);
        }
        let mut components: Vec<Component> = Vec::new();
        components.push(
            Component {
                x: mpx_to_px(self.pos.x) + mpx_to_px(origin.x),
                y: mpx_to_px(self.pos.y) + mpx_to_px(origin.y),
                width: self.width,
                height: self.height,
                color: self.color,
            },
        );
        components
    }
}

#[derive(Clone, Copy, Debug)]
pub struct Paddle {
    pub pos: Vector,
    pub width: u32,
    pub height: u32,
    pub velocity: Vector,
    pub border_color: Color,
    pub background_color: Color,
    pub hits: u8,
}

impl Paddle {
    /// A paddle as play keeps it: on the board vertically, a fixed
    /// horizontal position, a nonnegative vertical speed, no horizontal
    /// motion, and at most five recorded hits.
    pub open spec fn wf(self) -> bool {
        &&& 0 <= self.pos.x <= POS_LIMIT
        &&& 0 <= self.pos.y <= POS_LIMIT
        &&& self.velocity.x == 0
        &&& 0 <= self.velocity.y <= SPEED_LIMIT
        &&& 11 <= self.width <= DIM_LIMIT
        &&& 11 <= self.height <= DIM_LIMIT
        &&& self.hits <= 5
    }

    /// Horizontal center, in millipixels.
    pub open spec fn center_x(self) -> int {
        self.pos.x + self.width * 500
    }

    /// Vertical center, in millipixels.
    pub open spec fn center_y(self) -> int {
        self.pos.y + self.height * 500
    }

    /// Right edge in whole pixels.
    pub open spec fn right_px(self) -> int {
        to_px(self.pos.x as int) + self.width
    }

    /// Top edge in whole pixels.
    pub open spec fn top_px(self) -> int {
        to_px(self.pos.y as int)
    }

    /// Bottom edge in whole pixels.
    pub open spec fn bottom_px(self) -> int {
        to_px(self.pos.y as int) + self.height
    }

    /// The hit counter after a successful return: one more, saturating at
    /// five.
    pub open spec fn hits_after_hit(h: u8) -> u8 {
        if h < 5 {
            (h + 1) as u8
        } else {
            h
        }
    }

    /// The hit counter after a miss: one less, saturating at zero.
    pub open spec fn hits_after_miss(h: u8) -> u8 {
        if h > 0 {
            (h - 1) as u8
        } else {
            h
        }
    }

    /// The paddle after moving up for `delta_ms` milliseconds: the step is
    /// `delta_ms * velocity.y`; if the full step stays at or above `limit`
    /// it is taken, otherwise the paddle snaps to the top of the board
    /// (position zero, not `limit`).
    pub open spec fn after_up(self, delta_ms: u64, limit: i64) -> Paddle {
        let step = self.velocity.y * delta_ms;
        Paddle {
            pos: Vector {
                x: self.pos.x,
                y: if self.pos.y - step >= limit {
                    (self.pos.y - step) as i64
                } else {
                    0
                },
            },
            ..self
        }
    }

    /// The paddle after moving down for `delta_ms` milliseconds: the step
    /// is taken if it keeps the paddle's bottom at or under `limit`,
    /// otherwise the paddle snaps flush against `limit`.
    pub open spec fn after_down(self, delta_ms: u64, limit: i64) -> Paddle {
        let step = self.velocity.y * delta_ms;
        Paddle {
            pos: Vector {
                x: self.pos.x,
                y: if self.pos.y + self.height * PIXEL + step <= limit {
                    (self.pos.y + step) as i64
                } else {
                    (limit - self.height * PIXEL) as i64
                },
            },
            ..self
        }
    }

    /// Height of one hit-indicator segment, in pixels: a fifth of the
    /// paddle's inner height.
    pub open spec fn spec_segment_height(self) -> int {
        (self.height - 10) / 5
    }

    /// The paddle's border rectangle, shifted by `origin`.
    pub open spec fn border_component(self, origin: Vector) -> Component {
        Component {
            x: to_px(self.pos.x + origin.x) as i64,
            y: to_px(self.pos.y + origin.y) as i64,
            width: self.width,
            height: self.height,
            color: self.border_color,
        }
    }

    /// The paddle's inner background rectangle, inset five pixels.
    pub open spec fn background_component(self, origin: Vector) -> Component {
        Component {
            x: to_px(self.pos.x + origin.x + 5 * PIXEL) as i64,
            y: to_px(self.pos.y + origin.y + 5 * PIXEL) as i64,
            width: (self.width - 10) as u32,
            height: (self.height - 10) as u32,
            color: self.background_color,
        }
    }

    /// Hit indicator number `i`, stacked upward from the paddle's bottom.
    pub open spec fn segment_component(self, origin: Vector, i: int) -> Component {
        Component {
            x: to_px(self.pos.x + origin.x + 5 * PIXEL) as i64,
            y: to_px(
                self.pos.y + (self.height - self.spec_segment_height() * (i + 1)) * PIXEL
                    + origin.y - 5 * PIXEL,
            ) as i64,
            width: (self.width - 10) as u32,
            height: self.spec_segment_height() as u32,
            color: self.border_color,
        }
    }

    /// The rectangles to draw for the paddle: border, background, and one
    /// indicator segment per recorded hit.
    pub fn components(&self, origin: &Vector) -> (r: Vec<Component>)
        requires
            self.wf(),
            -RENDER_POS_LIMIT <= origin.x <= RENDER_POS_LIMIT,
            -RENDER_POS_LIMIT <= origin.y <= RENDER_POS_LIMIT,
        ensures
            r@.len() == 2 + self.hits,
            r@[0] == self.border_component(*origin),
            r@[1] == self.background_component(*origin),
            forall|i: int| 0 <= i < self.hits ==> r@[i + 2] == self.segment_component(*origin, i),
    {
        let segment_height = (self.height - 10) / 5;
        let mut components: Vec<Component> = Vec::new();

        components.push(
            Component {
                x: mpx_to_px(self.pos.x + origin.x),
                y: mpx_to_px(self.pos.y + origin.y),
                width: self.width,
                height: self.height,
                color: self.border_color,
            },
        );
        components.push(
            Component {
                x: mpx_to_px(self.pos.x + origin.x + 5 * PIXEL),
                y: mpx_to_px(self.pos.y + origin.y + 5 * PIXEL),
                width: self.width - 10,
                height: self.height - 10,
                color: self.background_color,
            },
        );

        let mut i: u8 = 0;
        while i < self.hits
            invariant
                self.wf(),
                -RENDER_POS_LIMIT <= origin.x <= RENDER_POS_LIMIT,
                -RENDER_POS_LIMIT <= origin.y <= RENDER_POS_LIMIT,
                i <= self.hits,
                segment_height == self.spec_segment_height(),
                components@.len() == 2 + i,
                components@[0] == self.border_component(*origin),
                components@[1] == self.background_component(*origin),
                forall|j: int|
                    0 <= j < i ==> components@[j + 2] == self.segment_component(*origin, j),
            decreases self.hits - i,
        {
            proof {
                crate::fixed::lemma_mul_bounds(
                    segment_height as int,
                    i + 1,
                    segment_height as int,
                    5,
                );
            }
            components.push(
                Component {
                    x: mpx_to_px(self.pos.x + origin.x + 5 * PIXEL),
                    y: mpx_to_px(
                        self.pos.y
                            + ((self.height - segment_height * (i as u32 + 1)) as i64) * PIXEL
                            + origin.y - 5 * PIXEL,
                    ),
                    width: self.width - 10,
                    height: segment_height,
                    color: self.border_color,
                },
            );
            i = i + 1;
        }

        components
    }

    pub fn new(pos: Vector, width: u32, height: u32, speed: i64, color: Color) -> (r: Paddle)
        requires
            0 <= pos.x <= POS_LIMIT,
            0 <= pos.y <= POS_LIMIT,
            11 <= width <= DIM_LIMIT,
            11 <= height <= DIM_LIMIT,
            0 <= speed <= SPEED_LIMIT,
        ensures
            r == (Paddle {
                pos,
                width,
                height,
                velocity: Vector { x: 0, y: speed },
                border_color: color,
                background_color: Color::White,
                hits: 0,
            }),
            r.wf(),
    {
        Paddle {
            pos,
            width,
            height,
            velocity: Vector { x: 0, y: speed },
            border_color: color,
            background_color: Color::White,
            hits: 0,
        }
    }

    /// Horizontal position in whole pixels.
    pub fn x(&self) -> (r: i64)
        requires
            self.pos.x > i64::MIN,
        ensures
            r == to_px(self.pos.x as int),
    {
        mpx_to_px(self.pos.x)
    }

    /// Vertical position in whole pixels.
    pub fn y(&self) -> (r: i64)
        requires
            self.pos.y > i64::MIN,
        ensures
            r == to_px(self.pos.y as int),
    {
        mpx_to_px(self.pos.y)
    }

    /// Center position in millipixels.
    pub fn center(&self) -> (r: Vector)
        requires
            self.pos.x + self.width * 500 <= i64::MAX,
            self.pos.y + self.height * 500 <= i64::MAX,
        ensures
            r.x == self.center_x(),
            r.y == self.center_y(),
    {
        Vector {
            x: self.pos.x + (self.width as i64) * 500,
            y: self.pos.y + (self.height as i64) * 500,
        }
    }

    /// Record a successful return; the counter saturates at five.
    pub fn hit(&mut self)
        ensures
            *final(self) == (Paddle { hits: Paddle::hits_after_hit(old(self).hits), ..*old(self) }),
    {
        if self.hits < 5 {
            self.hits = self.hits + 1;
        }
    }

    /// Record a miss; the counter saturates at zero.
    pub fn miss(&mut self)
        ensures
            *final(self) == (Paddle { hits: Paddle::hits_after_miss(old(self).hits), ..*old(self) }),
    {
        if self.hits > 0 {
            self.hits = self.hits - 1;
        }
    }

    /// Clear the hit counter.
    pub fn reset_hits(&mut self)
        ensures
            *final(self) == (Paddle { hits: 0, ..*old(self) }),
    {
        self.hits = 0;
    }

    /// Recolor the border (the hit indicators share the border color).
    pub fn set_color(&mut self, color: &Color)
        ensures
            *final(self) == (Paddle { border_color: *color, ..*old(self) }),
    {
        self.border_color = *color;
    }

    /// Move toward the top of the board, snapping to the top when the
    /// remaining distance to `limit` is smaller than one step.
    pub fn up(&mut self, delta_ms: u64, limit: i64)
        requires
            old(self).wf(),
            delta_ms <= DT_LIMIT,
            -POS_LIMIT <= limit <= POS_LIMIT,
        ensures
            *final(self) == old(self).after_up(delta_ms, limit),
            limit >= 0 ==> final(self).wf(),
    {
        proof {
            crate::fixed::lemma_mul_bounds(
                self.velocity.y as int,
                delta_ms as int,
                SPEED_LIMIT as int,
                DT_LIMIT as int,
            );
        }
        let step_size = self.velocity.y * (delta_ms as i64);

        if self.pos.y - step_size >= limit {
            self.pos.y = self.pos.y - step_size;
        } else {
            // When the remaining distance is smaller than one step the
            // paddle jumps straight to the top edge rather than creeping
            // the exact remainder.
            self.pos.y = 0;
        }
    }

    /// Move toward the bottom of the board, snapping flush against `limit`
    /// when the remaining distance is smaller than one step.
    pub fn down(&mut self, delta_ms: u64, limit: i64)
        requires
            old(self).wf(),
            delta_ms <= DT_LIMIT,
            -POS_LIMIT <= limit <= POS_LIMIT,
        ensures
            *final(self) == old(self).after_down(delta_ms, limit),
            limit >= old(self).height * PIXEL ==> final(self).wf(),
    {
        proof {
            crate::fixed::lemma_mul_bounds(
                self.velocity.y as int,
                delta_ms as int,
                SPEED_LIMIT as int,
                DT_LIMIT as int,
            );
        }
        let step_size = self.velocity.y * (delta_ms as i64);

        if self.pos.y + (self.height as i64) * PIXEL + step_size <= limit {
            self.pos.y = self.pos.y + step_size;
        } else {
            self.pos.y = limit - (self.height as i64) * PIXEL;
        }
    }

    pub fn right_edge(&self) -> (r: i64)
        requires
            self.pos.x > i64::MIN,
            to_px(self.pos.x as int) + self.width <= i64::MAX,
        ensures
            r == self.right_px(),
    {
        self.x() + self.width as i64
    }

    pub fn top_edge(&self) -> (r: i64)
        requires
            self.pos.y > i64::MIN,
        ensures
            r == self.top_px(),
    {
        self.y()
    }

    pub fn bottom_edge(&self) -> (r: i64)
        requires
            self.pos.y > i64::MIN,
            to_px(self.pos.y as int) + self.height <= i64::MAX,
        ensures
            r == self.bottom_px(),
    {
        self.y() + self.height as i64
    }
}

} // verus!
