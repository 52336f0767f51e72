//! One board: two paddles, a ball, a play/pause state, and the per-frame
//! update that moves everything and resolves collisions.
//!
//! The whole frame step is mirrored by spec functions — `after_update`
//! says exactly which board comes out of `update` — so every rule of the
//! physics (reflection order, paddle deflection, hit bookkeeping) is
//! pinned down, not just bounded.

use vstd::prelude::*;

use crate::component::{Ball, Component, Paddle};
use crate::constants::{Color, Constants, DT_LIMIT, POS_LIMIT, RENDER_POS_LIMIT, VEL_LIMIT};
use crate::fixed::{mpx_to_px, to_px, PIXEL};
use crate::random::random_in_range;
use crate::vector::Vector;

verus! {

#[derive(PartialEq, Eq, Structural, Clone, Copy, Debug)]
pub enum GameStates {
    Playing,
    Paused,
}

/// The movement intents held during one frame, applied in a fixed order:
/// paddle two up, paddle two down, paddle one up, paddle one down.
#[derive(PartialEq, Eq, Structural, Clone, Copy, Debug)]
pub struct Inputs {
    pub paddle_one_up: bool,
    pub paddle_one_down: bool,
    pub paddle_two_up: bool,
    pub paddle_two_down: bool,
}

#[derive(Clone, Copy, Debug)]
pub struct Game {
    pub background_color: Color,
    pub paddle_one: Paddle,
    pub paddle_two: Paddle,
    pub ball: Ball,
    pub state: GameStates,
    pub color_index: usize,
    pub constants: Constants,
}

impl Game {
    /// Upper bound, in millipixels, on the distance between ball center
    /// and paddle center while the two overlap vertically in whole-pixel
    /// terms (the slack covers the two truncations).
    pub open spec fn dist_cap(c: Constants) -> int {
        (c.ball_height + c.paddle_height) * 500 + 2 * (PIXEL - 1)
    }

    /// The deflection speed for a strike `distance` millipixels from the
    /// paddle's center: `distance / paddle_height / 2 * max_ball_speed.y`,
    /// carried out in millipixels and rounded down.
    pub open spec fn spec_vel_modifier(distance: int, c: Constants) -> int {
        distance * c.max_ball_speed.y / (2 * c.paddle_height * PIXEL)
    }

    /// Largest vertical ball speed play can produce: the start speed is
    /// under `max_ball_speed.y`, and a deflection is capped by the largest
    /// center distance a collision allows.
    pub open spec fn vy_cap(c: Constants) -> int {
        let deflect = Game::spec_vel_modifier(Game::dist_cap(c), c);
        if deflect >= c.max_ball_speed.y {
            deflect
        } else {
            c.max_ball_speed.y as int
        }
    }

    /// A board as play keeps it: valid configuration, paddles sized and
    /// placed by the configuration and inside the board, ball sized by the
    /// configuration, ball speed within the caps.
    pub open spec fn wf(self) -> bool {
        let c = self.constants;
        &&& c.wf()
        &&& self.paddle_one.wf()
        &&& self.paddle_two.wf()
        &&& self.paddle_one.width == c.paddle_width
        &&& self.paddle_one.height == c.paddle_height
        &&& self.paddle_two.width == c.paddle_width
        &&& self.paddle_two.height == c.paddle_height
        &&& self.paddle_one.pos.x == 0
        &&& self.paddle_two.pos.x == (c.window_width - c.paddle_width) * PIXEL
        &&& self.paddle_one.pos.y <= (c.window_height - c.paddle_height) * PIXEL
        &&& self.paddle_two.pos.y <= (c.window_height - c.paddle_height) * PIXEL
        &&& self.paddle_one.velocity.y == c.max_paddle_speed
        &&& self.paddle_two.velocity.y == c.max_paddle_speed
        &&& self.ball.width == c.ball_width
        &&& self.ball.height == c.ball_height
        &&& -c.max_ball_speed.x <= self.ball.velocity.x <= c.max_ball_speed.x
        &&& -Game::vy_cap(c) <= self.ball.velocity.y <= Game::vy_cap(c)
        &&& self.color_index < 3
    }

    /// The ball is moving up and its top has reached the top edge.
    pub open spec fn hits_top(b: Ball) -> bool {
        b.velocity.y < 0 && b.top_px() <= 0
    }

    /// The ball is moving down and its bottom has reached the bottom edge.
    pub open spec fn hits_bottom(b: Ball, c: Constants) -> bool {
        b.velocity.y > 0 && b.bottom_px() >= c.window_height
    }

    /// The ball is moving left and has reached the left edge.
    pub open spec fn hits_left(b: Ball) -> bool {
        b.velocity.x < 0 && b.left_px() <= 0
    }

    /// The ball is moving right and has reached the right edge.
    pub open spec fn hits_right(b: Ball, c: Constants) -> bool {
        b.velocity.x > 0 && b.right_px() >= c.window_width
    }

    /// The vertical whole-pixel spans of ball and paddle overlap.
    pub open spec fn in_collision_range(b: Ball, p: Paddle) -> bool {
        b.bottom_px() >= p.top_px() && b.top_px() <= p.bottom_px()
    }

    /// The ball is moving left, has reached the left paddle's right edge,
    /// and overlaps it vertically.
    pub open spec fn hits_paddle_one(b: Ball, p: Paddle) -> bool {
        b.velocity.x < 0 && b.left_px() <= p.right_px() && Game::in_collision_range(b, p)
    }

    /// The ball is moving right, has reached the right paddle's left edge,
    /// and overlaps it vertically.
    pub open spec fn hits_paddle_two(b: Ball, p: Paddle, c: Constants) -> bool {
        b.velocity.x > 0 && b.right_px() >= c.window_width - p.width
            && Game::in_collision_range(b, p)
    }

    /// The strike is in the outer two-segments band of the paddle.
    pub open spec fn extremity(distance: int, c: Constants) -> bool {
        to_px(distance) > 2 * c.paddle_segment
    }

    /// The ball is below the paddle's center and moving further up past
    /// it.
    pub open spec fn into_bottom_half(b: Ball, p: Paddle) -> bool {
        b.velocity.y < 0 && b.top_px() > to_px(p.center_y())
    }

    /// The ball is above the paddle's center and moving further down past
    /// it.
    pub open spec fn into_top_half(b: Ball, p: Paddle) -> bool {
        b.velocity.y > 0 && b.bottom_px() < to_px(p.center_y())
    }

    /// One paddle strike: an extremity hit toward the far half flips the
    /// vertical direction, then the vertical speed is recomputed from the
    /// strike offset, the horizontal direction flips, and the paddle
    /// records the hit.
    pub open spec fn bounce(b: Ball, p: Paddle, c: Constants) -> (Ball, Paddle) {
        let d = b.center_y() - p.center_y();
        let distance = if d < 0 { -d } else { d };
        let new_mag = Game::spec_vel_modifier(distance, c);
        let b1 = if (Game::extremity(distance, c) && Game::into_bottom_half(b, p))
            || Game::into_top_half(b, p) {
            b.flipped_y()
        } else {
            b
        };
        (
            b1.with_vy_magnitude(new_mag).flipped_x(),
            Paddle { hits: Paddle::hits_after_hit(p.hits), ..p },
        )
    }

    /// The edge checks of one resolver pass: top or bottom flips the
    /// vertical velocity; the left and right walls flip the horizontal
    /// velocity and charge the adjacent paddle a miss. The blocks apply
    /// in sequence on the state the previous one left.
    pub open spec fn edge_resolved(b: Ball, p1: Paddle, p2: Paddle, c: Constants) -> (
        Ball,
        Paddle,
        Paddle,
    ) {
        let b1 = if Game::hits_top(b) || Game::hits_bottom(b, c) {
            b.flipped_y()
        } else {
            b
        };
        let s1 = if Game::hits_left(b1) {
            (b1.flipped_x(), Paddle { hits: Paddle::hits_after_miss(p1.hits), ..p1 })
        } else {
            (b1, p1)
        };
        let s2 = if Game::hits_right(s1.0, c) {
            (s1.0.flipped_x(), Paddle { hits: Paddle::hits_after_miss(p2.hits), ..p2 })
        } else {
            (s1.0, p2)
        };
        (s2.0, s1.1, s2.1)
    }

    /// One resolver pass over the integrated ball: the edge checks first,
    /// then each paddle, every block applied in sequence on the state the
    /// previous one left.
    pub open spec fn resolved(b: Ball, p1: Paddle, p2: Paddle, c: Constants) -> (
        Ball,
        Paddle,
        Paddle,
    ) {
        let e = Game::edge_resolved(b, p1, p2, c);
        let s3 = if Game::hits_paddle_one(e.0, e.1) {
            Game::bounce(e.0, e.1, c)
        } else {
            (e.0, e.1)
        };
        let s4 = if Game::hits_paddle_two(s3.0, e.2, c) {
            Game::bounce(s3.0, e.2, c)
        } else {
            (s3.0, e.2)
        };
        (s4.0, s3.1, s4.1)
    }

    /// Both paddles after the held intents are applied, paddle two first,
    /// up before down.
    pub open spec fn paddles_moved(self, inputs: Inputs, delta_ms: u64) -> (Paddle, Paddle) {
        let limit = (self.constants.window_height * PIXEL) as i64;
        let p2a = if inputs.paddle_two_up {
            self.paddle_two.after_up(delta_ms, 0)
        } else {
            self.paddle_two
        };
        let p2b = if inputs.paddle_two_down {
            p2a.after_down(delta_ms, limit)
        } else {
            p2a
        };
        let p1a = if inputs.paddle_one_up {
            self.paddle_one.after_up(delta_ms, 0)
        } else {
            self.paddle_one
        };
        let p1b = if inputs.paddle_one_down {
            p1a.after_down(delta_ms, limit)
        } else {
            p1a
        };
        (p1b, p2b)
    }

    /// The board after one frame: nothing moves while paused; otherwise
    /// the paddles move by the held intents, the ball integrates, and the
    /// resolver runs.
    pub open spec fn after_update(self, inputs: Inputs, delta_ms: u64) -> Game {
        if self.state == GameStates::Paused {
            self
        } else {
            let moved = self.paddles_moved(inputs, delta_ms);
            let b = self.ball.after_update(delta_ms);
            let r = Game::resolved(b, moved.0, moved.1, self.constants);
            Game { ball: r.0, paddle_one: r.1, paddle_two: r.2, ..self }
        }
    }

    /// Build a board from a valid configuration: paddles flush against
    /// the walls at the top, ball centered, vertical start speed drawn
    /// from `[100, 3/4 * max_ball_speed.y)` millipixels per millisecond
    /// with a random sign, horizontal start speed `max_ball_speed.x` with
    /// a random sign, state paused.
    pub fn new(constants: Constants) -> (r: Game)
        requires
            constants.wf(),
        ensures
            r.wf(),
            r.constants == constants,
            r.background_color == constants.background_color,
            r.state == GameStates::Paused,
            r.color_index == 0,
            r.paddle_one == (Paddle {
                pos: Vector { x: 0, y: 0 },
                width: constants.paddle_width as u32,
                height: constants.paddle_height as u32,
                velocity: Vector { x: 0, y: constants.max_paddle_speed },
                border_color: constants.color_sequence[0],
                background_color: Color::White,
                hits: 0,
            }),
            r.paddle_two == (Paddle {
                pos: Vector {
                    x: ((constants.window_width - constants.paddle_width) * PIXEL) as i64,
                    y: 0,
                },
                width: constants.paddle_width as u32,
                height: constants.paddle_height as u32,
                velocity: Vector { x: 0, y: constants.max_paddle_speed },
                border_color: constants.color_sequence[0],
                background_color: Color::White,
                hits: 0,
            }),
            r.ball.pos.x == (constants.window_width / 2 - constants.ball_width / 2) * PIXEL,
            r.ball.pos.y == (constants.window_height / 2 - constants.ball_height / 2) * PIXEL,
            r.ball.width == constants.ball_width,
            r.ball.height == constants.ball_height,
            r.ball.color == constants.ball_color,
            r.ball.velocity.x == constants.max_ball_speed.x
                || r.ball.velocity.x == -constants.max_ball_speed.x,
            100 <= r.ball.velocity.y < (constants.max_ball_speed.y * 750) / 1000
                || -((constants.max_ball_speed.y * 750) / 1000) < r.ball.velocity.y <= -100,
    {
        let paddle_one = Paddle::new(
            Vector { x: 0, y: 0 },
            constants.paddle_width as u32,
            constants.paddle_height as u32,
            constants.max_paddle_speed,
            constants.color_sequence[0],
        );

        let paddle_two = Paddle::new(
            Vector { x: (constants.window_width - constants.paddle_width) * PIXEL, y: 0 },
            constants.paddle_width as u32,
            constants.paddle_height as u32,
            constants.max_paddle_speed,
            constants.color_sequence[0],
        );

        let ball_x = ((constants.window_width as u64 / 2) as i64
            - (constants.ball_width as u64 / 2) as i64) * PIXEL;
        let ball_y = ((constants.window_height as u64 / 2) as i64
            - (constants.ball_height as u64 / 2) as i64) * PIXEL;

        let hi = ((constants.max_ball_speed.y as u64 * 750) / 1000) as i64;
        let y_mag = random_in_range(100, hi);
        let starting_ball_y_vel = if random_in_range(0, 2) == 1 {
            y_mag
        } else {
            -y_mag
        };
        let starting_ball_x_vel = if random_in_range(0, 2) == 1 {
            constants.max_ball_speed.x
        } else {
            -constants.max_ball_speed.x
        };

        let ball = Ball::new(
            Vector { x: ball_x, y: ball_y },
            constants.ball_width as u32,
            constants.ball_height as u32,
            Vector { x: starting_ball_x_vel, y: starting_ball_y_vel },
            constants.ball_color,
        );

        proof {
            lemma_start_speed_under_cap(constants);
        }

        Game {
            background_color: constants.background_color,
            paddle_one,
            paddle_two,
            ball,
            state: GameStates::Paused,
            color_index: 0,
            constants,
        }
    }

    /// Leave the paused state.
    pub fn start(&mut self)
        ensures
            *final(self) == (Game { state: GameStates::Playing, ..*old(self) }),
    {
        self.state = GameStates::Playing;
    }

    /// Toggle between playing and paused.
    pub fn play_pause(&mut self)
        ensures
            old(self).state == GameStates::Paused ==> *final(self) == (Game {
                state: GameStates::Playing,
                ..*old(self)
            }),
            old(self).state != GameStates::Paused ==> *final(self) == (Game {
                state: GameStates::Paused,
                ..*old(self)
            }),
    {
        if self.state == GameStates::Paused {
            self.state = GameStates::Playing;
        } else {
            self.state = GameStates::Paused;
        }
    }

    /// Step to the next color of the sequence (wrapping after the third),
    /// recolor both paddles with it, and clear both hit counters.
    pub fn next_color(&mut self)
        requires
            old(self).color_index < 3,
        ensures
            final(self).color_index == (if old(self).color_index < 2 {
                old(self).color_index + 1
            } else {
                0
            }),
            final(self).paddle_one == (Paddle {
                border_color: old(self).constants.color_sequence[final(self).color_index as int],
                hits: 0,
                ..old(self).paddle_one
            }),
            final(self).paddle_two == (Paddle {
                border_color: old(self).constants.color_sequence[final(self).color_index as int],
                hits: 0,
                ..old(self).paddle_two
            }),
            final(self).ball == old(self).ball,
            final(self).state == old(self).state,
            final(self).constants == old(self).constants,
            final(self).background_color == old(self).background_color,
    {
        if self.color_index < 2 {
            self.color_index = self.color_index + 1;
        } else {
            self.color_index = 0;
        }

        let color = self.constants.color_sequence[self.color_index];
        self.paddle_one.set_color(&color);
        self.paddle_two.set_color(&color);

        self.paddle_one.reset_hits();
        self.paddle_two.reset_hits();
    }

    /// The rectangles to draw for the whole board: the background first,
    /// then the left paddle's, the right paddle's, and the ball's.
    pub fn components(&self, origin: &Vector) -> (r: Vec<Component>)
        requires
            self.wf(),
            -RENDER_POS_LIMIT <= self.ball.pos.x <= RENDER_POS_LIMIT,
            -RENDER_POS_LIMIT <= self.ball.pos.y <= RENDER_POS_LIMIT,
            -RENDER_POS_LIMIT <= origin.x <= RENDER_POS_LIMIT,
            -RENDER_POS_LIMIT <= origin.y <= RENDER_POS_LIMIT,
        ensures
            r@.len() == 6 + self.paddle_one.hits + self.paddle_two.hits,
            r@[0] == (Component {
                x: to_px(origin.x as int) as i64,
                y: to_px(origin.y as int) as i64,
                width: self.constants.window_width as u32,
                height: self.constants.window_height as u32,
                color: self.background_color,
            }),
            r@[1] == self.paddle_one.border_component(*origin),
            r@[2] == self.paddle_one.background_component(*origin),
            forall|i: int|
                0 <= i < self.paddle_one.hits ==> r@[3 + i] == self.paddle_one.segment_component(
                    *origin,
                    i,
                ),
            r@[3 + self.paddle_one.hits] == self.paddle_two.border_component(*origin),
            r@[4 + self.paddle_one.hits] == self.paddle_two.background_component(*origin),
            forall|i: int|
                0 <= i < self.paddle_two.hits ==> r@[5 + self.paddle_one.hits + i]
                    == self.paddle_two.segment_component(*origin, i),
            r@[5 + self.paddle_one.hits + self.paddle_two.hits] == self.ball.component(*origin),
    {
        let mut components: Vec<Component> = Vec::new();

        components.push(
            Component {
                x: mpx_to_px(origin.x),
                y: mpx_to_px(origin.y),
                width: self.constants.window_width as u32,
                height: self.constants.window_height as u32,
                color: self.background_color,
            },
        );

        let mut paddle_one_components = self.paddle_one.components(origin);
        components.append(&mut paddle_one_components);
        let mut paddle_two_components = self.paddle_two.components(origin);
        components.append(&mut paddle_two_components);
        let mut ball_components = self.ball.components(origin);
        components.append(&mut ball_components);

        components
    }

    /// Combined hit count of both paddles, read for level progression.
    pub fn hits(&self) -> (r: u8)
        requires
            self.paddle_one.hits + self.paddle_two.hits <= 255,
        ensures
            r == self.paddle_one.hits + self.paddle_two.hits,
    {
        self.paddle_one.hits + self.paddle_two.hits
    }

    /// Window the ball's coordinates stay in during one frame: the
    /// accepted starting bound plus the largest displacement one step can
    /// add.
    pub open spec fn frame_pos_bound() -> int {
        POS_LIMIT + VEL_LIMIT * DT_LIMIT + PIXEL
    }

    /// The ball's coordinates are inside the frame window.
    pub open spec fn ball_pos_ok(b: Ball) -> bool {
        &&& -Game::frame_pos_bound() <= b.pos.x <= Game::frame_pos_bound()
        &&& -Game::frame_pos_bound() <= b.pos.y <= Game::frame_pos_bound()
    }

    /// One frame: apply held intents to the paddles, integrate the ball,
    /// then resolve collisions, exactly as `after_update` composes them.
    /// While paused nothing moves.
    #[verifier::rlimit(100)]
    pub fn update(&mut self, inputs: &Inputs, delta_ms: u64)
        requires
            old(self).wf(),
            delta_ms <= DT_LIMIT,
            -POS_LIMIT <= old(self).ball.pos.x <= POS_LIMIT,
            -POS_LIMIT <= old(self).ball.pos.y <= POS_LIMIT,
        ensures
            *final(self) == old(self).after_update(*inputs, delta_ms),
            final(self).wf(),
    {
        if self.state == GameStates::Paused {
            return;
        }

        let ghost g0 = *self;
        let ghost c = self.constants;

        proof {
            lemma_vy_cap_bound(c);
        }

        self.move_paddles(inputs, delta_ms);

        let ghost moved = g0.paddles_moved(*inputs, delta_ms);

        proof {
            lemma_paddles_moved_wf(g0, *inputs, delta_ms);
            assert(self.paddle_one == moved.0);
            assert(self.paddle_two == moved.1);
            crate::fixed::lemma_mul_bounds(
                self.ball.velocity.x as int,
                delta_ms as int,
                VEL_LIMIT as int,
                DT_LIMIT as int,
            );
            crate::fixed::lemma_mul_bounds(
                self.ball.velocity.y as int,
                delta_ms as int,
                VEL_LIMIT as int,
                DT_LIMIT as int,
            );
            crate::fixed::lemma_round_px_close(self.ball.velocity.x * delta_ms);
            crate::fixed::lemma_round_px_close(self.ball.velocity.y * delta_ms);
        }

        self.ball.update(delta_ms);

        let ghost b0 = g0.ball.after_update(delta_ms);

        proof {
            assert(self.ball == b0);
            assert(Game::ball_pos_ok(self.ball));
        }

        self.resolve_edges();
        self.resolve_paddle_one();
        self.resolve_paddle_two();

        proof {
            let e = Game::edge_resolved(b0, moved.0, moved.1, c);
            let s3 = if Game::hits_paddle_one(e.0, e.1) {
                Game::bounce(e.0, e.1, c)
            } else {
                (e.0, e.1)
            };
            let s4 = if Game::hits_paddle_two(s3.0, e.2, c) {
                Game::bounce(s3.0, e.2, c)
            } else {
                (s3.0, e.2)
            };
            assert(self.ball == s4.0);
            assert(self.paddle_one == s3.1);
            assert(self.paddle_two == s4.1);
            assert(*self == g0.after_update(*inputs, delta_ms));
            lemma_after_update_wf(g0, *inputs, delta_ms);
        }
    }

    /// Apply the held intents to the paddles, paddle two first, up
    /// before down, with the board's top and bottom as the limits.
    fn move_paddles(&mut self, inputs: &Inputs, delta_ms: u64)
        requires
            old(self).constants.wf(),
            old(self).paddle_one.wf(),
            old(self).paddle_two.wf(),
            delta_ms <= DT_LIMIT,
        ensures
            ({
                let moved = old(self).paddles_moved(*inputs, delta_ms);
                &&& final(self).paddle_one == moved.0
                &&& final(self).paddle_two == moved.1
            }),
            *final(self) == (Game {
                paddle_one: final(self).paddle_one,
                paddle_two: final(self).paddle_two,
                ..*old(self)
            }),
    {
        proof {
            crate::fixed::lemma_mul_bounds(
                self.paddle_one.velocity.y as int,
                delta_ms as int,
                crate::constants::SPEED_LIMIT as int,
                DT_LIMIT as int,
            );
            crate::fixed::lemma_mul_bounds(
                self.paddle_two.velocity.y as int,
                delta_ms as int,
                crate::constants::SPEED_LIMIT as int,
                DT_LIMIT as int,
            );
        }

        let limit = self.constants.window_height * PIXEL;

        if inputs.paddle_two_up {
            self.paddle_two.up(delta_ms, 0);
        }
        if inputs.paddle_two_down {
            self.paddle_two.down(delta_ms, limit);
        }
        if inputs.paddle_one_up {
            self.paddle_one.up(delta_ms, 0);
        }
        if inputs.paddle_one_down {
            self.paddle_one.down(delta_ms, limit);
        }
    }

    /// The edge checks of one frame, on the already integrated ball.
    fn resolve_edges(&mut self)
        requires
            Game::ball_pos_ok(old(self).ball),
            old(self).constants.wf(),
            -VEL_LIMIT <= old(self).ball.velocity.x <= VEL_LIMIT,
            -VEL_LIMIT <= old(self).ball.velocity.y <= VEL_LIMIT,
        ensures
            ({
                let e = Game::edge_resolved(
                    old(self).ball,
                    old(self).paddle_one,
                    old(self).paddle_two,
                    old(self).constants,
                );
                &&& final(self).ball == e.0
                &&& final(self).paddle_one == e.1
                &&& final(self).paddle_two == e.2
            }),
            *final(self) == (Game {
                ball: final(self).ball,
                paddle_one: final(self).paddle_one,
                paddle_two: final(self).paddle_two,
                ..*old(self)
            }),
            final(self).ball.pos == old(self).ball.pos,
            final(self).ball.width == old(self).ball.width,
            final(self).ball.height == old(self).ball.height,
            final(self).ball.velocity.x == old(self).ball.velocity.x
                || final(self).ball.velocity.x == -old(self).ball.velocity.x,
            final(self).ball.velocity.y == old(self).ball.velocity.y
                || final(self).ball.velocity.y == -old(self).ball.velocity.y,
    {
        if self.ball_collides_with_top() || self.ball_collides_with_bottom() {
            self.ball.flip_y();
        }

        if self.ball_collides_with_left() {
            self.ball.flip_x();
            self.paddle_one.miss();
        }

        if self.ball_collides_with_right() {
            self.ball.flip_x();
            self.paddle_two.miss();
        }
    }

    /// The left paddle's collision block of one frame.
    fn resolve_paddle_one(&mut self)
        requires
            Game::ball_pos_ok(old(self).ball),
            old(self).constants.wf(),
            old(self).paddle_one.wf(),
            old(self).ball.height == old(self).constants.ball_height,
            old(self).paddle_one.height == old(self).constants.paddle_height,
            -VEL_LIMIT <= old(self).ball.velocity.x <= VEL_LIMIT,
            -VEL_LIMIT <= old(self).ball.velocity.y <= VEL_LIMIT,
        ensures
            ({
                let s = if Game::hits_paddle_one(old(self).ball, old(self).paddle_one) {
                    Game::bounce(old(self).ball, old(self).paddle_one, old(self).constants)
                } else {
                    (old(self).ball, old(self).paddle_one)
                };
                &&& final(self).ball == s.0
                &&& final(self).paddle_one == s.1
            }),
            *final(self) == (Game {
                ball: final(self).ball,
                paddle_one: final(self).paddle_one,
                ..*old(self)
            }),
            final(self).ball.pos == old(self).ball.pos,
            final(self).ball.width == old(self).ball.width,
            final(self).ball.height == old(self).ball.height,
            final(self).ball.velocity.x == old(self).ball.velocity.x
                || final(self).ball.velocity.x == -old(self).ball.velocity.x,
            final(self).ball.velocity.y == old(self).ball.velocity.y
                || -Game::vy_cap(old(self).constants) <= final(self).ball.velocity.y
                <= Game::vy_cap(old(self).constants),
    {
        if self.ball_collides_with_paddle_one() {
            proof {
                lemma_overlap_distance(self.ball, self.paddle_one);
            }
            let dy = self.ball.distance_to(&self.paddle_one).y;
            let collision_distance = if dy < 0 {
                -dy
            } else {
                dy
            };
            let new_velocity = self.vel_modifier(collision_distance);

            if self.ball_collides_with_paddle_extremity(collision_distance)
                && self.ball_moves_into_bottom_half(&self.paddle_one)
                || self.ball_moves_into_top_half(&self.paddle_one) {
                self.ball.flip_y();
            }

            self.ball.set_velocity_y_magnitude(new_velocity);
            self.ball.flip_x();
            self.paddle_one.hit();
        }
    }

    /// The right paddle's collision block of one frame.
    fn resolve_paddle_two(&mut self)
        requires
            Game::ball_pos_ok(old(self).ball),
            old(self).constants.wf(),
            old(self).paddle_two.wf(),
            old(self).ball.height == old(self).constants.ball_height,
            old(self).paddle_two.height == old(self).constants.paddle_height,
            -VEL_LIMIT <= old(self).ball.velocity.x <= VEL_LIMIT,
            -VEL_LIMIT <= old(self).ball.velocity.y <= VEL_LIMIT,
        ensures
            ({
                let s = if Game::hits_paddle_two(
                    old(self).ball,
                    old(self).paddle_two,
                    old(self).constants,
                ) {
                    Game::bounce(old(self).ball, old(self).paddle_two, old(self).constants)
                } else {
                    (old(self).ball, old(self).paddle_two)
                };
                &&& final(self).ball == s.0
                &&& final(self).paddle_two == s.1
            }),
            *final(self) == (Game {
                ball: final(self).ball,
                paddle_two: final(self).paddle_two,
                ..*old(self)
            }),
            final(self).ball.pos == old(self).ball.pos,
            final(self).ball.width == old(self).ball.width,
            final(self).ball.height == old(self).ball.height,
            final(self).ball.velocity.x == old(self).ball.velocity.x
                || final(self).ball.velocity.x == -old(self).ball.velocity.x,
            final(self).ball.velocity.y == old(self).ball.velocity.y
                || -Game::vy_cap(old(self).constants) <= final(self).ball.velocity.y
                <= Game::vy_cap(old(self).constants),
    {
        if self.ball_collides_with_paddle_two() {
            proof {
                lemma_overlap_distance(self.ball, self.paddle_two);
            }
            let dy = self.ball.distance_to(&self.paddle_two).y;
            let collision_distance = if dy < 0 {
                -dy
            } else {
                dy
            };
            let new_velocity = self.vel_modifier(collision_distance);

            if self.ball_collides_with_paddle_extremity(collision_distance)
                && self.ball_moves_into_bottom_half(&self.paddle_two)
                || self.ball_moves_into_top_half(&self.paddle_two) {
                self.ball.flip_y();
            }

            self.ball.set_velocity_y_magnitude(new_velocity);
            self.ball.flip_x();
            self.paddle_two.hit();
        }
    }

    /// The ball is moving left and has reached or passed the left
    /// paddle's right edge while overlapping it vertically.
    fn ball_collides_with_paddle_one(&self) -> (r: bool)
        requires
            Game::ball_pos_ok(self.ball),
            self.paddle_one.wf(),
        ensures
            r == Game::hits_paddle_one(self.ball, self.paddle_one),
    {
        self.ball.is_moving_left() && self.ball.left_edge() <= self.paddle_one.right_edge()
            && self.ball_within_paddle_collision_range(&self.paddle_one)
    }

    /// The ball is moving right and has reached or passed the right
    /// paddle's left edge while overlapping it vertically.
    fn ball_collides_with_paddle_two(&self) -> (r: bool)
        requires
            Game::ball_pos_ok(self.ball),
            self.paddle_two.wf(),
            self.constants.wf(),
        ensures
            r == Game::hits_paddle_two(self.ball, self.paddle_two, self.constants),
    {
        self.ball.is_moving_right()
            && self.ball.right_edge() >= self.constants.window_width
            - self.paddle_two.width as i64
            && self.ball_within_paddle_collision_range(&self.paddle_two)
    }

    /// The vertical whole-pixel spans of ball and paddle overlap.
    fn ball_within_paddle_collision_range(&self, paddle: &Paddle) -> (r: bool)
        requires
            Game::ball_pos_ok(self.ball),
            paddle.wf(),
        ensures
            r == Game::in_collision_range(self.ball, *paddle),
    {
        self.ball.bottom_edge() >= paddle.top_edge()
            && self.ball.top_edge() <= paddle.bottom_edge()
    }

    fn ball_collides_with_top(&self) -> (r: bool)
        requires
            Game::ball_pos_ok(self.ball),
        ensures
            r == Game::hits_top(self.ball),
    {
        self.ball.is_moving_up() && self.ball.top_edge() <= 0
    }

    fn ball_collides_with_bottom(&self) -> (r: bool)
        requires
            Game::ball_pos_ok(self.ball),
            self.constants.wf(),
        ensures
            r == Game::hits_bottom(self.ball, self.constants),
    {
        self.ball.is_moving_down() && self.ball.bottom_edge() >= self.constants.window_height
    }

    fn ball_collides_with_left(&self) -> (r: bool)
        requires
            Game::ball_pos_ok(self.ball),
        ensures
            r == Game::hits_left(self.ball),
    {
        self.ball.is_moving_left() && self.ball.left_edge() <= 0
    }

    fn ball_collides_with_right(&self) -> (r: bool)
        requires
            Game::ball_pos_ok(self.ball),
            self.constants.wf(),
        ensures
            r == Game::hits_right(self.ball, self.constants),
    {
        self.ball.is_moving_right() && self.ball.right_edge() >= self.constants.window_width
    }

    /// The deflection speed for a strike `distance` millipixels from the
    /// paddle's center.
    fn vel_modifier(&self, distance: i64) -> (r: i64)
        requires
            self.constants.wf(),
            0 <= distance <= Game::dist_cap(self.constants),
        ensures
            r == Game::spec_vel_modifier(distance as int, self.constants),
            0 <= r <= Game::vy_cap(self.constants),
    {
        proof {
            crate::fixed::lemma_mul_bounds(
                distance as int,
                self.constants.max_ball_speed.y as int,
                Game::dist_cap(self.constants),
                crate::constants::SPEED_LIMIT as int,
            );
            crate::fixed::lemma_mul_le(
                distance as int,
                Game::dist_cap(self.constants),
                self.constants.max_ball_speed.y as int,
            );
        }
        let num = distance * self.constants.max_ball_speed.y;
        let denom = 2 * self.constants.paddle_height * PIXEL;
        proof {
            vstd::arithmetic::div_mod::lemma_div_pos_is_pos(num as int, denom as int);
            vstd::arithmetic::div_mod::lemma_div_nonincreasing(num as int, denom as int);
            vstd::arithmetic::div_mod::lemma_div_is_ordered(
                num as int,
                Game::dist_cap(self.constants) * self.constants.max_ball_speed.y,
                denom as int,
            );
        }
        ((num as u64) / (denom as u64)) as i64
    }

    /// The strike is in the outer two-segments band of the paddle.
    fn ball_collides_with_paddle_extremity(&self, distance: i64) -> (r: bool)
        requires
            0 <= distance,
            self.constants.wf(),
        ensures
            r == Game::extremity(distance as int, self.constants),
    {
        // Edge two sixths of the paddle.
        mpx_to_px(distance) > self.constants.paddle_segment * 2
    }

    /// The ball is below the paddle's center and moving further up past
    /// it.
    fn ball_moves_into_bottom_half(&self, paddle: &Paddle) -> (r: bool)
        requires
            Game::ball_pos_ok(self.ball),
            paddle.wf(),
        ensures
            r == Game::into_bottom_half(self.ball, *paddle),
    {
        self.ball.is_moving_up() && self.ball.top_edge() > mpx_to_px(paddle.center().y)
    }

    /// The ball is above the paddle's center and moving further down past
    /// it.
    fn ball_moves_into_top_half(&self, paddle: &Paddle) -> (r: bool)
        requires
            Game::ball_pos_ok(self.ball),
            paddle.wf(),
        ensures
            r == Game::into_top_half(self.ball, *paddle),
    {
        self.ball.is_moving_down() && self.ball.bottom_edge() < mpx_to_px(paddle.center().y)
    }
}

/// The vertical speed cap of a valid configuration is nonnegative, at
/// least the configured speed, and within the machine bound.
proof fn lemma_vy_cap_bound(c: Constants)
    requires
        c.wf(),
    ensures
        c.max_ball_speed.y <= Game::vy_cap(c),
        0 <= Game::vy_cap(c) <= VEL_LIMIT,
{
    let num = Game::dist_cap(c) * c.max_ball_speed.y;
    let denom = 2 * c.paddle_height * PIXEL;
    crate::fixed::lemma_mul_bounds(
        Game::dist_cap(c),
        c.max_ball_speed.y as int,
        100_001_998,
        crate::constants::SPEED_LIMIT as int,
    );
    vstd::arithmetic::div_mod::lemma_div_pos_is_pos(num, denom);
    vstd::arithmetic::div_mod::lemma_div_is_ordered_by_denominator(num, 2000, denom);
    vstd::arithmetic::div_mod::lemma_div_is_ordered(num, 100_001_998_000_000, 2000);
}

/// While ball and paddle overlap vertically in whole-pixel terms, their
/// centers are within `dist_cap` of one another: each truncation moves a
/// coordinate by less than a pixel.
proof fn lemma_overlap_distance(b: Ball, p: Paddle)
    requires
        Game::in_collision_range(b, p),
    ensures
        -((b.height + p.height) * 500 + 2 * (PIXEL - 1)) <= b.center_y() - p.center_y()
            <= (b.height + p.height) * 500 + 2 * (PIXEL - 1),
{
    crate::fixed::lemma_to_px_close(b.pos.y as int);
    crate::fixed::lemma_to_px_close(p.pos.y as int);
}

/// Moving the paddles preserves their shape and keeps them on the board:
/// the step is nonnegative, `up` never raises a position, and `down`
/// stops at the bottom edge.
proof fn lemma_paddles_moved_wf(g: Game, inputs: Inputs, delta_ms: u64)
    requires
        g.wf(),
        delta_ms <= DT_LIMIT,
    ensures
        ({
            let moved = g.paddles_moved(inputs, delta_ms);
            let bound = (g.constants.window_height - g.constants.paddle_height) * PIXEL;
            &&& moved.0.wf()
            &&& moved.1.wf()
            &&& moved.0 == (Paddle { pos: moved.0.pos, ..g.paddle_one })
            &&& moved.1 == (Paddle { pos: moved.1.pos, ..g.paddle_two })
            &&& moved.0.pos.x == g.paddle_one.pos.x
            &&& moved.1.pos.x == g.paddle_two.pos.x
            &&& moved.0.pos.y <= bound
            &&& moved.1.pos.y <= bound
        }),
{
    crate::fixed::lemma_mul_bounds(
        g.constants.max_paddle_speed as int,
        delta_ms as int,
        crate::constants::SPEED_LIMIT as int,
        DT_LIMIT as int,
    );
}

/// The deflection magnitude computed from a strike distance within
/// `dist_cap` is nonnegative and under the vertical speed cap.
pub(crate) proof fn lemma_deflection_in_cap(distance: int, c: Constants)
    requires
        c.wf(),
        0 <= distance <= Game::dist_cap(c),
    ensures
        0 <= Game::spec_vel_modifier(distance, c) <= Game::vy_cap(c),
        Game::vy_cap(c) <= VEL_LIMIT,
{
    lemma_vy_cap_bound(c);
    crate::fixed::lemma_mul_bounds(
        distance,
        c.max_ball_speed.y as int,
        Game::dist_cap(c),
        crate::constants::SPEED_LIMIT as int,
    );
    crate::fixed::lemma_mul_le(distance, Game::dist_cap(c), c.max_ball_speed.y as int);
    vstd::arithmetic::div_mod::lemma_div_pos_is_pos(
        distance * c.max_ball_speed.y,
        2 * c.paddle_height * PIXEL,
    );
    vstd::arithmetic::div_mod::lemma_div_is_ordered(
        distance * c.max_ball_speed.y,
        Game::dist_cap(c) * c.max_ball_speed.y,
        2 * c.paddle_height * PIXEL,
    );
}

/// A paddle strike leaves the ball where it was, negates the horizontal
/// velocity, and gives the vertical velocity a magnitude no larger than
/// the cap; the paddle only gains a hit.
proof fn lemma_bounce_props(b: Ball, p: Paddle, c: Constants)
    requires
        c.wf(),
        p.wf(),
        b.height == c.ball_height,
        p.height == c.paddle_height,
        -VEL_LIMIT <= b.velocity.x <= VEL_LIMIT,
        -VEL_LIMIT <= b.velocity.y <= VEL_LIMIT,
        Game::in_collision_range(b, p),
    ensures
        ({
            let s = Game::bounce(b, p, c);
            &&& s.0 == (Ball { velocity: s.0.velocity, ..b })
            &&& s.0.velocity.x == -b.velocity.x
            &&& -Game::vy_cap(c) <= s.0.velocity.y <= Game::vy_cap(c)
            &&& s.1 == (Paddle { hits: Paddle::hits_after_hit(p.hits), ..p })
            &&& s.1.wf()
        }),
{
    lemma_overlap_distance(b, p);
    let d = b.center_y() - p.center_y();
    let distance = if d < 0 {
        -d
    } else {
        d
    };
    lemma_deflection_in_cap(distance, c);
}

/// One frame keeps the board well formed.
proof fn lemma_after_update_wf(g: Game, inputs: Inputs, delta_ms: u64)
    requires
        g.wf(),
        delta_ms <= DT_LIMIT,
    ensures
        g.after_update(inputs, delta_ms).wf(),
{
    if g.state != GameStates::Paused {
        let c = g.constants;
        let moved = g.paddles_moved(inputs, delta_ms);
        lemma_paddles_moved_wf(g, inputs, delta_ms);
        lemma_vy_cap_bound(c);
        let b0 = g.ball.after_update(delta_ms);
        let e = Game::edge_resolved(b0, moved.0, moved.1, c);
        if Game::hits_paddle_one(e.0, e.1) {
            lemma_bounce_props(e.0, e.1, c);
        }
        let s3 = if Game::hits_paddle_one(e.0, e.1) {
            Game::bounce(e.0, e.1, c)
        } else {
            (e.0, e.1)
        };
        if Game::hits_paddle_two(s3.0, e.2, c) {
            lemma_bounce_props(s3.0, e.2, c);
        }
    }
}

/// The drawn starting speed stays under the vertical speed cap: the draw
/// is below three quarters of `max_ball_speed.y`, which the cap dominates.
proof fn lemma_start_speed_under_cap(c: Constants)
    requires
        c.wf(),
    ensures
        (c.max_ball_speed.y * 750) / 1000 <= Game::vy_cap(c),
{
    let maxy = c.max_ball_speed.y as int;
    vstd::arithmetic::div_mod::lemma_div_is_ordered(maxy * 750, maxy * 1000, 1000);
    vstd::arithmetic::div_mod::lemma_div_multiples_vanish(maxy, 1000);
}

} // verus!
