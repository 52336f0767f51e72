//! Game-wide laws: properties that hold over whole sequences of
//! operations, proved once here against the spec functions the
//! operations' own contracts use.

use vstd::prelude::*;

use crate::component::{Ball, Paddle};
use crate::constants::{Constants, DT_LIMIT, POS_LIMIT, SPEED_LIMIT, VEL_LIMIT};
use crate::fixed::{round_px, PIXEL};
use crate::game::{Game, GameStates, Inputs};
use crate::vector::Vector;

verus! {

/// One vertical paddle move, as the game issues it: up snaps at the top
/// of the board, down at the bottom edge.
pub enum PaddleMove {
    Up(u64),
    Down(u64),
}

impl PaddleMove {
    /// The elapsed milliseconds the move covers.
    pub open spec fn dt(self) -> u64 {
        match self {
            PaddleMove::Up(d) => d,
            PaddleMove::Down(d) => d,
        }
    }
}

/// The paddle after a sequence of moves against a board of the given
/// height, each applied with the limits the game passes: zero for up,
/// the board's bottom edge for down.
pub open spec fn apply_moves(p: Paddle, moves: Seq<PaddleMove>, board_height: i64) -> Paddle
    decreases moves.len(),
{
    if moves.len() == 0 {
        p
    } else {
        let q = match moves[0] {
            PaddleMove::Up(d) => p.after_up(d, 0),
            PaddleMove::Down(d) => p.after_down(d, (board_height * PIXEL) as i64),
        };
        apply_moves(q, moves.drop_first(), board_height)
    }
}

/// After any sequence of up and down moves, a paddle that starts on the
/// board stays on it: `0 <= pos.y <= (board_height - height) * PIXEL`,
/// its shape untouched.
pub proof fn lemma_moves_stay_in_bounds(p: Paddle, moves: Seq<PaddleMove>, board_height: i64)
    requires
        p.wf(),
        0 <= p.pos.y <= (board_height - p.height) * PIXEL,
        p.height <= board_height,
        board_height * PIXEL <= POS_LIMIT,
        forall|i: int| 0 <= i < moves.len() ==> #[trigger] moves[i].dt() <= DT_LIMIT,
    ensures
        ({
            let q = apply_moves(p, moves, board_height);
            &&& q.wf()
            &&& 0 <= q.pos.y <= (board_height - p.height) * PIXEL
            &&& q == (Paddle { pos: Vector { x: p.pos.x, y: q.pos.y }, ..p })
        }),
    decreases moves.len(),
{
    if moves.len() > 0 {
        crate::fixed::lemma_mul_bounds(
            p.velocity.y as int,
            moves[0].dt() as int,
            SPEED_LIMIT as int,
            DT_LIMIT as int,
        );
        let q = match moves[0] {
            PaddleMove::Up(d) => p.after_up(d, 0),
            PaddleMove::Down(d) => p.after_down(d, (board_height * PIXEL) as i64),
        };
        assert(forall|i: int|
            0 <= i < moves.drop_first().len() ==> #[trigger] moves.drop_first()[i].dt()
                <= DT_LIMIT);
        lemma_moves_stay_in_bounds(q, moves.drop_first(), board_height);
    }
}

/// One hit-counter operation: a successful return, a miss, or a reset.
pub enum HitOp {
    Scored,
    Missed,
    Cleared,
}

/// The counter after a sequence of operations.
pub open spec fn apply_hit_ops(h: u8, ops: Seq<HitOp>) -> u8
    decreases ops.len(),
{
    if ops.len() == 0 {
        h
    } else {
        let h2 = match ops[0] {
            HitOp::Scored => Paddle::hits_after_hit(h),
            HitOp::Missed => Paddle::hits_after_miss(h),
            HitOp::Cleared => 0u8,
        };
        apply_hit_ops(h2, ops.drop_first())
    }
}

/// The hit counter never leaves `[0, 5]` under any sequence of hits,
/// misses and resets (the lower bound is the counter's own type).
pub proof fn lemma_hits_stay_bounded(h: u8, ops: Seq<HitOp>)
    requires
        h <= 5,
    ensures
        apply_hit_ops(h, ops) <= 5,
    decreases ops.len(),
{
    if ops.len() > 0 {
        let h2 = match ops[0] {
            HitOp::Scored => Paddle::hits_after_hit(h),
            HitOp::Missed => Paddle::hits_after_miss(h),
            HitOp::Cleared => 0u8,
        };
        lemma_hits_stay_bounded(h2, ops.drop_first());
    }
}

/// A zero-millisecond integration step leaves the ball exactly as it
/// was.
pub proof fn lemma_update_zero_is_identity(b: Ball)
    ensures
        b.after_update(0) == b,
{
    assert(round_px(b.velocity.x * 0) == 0);
    assert(round_px(b.velocity.y * 0) == 0);
}

/// One resolver pass on a ball that is moving up with its top exactly at
/// the top edge, when no wall or paddle rule fires besides the top one,
/// flips the sign of the vertical velocity, leaves the horizontal
/// velocity unchanged, and touches neither paddle.
pub proof fn lemma_top_reflection(b: Ball, p1: Paddle, p2: Paddle, c: Constants)
    requires
        -VEL_LIMIT <= b.velocity.y <= VEL_LIMIT,
        b.velocity.y < 0,
        b.top_px() == 0,
        !Game::hits_left(b),
        !Game::hits_right(b, c),
        !Game::hits_paddle_one(b, p1),
        !Game::hits_paddle_two(b, p2, c),
    ensures
        ({
            let r = Game::resolved(b, p1, p2, c);
            &&& r.0.velocity.y == -b.velocity.y
            &&& r.0.velocity.x == b.velocity.x
            &&& r.0.pos == b.pos
            &&& r.1 == p1
            &&& r.2 == p2
        }),
{
}

/// The deflection is a function of the strike offset, the paddle height
/// and the vertical speed cap alone: it always yields the magnitude
/// `offset * max_ball_speed.y / (2 * paddle_height * PIXEL)` — the
/// millipixel form of `offset / paddle_height / 2 * max_ball_speed.y` —
/// signed by the ball's vertical direction before the call.
pub proof fn lemma_deflection_deterministic(b: Ball, distance: int, c: Constants)
    requires
        c.wf(),
        0 <= distance <= Game::dist_cap(c),
    ensures
        ({
            let m = Game::spec_vel_modifier(distance, c);
            let b2 = b.with_vy_magnitude(m);
            &&& m == distance * c.max_ball_speed.y / (2 * c.paddle_height * PIXEL)
            &&& 0 <= m <= Game::vy_cap(c)
            &&& b2.velocity.x == b.velocity.x
            &&& b2.pos == b.pos
            &&& (b.velocity.y < 0 ==> b2.velocity.y == -m)
            &&& (b.velocity.y >= 0 ==> b2.velocity.y == m)
        }),
{
    crate::game::lemma_deflection_in_cap(distance, c);
}

/// The board after a sequence of frames, each with its held intents and
/// elapsed milliseconds.
pub open spec fn apply_updates(g: Game, steps: Seq<(Inputs, u64)>) -> Game
    decreases steps.len(),
{
    if steps.len() == 0 {
        g
    } else {
        apply_updates(g.after_update(steps[0].0, steps[0].1), steps.drop_first())
    }
}

/// A paused board is left exactly as it is by any number of frames: no
/// position, velocity or counter changes until play starts.
pub proof fn lemma_paused_updates_identity(g: Game, steps: Seq<(Inputs, u64)>)
    requires
        g.state == GameStates::Paused,
    ensures
        apply_updates(g, steps) == g,
    decreases steps.len(),
{
    if steps.len() > 0 {
        lemma_paused_updates_identity(g, steps.drop_first());
    }
}

} // verus!
