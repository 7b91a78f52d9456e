//! The game state, its mathematical model, and its construction.

use vstd::prelude::*;

use crate::geom::{
    vec_in_range, Vec2, BALL_SIZE_MPX, MAX_DIM_MPX, PADDLE_HALF_W_MPX, PADDLE_H_MPX,
};
use crate::vel::{is_diag, random_dir_choice, spec_diag_x, spec_diag_y, DirChoice, Vel};

verus! {

/// The four held-key flags the step consumes, polled once per tick.
#[derive(Clone, Copy, Debug, PartialEq, Eq, Structural)]
pub struct Input {
    pub p1_up: bool,
    pub p1_down: bool,
    pub p2_up: bool,
    pub p2_down: bool,
}

impl Input {
    /// No key held.
    pub fn none() -> (i: Input)
        ensures
            i == (Input { p1_up: false, p1_down: false, p2_up: false, p2_down: false }),
    {
        Input { p1_up: false, p1_down: false, p2_up: false, p2_down: false }
    }
}

/// The whole mutable state of one continuous game.
///
/// Positions are millipixel coordinates; the direction vector is in
/// thousandths of a unit; `tick_accumulator` is elapsed real time, in
/// microseconds, not yet consumed by whole ticks.
#[derive(Clone, Copy, Debug, PartialEq, Eq, Structural)]
pub struct GameState {
    pub paddle1_pos: Vec2,
    pub paddle2_pos: Vec2,
    pub ball_pos: Vec2,
    pub ball_vel: Vel,
    pub score1: u64,
    pub score2: u64,
    pub tick_accumulator: u64,
}

/// The mathematical image of a state: every coordinate, direction
/// component and score as an unbounded integer. The accumulator is kept
/// apart, since no tick touches it.
pub struct Model {
    pub paddle1_x: int,
    pub paddle1_y: int,
    pub paddle2_x: int,
    pub paddle2_y: int,
    pub ball_x: int,
    pub ball_y: int,
    pub vel_x: int,
    pub vel_y: int,
    pub score1: int,
    pub score2: int,
}

impl View for GameState {
    type V = Model;

    open spec fn view(&self) -> Model {
        Model {
            paddle1_x: self.paddle1_pos.x as int,
            paddle1_y: self.paddle1_pos.y as int,
            paddle2_x: self.paddle2_pos.x as int,
            paddle2_y: self.paddle2_pos.y as int,
            ball_x: self.ball_pos.x as int,
            ball_y: self.ball_pos.y as int,
            vel_x: self.ball_vel.x as int,
            vel_y: self.ball_vel.y as int,
            score1: self.score1 as int,
            score2: self.score2 as int,
        }
    }
}

/// Well-formedness: the direction is one of the four unit diagonals —
/// in particular never the zero vector — and every coordinate lies in
/// the fixed range that keeps one tick of arithmetic inside `i64`.
pub open spec fn wf(s: GameState) -> bool {
    &&& is_diag(s.ball_vel.x as int, s.ball_vel.y as int)
    &&& vec_in_range(s.paddle1_pos)
    &&& vec_in_range(s.paddle2_pos)
    &&& vec_in_range(s.ball_pos)
}

/// The screen is wide enough for the ball and tall enough for a paddle,
/// and no larger than the accepted maximum.
pub open spec fn dims_ok(screen_w: int, screen_h: int) -> bool {
    &&& BALL_SIZE_MPX as int <= screen_w <= MAX_DIM_MPX as int
    &&& PADDLE_H_MPX as int <= screen_h <= MAX_DIM_MPX as int
}

/// The freshly created game: paddles centred vertically, each inset
/// half a paddle width from its side; ball at the screen centre moving
/// along the diagonal that `d` selects; both scores zero.
pub open spec fn spec_init(screen_w: int, screen_h: int, d: DirChoice) -> Model {
    Model {
        paddle1_x: PADDLE_HALF_W_MPX as int,
        paddle1_y: screen_h / 2,
        paddle2_x: screen_w - PADDLE_HALF_W_MPX as int,
        paddle2_y: screen_h / 2,
        ball_x: screen_w / 2,
        ball_y: screen_h / 2,
        vel_x: spec_diag_x(d),
        vel_y: spec_diag_y(d),
        score1: 0,
        score2: 0,
    }
}

impl GameState {
    /// The starting state for a screen of `screen_w` by `screen_h`
    /// millipixels, serving along the diagonal that `serve` selects.
    pub fn new(screen_w: i64, screen_h: i64, serve: DirChoice) -> (s: GameState)
        requires
            dims_ok(screen_w as int, screen_h as int),
        ensures
            s@ == spec_init(screen_w as int, screen_h as int, serve),
            s.tick_accumulator == 0,
            wf(s),
    {
        let mid_w = crate::geom::half_of(screen_w);
        let mid_h = crate::geom::half_of(screen_h);
        GameState {
            paddle1_pos: Vec2 { x: PADDLE_HALF_W_MPX, y: mid_h },
            paddle2_pos: Vec2 { x: screen_w - PADDLE_HALF_W_MPX, y: mid_h },
            ball_pos: Vec2 { x: mid_w, y: mid_h },
            ball_vel: Vel::from_choice(serve),
            score1: 0,
            score2: 0,
            tick_accumulator: 0,
        }
    }

    /// The starting state with the serve direction drawn at random:
    /// whatever was drawn, the result is the initial layout for one of
    /// the four diagonals.
    pub fn new_random(screen_w: i64, screen_h: i64) -> (s: GameState)
        requires
            dims_ok(screen_w as int, screen_h as int),
        ensures
            exists|d: DirChoice| s@ == spec_init(screen_w as int, screen_h as int, d),
            s.tick_accumulator == 0,
            wf(s),
    {
        let serve = random_dir_choice();
        let s = Self::new(screen_w, screen_h, serve);
        proof {
            assert(s@ == spec_init(screen_w as int, screen_h as int, serve));
        }
        s
    }
}

} // verus!
