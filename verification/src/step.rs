//! One simulation tick, and the fixed-timestep loop that drains
//! accumulated real time into whole ticks.
//!
//! A tick runs five stages in order, all in millipixel arithmetic:
//! paddle motion with an immediate clamp, ball integration, side-exit
//! scoring with a centre reset, top-and-bottom bounce, and paddle
//! collision. Each stage has a specification function over the state's
//! mathematical model; the executable tick is proved equal to their
//! composition.

use vstd::prelude::*;

use crate::geom::{
    boxes_overlap, clamp_mpx, half_of, spec_abs, spec_clamp, spec_overlap, BALL_HALF_MPX,
    BALL_STEP_MPX, MAX_DIM_MPX, PADDLE_HALF_H_MPX, PADDLE_H_MPX, PADDLE_STEP_MPX, TICK_MICROS,
};
use crate::state::{dims_ok, wf, GameState, Input, Model};
use crate::vel::{random_dir_choice, spec_diag_x, spec_diag_y, DirChoice};

verus! {

/// A paddle's vertical position after one tick: moved up while its up
/// key is held and down while its down key is held, then clamped so the
/// whole paddle stays on screen.
pub open spec fn spec_paddle_y(y: int, up: bool, down: bool, screen_h: int) -> int {
    let moved = y + (if up {
        -(PADDLE_STEP_MPX as int)
    } else {
        0
    }) + (if down {
        PADDLE_STEP_MPX as int
    } else {
        0
    });
    spec_clamp(moved, PADDLE_HALF_H_MPX as int, screen_h - PADDLE_HALF_H_MPX as int)
}

/// Both paddles moved and clamped; nothing else touched.
pub open spec fn spec_move_paddles(m: Model, input: Input, screen_h: int) -> Model {
    Model {
        paddle1_y: spec_paddle_y(m.paddle1_y, input.p1_up, input.p1_down, screen_h),
        paddle2_y: spec_paddle_y(m.paddle2_y, input.p2_up, input.p2_down, screen_h),
        ..m
    }
}

/// The distance the ball covers along one axis in one tick: a fixed
/// magnitude with the sign of that axis' direction component. The
/// magnitude is fixed because a well-formed direction component is
/// always plus or minus `DIAG_MILLI`.
pub open spec fn spec_disp(v: int) -> int {
    if v >= 0 {
        BALL_STEP_MPX as int
    } else {
        -(BALL_STEP_MPX as int)
    }
}

/// The ball advanced one tick along its direction.
pub open spec fn spec_integrate(m: Model) -> Model {
    Model { ball_x: m.ball_x + spec_disp(m.vel_x), ball_y: m.ball_y + spec_disp(m.vel_y), ..m }
}

/// Side-exit scoring. If the ball's left edge has crossed the left
/// side, player 2 scores one point; if its right edge has crossed the
/// right side, player 1 scores. On either event the ball returns to the
/// screen centre with the fresh serve direction `d` — a full reset, not
/// a bounce. Otherwise nothing changes.
pub open spec fn spec_score(m: Model, screen_w: int, screen_h: int, d: DirChoice) -> Model {
    if m.ball_x < BALL_HALF_MPX as int {
        Model {
            ball_x: screen_w / 2,
            ball_y: screen_h / 2,
            vel_x: spec_diag_x(d),
            vel_y: spec_diag_y(d),
            score2: m.score2 + 1,
            ..m
        }
    } else if m.ball_x > screen_w - BALL_HALF_MPX as int {
        Model {
            ball_x: screen_w / 2,
            ball_y: screen_h / 2,
            vel_x: spec_diag_x(d),
            vel_y: spec_diag_y(d),
            score1: m.score1 + 1,
            ..m
        }
    } else {
        m
    }
}

/// Top-and-bottom bounce. If the ball's top edge has crossed the top,
/// its centre is clamped to half a ball below the top and its vertical
/// direction is forced downward (positive); symmetrically at the
/// bottom, forced upward (negative).
pub open spec fn spec_bounce(m: Model, screen_h: int) -> Model {
    if m.ball_y < BALL_HALF_MPX as int {
        Model { ball_y: BALL_HALF_MPX as int, vel_y: spec_abs(m.vel_y), ..m }
    } else if m.ball_y > screen_h - BALL_HALF_MPX as int {
        Model { ball_y: screen_h - BALL_HALF_MPX as int, vel_y: -spec_abs(m.vel_y), ..m }
    } else {
        m
    }
}

/// Paddle collision. While the ball's box overlaps paddle 1's box its
/// horizontal direction is forced rightward (positive); while it
/// overlaps paddle 2's box, leftward (negative). Only the direction's
/// sign changes; the position is not corrected, so tunnelling through a
/// paddle at high speed is an accepted limitation.
pub open spec fn spec_paddle_hits(m: Model) -> Model {
    let m1 = if spec_overlap(m.ball_x, m.ball_y, m.paddle1_x, m.paddle1_y) {
        Model { vel_x: spec_abs(m.vel_x), ..m }
    } else {
        m
    };
    if spec_overlap(m1.ball_x, m1.ball_y, m1.paddle2_x, m1.paddle2_y) {
        Model { vel_x: -spec_abs(m1.vel_x), ..m1 }
    } else {
        m1
    }
}

/// One whole tick: the five stages composed in order.
pub open spec fn spec_tick(m: Model, input: Input, screen_w: int, screen_h: int, d: DirChoice) -> Model {
    spec_paddle_hits(
        spec_bounce(
            spec_score(spec_integrate(spec_move_paddles(m, input, screen_h)), screen_w, screen_h, d),
            screen_h,
        ),
    )
}

/// A paddle's vertical position after one tick.
fn paddle_tick(y: i64, up: bool, down: bool, screen_h: i64) -> (r: i64)
    requires
        crate::geom::in_coord_range(y as int),
        PADDLE_H_MPX <= screen_h <= MAX_DIM_MPX,
    ensures
        r as int == spec_paddle_y(y as int, up, down, screen_h as int),
        PADDLE_HALF_H_MPX <= r,
        r as int <= screen_h - PADDLE_HALF_H_MPX as int,
{
    let mut moved = y;
    if up {
        moved = moved - PADDLE_STEP_MPX;
    }
    if down {
        moved = moved + PADDLE_STEP_MPX;
    }
    clamp_mpx(moved, PADDLE_HALF_H_MPX, screen_h - PADDLE_HALF_H_MPX)
}

/// The signed per-tick displacement along one axis for direction
/// component `v`.
fn ball_disp(v: i64) -> (r: i64)
    ensures
        r as int == spec_disp(v as int),
{
    if v >= 0 {
        BALL_STEP_MPX
    } else {
        -BALL_STEP_MPX
    }
}

/// The direction component's magnitude, used to force its sign.
fn abs_milli(v: i64) -> (r: i64)
    requires
        i64::MIN < v,
    ensures
        r as int == spec_abs(v as int),
{
    if v < 0 {
        -v
    } else {
        v
    }
}

/// One deterministic simulation tick on `state`, with `reset_dir` as
/// the serve direction should a side exit occur this tick.
///
/// The new state is exactly the five-stage specification applied to the
/// old one. In particular, afterwards each paddle's vertical position
/// lies within `[PADDLE_HALF_H_MPX, screen_h - PADDLE_HALF_H_MPX]`, the
/// ball's direction is still a unit diagonal (never the zero vector),
/// and at most one player's score has grown, by exactly one.
pub fn tick(state: &mut GameState, input: Input, screen_w: i64, screen_h: i64, reset_dir: DirChoice)
    requires
        wf(*old(state)),
        dims_ok(screen_w as int, screen_h as int),
        old(state).score1 < u64::MAX,
        old(state).score2 < u64::MAX,
    ensures
        final(state)@ == spec_tick(
            old(state)@,
            input,
            screen_w as int,
            screen_h as int,
            reset_dir,
        ),
        final(state).tick_accumulator == old(state).tick_accumulator,
        wf(*final(state)),
        PADDLE_HALF_H_MPX as int <= final(state)@.paddle1_y <= screen_h - PADDLE_HALF_H_MPX as int,
        PADDLE_HALF_H_MPX as int <= final(state)@.paddle2_y <= screen_h - PADDLE_HALF_H_MPX as int,
        old(state).score1 <= final(state).score1 <= old(state).score1 + 1,
        old(state).score2 <= final(state).score2 <= old(state).score2 + 1,
        final(state).score1 + final(state).score2 <= old(state).score1 + old(state).score2 + 1,
{
    let ghost m0 = state@;

    // Paddle movement, clamped at once.
    state.paddle1_pos.y = paddle_tick(state.paddle1_pos.y, input.p1_up, input.p1_down, screen_h);
    state.paddle2_pos.y = paddle_tick(state.paddle2_pos.y, input.p2_up, input.p2_down, screen_h);
    proof {
        assert(state@ == spec_move_paddles(m0, input, screen_h as int));
    }
    let ghost m1 = state@;

    // Ball integration.
    state.ball_pos.x = state.ball_pos.x + ball_disp(state.ball_vel.x);
    state.ball_pos.y = state.ball_pos.y + ball_disp(state.ball_vel.y);
    proof {
        assert(state@ == spec_integrate(m1));
    }
    let ghost m2 = state@;

    // Side exit: score, and reset the ball to the centre with the fresh
    // serve direction.
    if state.ball_pos.x < BALL_HALF_MPX {
        state.ball_pos.x = half_of(screen_w);
        state.ball_pos.y = half_of(screen_h);
        state.ball_vel = crate::vel::Vel::from_choice(reset_dir);
        state.score2 = state.score2 + 1;
    } else if state.ball_pos.x > screen_w - BALL_HALF_MPX {
        state.ball_pos.x = half_of(screen_w);
        state.ball_pos.y = half_of(screen_h);
        state.ball_vel = crate::vel::Vel::from_choice(reset_dir);
        state.score1 = state.score1 + 1;
    }
    proof {
        assert(state@ == spec_score(m2, screen_w as int, screen_h as int, reset_dir));
    }
    let ghost m3 = state@;

    // Top and bottom bounce: clamp, and force the vertical sign.
    if state.ball_pos.y < BALL_HALF_MPX {
        state.ball_pos.y = BALL_HALF_MPX;
        state.ball_vel.y = abs_milli(state.ball_vel.y);
    } else if state.ball_pos.y > screen_h - BALL_HALF_MPX {
        state.ball_pos.y = screen_h - BALL_HALF_MPX;
        state.ball_vel.y = -abs_milli(state.ball_vel.y);
    }
    proof {
        assert(state@ == spec_bounce(m3, screen_h as int));
    }
    let ghost m4 = state@;

    // Paddle collision: force the horizontal sign away from the paddle.
    if boxes_overlap(state.ball_pos, state.paddle1_pos) {
        state.ball_vel.x = abs_milli(state.ball_vel.x);
    }
    if boxes_overlap(state.ball_pos, state.paddle2_pos) {
        state.ball_vel.x = -abs_milli(state.ball_vel.x);
    }
    proof {
        assert(state@ == spec_paddle_hits(m4));
    }
}

/// One tick with the serve direction drawn at random: whatever was
/// drawn, the new state is the five-stage specification applied with
/// one of the four diagonals.
pub fn tick_random(state: &mut GameState, input: Input, screen_w: i64, screen_h: i64)
    requires
        wf(*old(state)),
        dims_ok(screen_w as int, screen_h as int),
        old(state).score1 < u64::MAX,
        old(state).score2 < u64::MAX,
    ensures
        exists|d: DirChoice|
            final(state)@ == spec_tick(old(state)@, input, screen_w as int, screen_h as int, d),
        final(state).tick_accumulator == old(state).tick_accumulator,
        wf(*final(state)),
        PADDLE_HALF_H_MPX as int <= final(state)@.paddle1_y <= screen_h - PADDLE_HALF_H_MPX as int,
        PADDLE_HALF_H_MPX as int <= final(state)@.paddle2_y <= screen_h - PADDLE_HALF_H_MPX as int,
        old(state).score1 <= final(state).score1 <= old(state).score1 + 1,
        old(state).score2 <= final(state).score2 <= old(state).score2 + 1,
        final(state).score1 + final(state).score2 <= old(state).score1 + old(state).score2 + 1,
{
    let d = random_dir_choice();
    let ghost m0 = state@;
    tick(state, input, screen_w, screen_h, d);
    proof {
        assert(state@ == spec_tick(m0, input, screen_w as int, screen_h as int, d));
    }
}

/// What remains of an accumulated time `t` (microseconds) after whole
/// ticks are drained from it while more than one tick's worth is left.
pub open spec fn spec_drain(t: int) -> int
    decreases t,
{
    if t > TICK_MICROS as int {
        spec_drain(t - TICK_MICROS as int)
    } else {
        t
    }
}

/// How many whole ticks draining an accumulated time `t` runs.
pub open spec fn spec_nticks(t: int) -> int
    decreases t,
{
    if t > TICK_MICROS as int {
        1 + spec_nticks(t - TICK_MICROS as int)
    } else {
        0
    }
}

/// Draining never runs a negative number of ticks.
pub proof fn lemma_nticks_nonneg(t: int)
    ensures
        spec_nticks(t) >= 0,
    decreases t,
{
    if t > TICK_MICROS as int {
        lemma_nticks_nonneg(t - TICK_MICROS as int);
    }
}

/// The tick count of a drain is at most the accumulated time divided by
/// the tick length, so a caller can bound it by plain division.
pub proof fn lemma_nticks_le_div(t: int)
    requires
        t >= 0,
    ensures
        spec_nticks(t) <= t / (TICK_MICROS as int),
    decreases t,
{
    let tm = TICK_MICROS as int;
    if t > tm {
        lemma_nticks_le_div(t - tm);
        vstd::arithmetic::div_mod::lemma_fundamental_div_mod(t, tm);
        vstd::arithmetic::div_mod::lemma_fundamental_div_mod_converse(
            t - tm,
            tm,
            t / tm - 1,
            t % tm,
        );
        assert((t - tm) / tm == t / tm - 1);
    } else {
        vstd::arithmetic::div_mod::lemma_div_pos_is_pos(t, tm);
    }
}

/// The state after `dirs.len()` ticks on `m`, the ticks' serve
/// directions taken from `dirs` in order.
pub open spec fn spec_multi_tick(
    m: Model,
    input: Input,
    screen_w: int,
    screen_h: int,
    dirs: Seq<DirChoice>,
) -> Model
    decreases dirs.len(),
{
    if dirs.len() == 0 {
        m
    } else {
        spec_multi_tick(
            spec_tick(m, input, screen_w, screen_h, dirs[0]),
            input,
            screen_w,
            screen_h,
            dirs.drop_first(),
        )
    }
}

/// Running the ticks for `dirs` and then one more tick with `d` is the
/// same as running the ticks for `dirs.push(d)`.
pub proof fn lemma_multi_tick_snoc(
    m: Model,
    input: Input,
    screen_w: int,
    screen_h: int,
    dirs: Seq<DirChoice>,
    d: DirChoice,
)
    ensures
        spec_multi_tick(m, input, screen_w, screen_h, dirs.push(d)) == spec_tick(
            spec_multi_tick(m, input, screen_w, screen_h, dirs),
            input,
            screen_w,
            screen_h,
            d,
        ),
    decreases dirs.len(),
{
    let s1 = dirs.push(d);
    if dirs.len() == 0 {
        assert(s1[0] == d);
        assert(s1.drop_first() =~= Seq::<DirChoice>::empty());
        assert(spec_multi_tick(m, input, screen_w, screen_h, s1) == spec_multi_tick(
            spec_tick(m, input, screen_w, screen_h, d),
            input,
            screen_w,
            screen_h,
            s1.drop_first(),
        ));
        assert(spec_multi_tick(
            spec_tick(m, input, screen_w, screen_h, d),
            input,
            screen_w,
            screen_h,
            Seq::<DirChoice>::empty(),
        ) == spec_tick(m, input, screen_w, screen_h, d));
        assert(spec_multi_tick(m, input, screen_w, screen_h, dirs) == m);
    } else {
        let mh = spec_tick(m, input, screen_w, screen_h, dirs[0]);
        assert(s1[0] == dirs[0]);
        assert(s1.drop_first() =~= dirs.drop_first().push(d));
        assert(spec_multi_tick(m, input, screen_w, screen_h, s1) == spec_multi_tick(
            mh,
            input,
            screen_w,
            screen_h,
            s1.drop_first(),
        ));
        lemma_multi_tick_snoc(mh, input, screen_w, screen_h, dirs.drop_first(), d);
        assert(spec_multi_tick(m, input, screen_w, screen_h, dirs) == spec_multi_tick(
            mh,
            input,
            screen_w,
            screen_h,
            dirs.drop_first(),
        ));
    }
}

/// Fixed-timestep advance: add `elapsed_micros` of real time to the
/// accumulator, then run one randomly served tick per whole tick of
/// accumulated time, leaving the remainder for the next frame.
///
/// Every tick uses the same held-key flags `input`, as polled for this
/// frame. The score bounds in the requires keep the counters inside a
/// `u64`; a caller can check them with plain division.
pub fn advance(
    state: &mut GameState,
    input: Input,
    elapsed_micros: u64,
    screen_w: i64,
    screen_h: i64,
)
    requires
        wf(*old(state)),
        dims_ok(screen_w as int, screen_h as int),
        old(state).tick_accumulator as int + elapsed_micros as int <= u64::MAX as int,
        old(state).score1 as int + (old(state).tick_accumulator as int + elapsed_micros as int) / (
        TICK_MICROS as int) < u64::MAX as int,
        old(state).score2 as int + (old(state).tick_accumulator as int + elapsed_micros as int) / (
        TICK_MICROS as int) < u64::MAX as int,
    ensures
        wf(*final(state)),
        final(state).tick_accumulator <= TICK_MICROS,
        final(state).tick_accumulator as int == spec_drain(
            old(state).tick_accumulator as int + elapsed_micros as int,
        ),
        exists|dirs: Seq<DirChoice>|
            {
                &&& dirs.len() == spec_nticks(
                    old(state).tick_accumulator as int + elapsed_micros as int,
                )
                &&& final(state)@ == spec_multi_tick(
                    old(state)@,
                    input,
                    screen_w as int,
                    screen_h as int,
                    dirs,
                )
            },
        old(state).score1 <= final(state).score1,
        old(state).score2 <= final(state).score2,
{
    let ghost total = old(state).tick_accumulator as int + elapsed_micros as int;
    let ghost m0 = state@;
    let ghost mut dirs: Seq<DirChoice> = Seq::empty();

    proof {
        lemma_nticks_le_div(total);
        lemma_nticks_nonneg(total);
    }

    state.tick_accumulator = state.tick_accumulator + elapsed_micros;

    while state.tick_accumulator > TICK_MICROS
        invariant
            wf(*state),
            dims_ok(screen_w as int, screen_h as int),
            spec_drain(state.tick_accumulator as int) == spec_drain(total),
            spec_nticks(state.tick_accumulator as int) + dirs.len() == spec_nticks(total),
            state@ == spec_multi_tick(m0, input, screen_w as int, screen_h as int, dirs),
            state.score1 as int + spec_nticks(state.tick_accumulator as int) <= m0.score1
                + spec_nticks(total),
            state.score2 as int + spec_nticks(state.tick_accumulator as int) <= m0.score2
                + spec_nticks(total),
            m0.score1 + spec_nticks(total) < u64::MAX as int,
            m0.score2 + spec_nticks(total) < u64::MAX as int,
            m0.score1 <= state.score1,
            m0.score2 <= state.score2,
        decreases state.tick_accumulator,
    {
        proof {
            lemma_nticks_nonneg(state.tick_accumulator as int - TICK_MICROS as int);
        }
        state.tick_accumulator = state.tick_accumulator - TICK_MICROS;
        let d = random_dir_choice();
        let ghost pre = state@;
        tick(state, input, screen_w, screen_h, d);
        proof {
            lemma_multi_tick_snoc(m0, input, screen_w as int, screen_h as int, dirs, d);
            dirs = dirs.push(d);
        }
    }

    proof {
        assert(dirs.len() == spec_nticks(total));
        assert(state@ == spec_multi_tick(m0, input, screen_w as int, screen_h as int, dirs));
    }
}

} // verus!
