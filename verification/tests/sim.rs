//! Tests of the simulation core: construction, single ticks, the
//! fixed-timestep drain, and the random serve draw. Coordinates are in
//! millipixels (thousandths of a pixel); the screen used throughout is
//! 800 by 600 pixels unless a test says otherwise.

use pong_sim::geom::{clamp_mpx, Vec2};
use pong_sim::state::{GameState, Input};
use pong_sim::step::{advance, tick, tick_random};
use pong_sim::vel::{random_diag_vel, DirChoice, Vel};

const W: i64 = 800_000;
const H: i64 = 600_000;

fn no_keys() -> Input {
    Input::none()
}

fn serve_right_down() -> DirChoice {
    DirChoice { x_positive: true, y_positive: true }
}

/// A state with paddles in their starting columns, the ball wherever a
/// test wants it, and zero scores.
fn state_with_ball(ball: Vec2, vel: Vel) -> GameState {
    GameState {
        paddle1_pos: Vec2 { x: 10_000, y: 300_000 },
        paddle2_pos: Vec2 { x: 790_000, y: 300_000 },
        ball_pos: ball,
        ball_vel: vel,
        score1: 0,
        score2: 0,
        tick_accumulator: 0,
    }
}

#[test]
fn new_game_layout() {
    let s = GameState::new(W, H, serve_right_down());
    assert_eq!(s.paddle1_pos, Vec2 { x: 10_000, y: 300_000 });
    assert_eq!(s.paddle2_pos, Vec2 { x: 790_000, y: 300_000 });
    assert_eq!(s.ball_pos, Vec2 { x: 400_000, y: 300_000 });
    assert_eq!(s.ball_vel, Vel { x: 707, y: 707 });
    assert_eq!(s.score1, 0);
    assert_eq!(s.score2, 0);
    assert_eq!(s.tick_accumulator, 0);
}

#[test]
fn new_game_random_serve_is_diagonal() {
    let s = GameState::new_random(W, H);
    assert_eq!(s.ball_pos, Vec2 { x: 400_000, y: 300_000 });
    assert_eq!(s.ball_vel.x.abs(), 707);
    assert_eq!(s.ball_vel.y.abs(), 707);
}

#[test]
fn left_exit_scores_for_player_2() {
    // Ball at (-1, 300) pixels: after one tick player 2 scores exactly
    // one point, the ball resets to (400, 300), and the direction is
    // one of the four unit diagonals.
    let mut s = state_with_ball(Vec2 { x: -1_000, y: 300_000 }, Vel { x: -707, y: 707 });
    tick(&mut s, no_keys(), W, H, serve_right_down());
    assert_eq!(s.score2, 1);
    assert_eq!(s.score1, 0);
    assert_eq!(s.ball_pos, Vec2 { x: 400_000, y: 300_000 });
    assert_eq!(s.ball_vel.x.abs(), 707);
    assert_eq!(s.ball_vel.y.abs(), 707);
}

#[test]
fn left_exit_scores_whatever_the_velocity() {
    // The same side exit with each of the four diagonals.
    for vel in [
        Vel { x: -707, y: -707 },
        Vel { x: -707, y: 707 },
        Vel { x: 707, y: -707 },
        Vel { x: 707, y: 707 },
    ] {
        let mut s = state_with_ball(Vec2 { x: -1_000, y: 300_000 }, vel);
        tick(&mut s, no_keys(), W, H, serve_right_down());
        assert_eq!(s.score2, 1);
        assert_eq!(s.ball_pos, Vec2 { x: 400_000, y: 300_000 });
        assert_eq!(s.ball_vel, Vel { x: 707, y: 707 });
    }
}

#[test]
fn right_exit_scores_for_player_1() {
    let mut s = state_with_ball(Vec2 { x: 801_000, y: 300_000 }, Vel { x: 707, y: 707 });
    tick(&mut s, no_keys(), W, H, serve_right_down());
    assert_eq!(s.score1, 1);
    assert_eq!(s.score2, 0);
    assert_eq!(s.ball_pos, Vec2 { x: 400_000, y: 300_000 });
}

#[test]
fn top_bounce_clamps_and_turns_downward() {
    // Ball at y = 5 px with half-size 15 px moving upward: after the
    // tick its centre sits at y = 15 px and the vertical direction is
    // positive (downward).
    let mut s = state_with_ball(Vec2 { x: 400_000, y: 5_000 }, Vel { x: 707, y: -707 });
    tick(&mut s, no_keys(), W, H, serve_right_down());
    assert_eq!(s.ball_pos.y, 15_000);
    assert_eq!(s.ball_vel.y, 707);
    // The horizontal motion of that tick stays: one tick's displacement.
    assert_eq!(s.ball_pos.x, 400_117);
    assert_eq!(s.score1, 0);
    assert_eq!(s.score2, 0);
}

#[test]
fn bottom_bounce_clamps_and_turns_upward() {
    let mut s = state_with_ball(Vec2 { x: 400_000, y: 598_000 }, Vel { x: 707, y: 707 });
    tick(&mut s, no_keys(), W, H, serve_right_down());
    assert_eq!(s.ball_pos.y, 585_000);
    assert_eq!(s.ball_vel.y, -707);
}

#[test]
fn paddle_1_contact_forces_rightward() {
    // Ball box overlapping paddle 1's box with leftward motion: the
    // horizontal sign flips to positive.
    let mut s = state_with_ball(Vec2 { x: 30_000, y: 300_000 }, Vel { x: -707, y: 707 });
    tick(&mut s, no_keys(), W, H, serve_right_down());
    assert_eq!(s.ball_vel.x, 707);
    assert_eq!(s.score1, 0);
    assert_eq!(s.score2, 0);
}

#[test]
fn no_contact_leaves_direction_alone() {
    // The second half of the contact scenario: a later tick with no
    // overlap changes nothing but the ball's position.
    let mut s = state_with_ball(Vec2 { x: 100_000, y: 300_000 }, Vel { x: 707, y: 707 });
    tick(&mut s, no_keys(), W, H, serve_right_down());
    assert_eq!(s.ball_vel, Vel { x: 707, y: 707 });
    assert_eq!(s.ball_pos, Vec2 { x: 100_117, y: 300_117 });
    assert_eq!(s.paddle1_pos, Vec2 { x: 10_000, y: 300_000 });
    assert_eq!(s.paddle2_pos, Vec2 { x: 790_000, y: 300_000 });
    assert_eq!(s.score1, 0);
    assert_eq!(s.score2, 0);
}

#[test]
fn paddle_2_contact_forces_leftward() {
    let mut s = state_with_ball(Vec2 { x: 770_000, y: 300_000 }, Vel { x: 707, y: -707 });
    tick(&mut s, no_keys(), W, H, serve_right_down());
    assert_eq!(s.ball_vel.x, -707);
}

#[test]
fn held_key_moves_paddle_ten_pixels_per_tick() {
    let mut s = state_with_ball(Vec2 { x: 400_000, y: 300_000 }, Vel { x: 707, y: 707 });
    let input = Input { p1_down: true, p2_up: true, p1_up: false, p2_down: false };
    tick(&mut s, input, W, H, serve_right_down());
    assert_eq!(s.paddle1_pos.y, 310_000);
    assert_eq!(s.paddle2_pos.y, 290_000);
}

#[test]
fn opposed_keys_cancel() {
    let mut s = state_with_ball(Vec2 { x: 400_000, y: 300_000 }, Vel { x: 707, y: 707 });
    let input = Input { p1_up: true, p1_down: true, p2_up: false, p2_down: false };
    tick(&mut s, input, W, H, serve_right_down());
    assert_eq!(s.paddle1_pos.y, 300_000);
}

#[test]
fn paddle_never_leaves_the_screen() {
    // Hold player 1's down key and player 2's up key for a thousand
    // ticks: both paddles stop exactly at their clamped limits and stay
    // inside [half_height, screen_h - half_height] after every tick.
    let mut s = GameState::new(W, H, serve_right_down());
    let input = Input { p1_down: true, p2_up: true, p1_up: false, p2_down: false };
    for _ in 0..1000 {
        tick_random(&mut s, input, W, H);
        assert!(50_000 <= s.paddle1_pos.y && s.paddle1_pos.y <= H - 50_000);
        assert!(50_000 <= s.paddle2_pos.y && s.paddle2_pos.y <= H - 50_000);
    }
    assert_eq!(s.paddle1_pos.y, H - 50_000);
    assert_eq!(s.paddle2_pos.y, 50_000);
}

#[test]
fn direction_never_becomes_zero() {
    // A long free run, including bounces and scored rallies: the
    // direction vector keeps both components at full magnitude, so it
    // is never the zero vector.
    let mut s = GameState::new(W, H, serve_right_down());
    for _ in 0..5000 {
        tick_random(&mut s, no_keys(), W, H);
        assert_eq!(s.ball_vel.x.abs(), 707);
        assert_eq!(s.ball_vel.y.abs(), 707);
    }
}

#[test]
fn clamp_twice_is_clamp_once() {
    // Idempotence on out-of-range values from both sides, and on an
    // in-range value.
    for v in [-5_000_000i64, -50_000, 0, 49_999, 50_000, 123_456, 550_000, 550_001, 9_000_000] {
        let once = clamp_mpx(v, 50_000, 550_000);
        let twice = clamp_mpx(once, 50_000, 550_000);
        assert_eq!(twice, once);
    }
}

#[test]
fn advance_drains_whole_ticks() {
    // 40000 us on an empty accumulator is two whole 16667 us ticks with
    // 6666 us left over; the free-flying ball covers one displacement
    // per tick on each axis.
    let mut s = state_with_ball(Vec2 { x: 400_000, y: 300_000 }, Vel { x: 707, y: 707 });
    advance(&mut s, no_keys(), 40_000, W, H);
    assert_eq!(s.tick_accumulator, 6_666);
    assert_eq!(s.ball_pos, Vec2 { x: 400_234, y: 300_234 });
}

#[test]
fn advance_below_one_tick_only_accumulates() {
    let mut s = state_with_ball(Vec2 { x: 400_000, y: 300_000 }, Vel { x: 707, y: 707 });
    let before = s;
    advance(&mut s, no_keys(), 10_000, W, H);
    assert_eq!(s.tick_accumulator, 10_000);
    assert_eq!(s.ball_pos, before.ball_pos);
    assert_eq!(s.ball_vel, before.ball_vel);
    advance(&mut s, no_keys(), 6_667, W, H);
    // Exactly one tick's worth in total: the accumulator sits at the
    // full tick and the loop condition (strictly greater) does not run.
    assert_eq!(s.tick_accumulator, 16_667);
    assert_eq!(s.ball_pos, before.ball_pos);
}

#[test]
fn random_serve_is_uniform_over_the_four_diagonals() {
    // Across 10000 draws each diagonal appears roughly a quarter of the
    // time, and the direction always has unit length within
    // floating-point tolerance of the fixed-point scale.
    let mut counts = [0u32; 4];
    for _ in 0..10_000 {
        let v = random_diag_vel();
        assert_eq!(v.x.abs(), 707);
        assert_eq!(v.y.abs(), 707);
        let mag = ((v.x as f64 / 1000.0).powi(2) + (v.y as f64 / 1000.0).powi(2)).sqrt();
        assert!((mag - 1.0).abs() < 1e-3);
        let idx = (if v.x > 0 { 2 } else { 0 }) + (if v.y > 0 { 1 } else { 0 });
        counts[idx] += 1;
    }
    for c in counts {
        // Expected 2500 each; six standard deviations is about 260.
        assert!(2200 <= c && c <= 2800, "diagonal count out of tolerance: {}", c);
    }
}
