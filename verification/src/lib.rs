//! Core simulation for a two-player paddle-and-ball arcade game: paddle
//! motion, ball integration, wall bounce, paddle collision, and scoring
//! with a centre reset, advanced in fixed ticks of one sixtieth of a
//! second.
//!
//! All geometry is fixed point: positions are counted in millipixels
//! (thousandths of a pixel) and the ball's direction vector in
//! thousandths of a unit, so every update is exact integer arithmetic.
//! Speeds are nominal pixels per second. The window, the renderer and
//! the keyboard live outside this crate; they hand in held-key flags
//! and elapsed time, and read the state back to draw it.

pub mod geom;
pub mod state;
pub mod step;
pub mod vel;
