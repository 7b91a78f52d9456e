//! The ball's direction vector and the random serve draw.
//!
//! After every serve the ball travels along one of the four 45-degree
//! diagonals, so each component of its direction is exactly plus or
//! minus `DIAG_MILLI` thousandths of a unit. Which diagonal is chosen
//! comes from two independent coin flips drawn from the process-wide
//! random source.

use vstd::prelude::*;

use crate::geom::DIAG_MILLI;

verus! {

/// The ball's direction, in thousandths of a unit per component.
#[derive(Clone, Copy, Debug, PartialEq, Eq, Structural)]
pub struct Vel {
    pub x: i64,
    pub y: i64,
}

/// One serve decision: the sign of each axis of the new direction.
#[derive(Clone, Copy, Debug, PartialEq, Eq, Structural)]
pub struct DirChoice {
    pub x_positive: bool,
    pub y_positive: bool,
}

/// `(vx, vy)` is one of the four unit diagonals: each component is
/// exactly plus or minus `DIAG_MILLI`.
pub open spec fn is_diag(vx: int, vy: int) -> bool {
    &&& (vx == DIAG_MILLI as int || vx == -(DIAG_MILLI as int))
    &&& (vy == DIAG_MILLI as int || vy == -(DIAG_MILLI as int))
}

/// Horizontal component of the diagonal that `d` selects.
pub open spec fn spec_diag_x(d: DirChoice) -> int {
    if d.x_positive {
        DIAG_MILLI as int
    } else {
        -(DIAG_MILLI as int)
    }
}

/// Vertical component of the diagonal that `d` selects.
pub open spec fn spec_diag_y(d: DirChoice) -> int {
    if d.y_positive {
        DIAG_MILLI as int
    } else {
        -(DIAG_MILLI as int)
    }
}

/// A diagonal direction is never the zero vector: both of its
/// components are nonzero.
pub proof fn lemma_diag_nonzero(vx: int, vy: int)
    requires
        is_diag(vx, vy),
    ensures
        vx != 0,
        vy != 0,
{
}

impl Vel {
    /// The unit diagonal that `d` selects.
    pub fn from_choice(d: DirChoice) -> (v: Vel)
        ensures
            v.x as int == spec_diag_x(d),
            v.y as int == spec_diag_y(d),
            is_diag(v.x as int, v.y as int),
    {
        let x = if d.x_positive {
            DIAG_MILLI
        } else {
            -DIAG_MILLI
        };
        let y = if d.y_positive {
            DIAG_MILLI
        } else {
            -DIAG_MILLI
        };
        Vel { x, y }
    }
}

/// Relies on `rand::random::<bool>()`: one draw from the thread-local
/// generator. Nothing is promised of the value.
#[verifier::external_body]
fn random_bool() -> bool {
    rand::random::<bool>()
}

/// One independent uniform draw of each axis sign: the serve decision
/// taken at game start and after every score.
pub fn random_dir_choice() -> (d: DirChoice) {
    DirChoice { x_positive: random_bool(), y_positive: random_bool() }
}

/// A randomly drawn serve direction. Whatever the draws came back as,
/// the result is one of the four unit diagonals.
pub fn random_diag_vel() -> (v: Vel)
    ensures
        is_diag(v.x as int, v.y as int),
{
    Vel::from_choice(random_dir_choice())
}

} // verus!
