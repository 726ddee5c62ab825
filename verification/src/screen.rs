//! Screen geometry, fixed-point scales, key state, and the bounds clamp.
//!
//! Fixed-point conventions, chosen so that every per-frame formula is exact
//! integer arithmetic:
//!
//! * positions are in micro-units (millionths of a screen unit),
//! * velocities are in milli-units per second (thousandths of a unit per second),
//! * elapsed time is in whole milliseconds.
//!
//! With these scales, a velocity times an elapsed time is exactly a position
//! delta: (milli-units / s) x ms = micro-units. Likewise one millisecond of a
//! constant acceleration given in units per second squared changes a velocity
//! in milli-units per second by exactly that acceleration's number.

use vstd::prelude::*;

verus! {

/// Micro-units per screen unit: the position scale.
pub const MICRO_PER_UNIT: i64 = 1_000_000;

/// Milli-units per screen unit: the velocity scale (per second).
pub const MILLI_PER_UNIT: i64 = 1_000;

/// Largest x the sprite's centre may take, in micro-units: half the 640
/// screen width minus half the 50 sprite width, 320 - 25 = 295 units.
pub const X_MAX: i64 = 295_000_000;

/// Smallest allowed x, symmetric to `X_MAX`.
pub const X_MIN: i64 = -295_000_000;

/// Largest y the sprite's centre may take, in micro-units: half the 480
/// screen height minus half the 50 sprite height, 240 - 25 = 215 units.
pub const Y_MAX: i64 = 215_000_000;

/// Smallest allowed y; the bottom edge, where the platformer variant lands.
pub const Y_MIN: i64 = -215_000_000;

/// Constant movement speed, 300 units per second, in milli-units per second.
pub const SPEED: i64 = 300_000;

/// Vertical velocity assigned by a jump, 300 units per second, in
/// milli-units per second.
pub const JUMP_IMPULSE: i64 = 300_000;

/// Gravity, 500 units per second squared. One millisecond of it changes a
/// velocity in milli-units per second by exactly this number.
pub const GRAVITY: i64 = 500;

/// Gravity read as a constant drift velocity of 500 units per second, in
/// milli-units per second; the free-roam variant applies it straight to the
/// position.
pub const GRAVITY_MILLI: i64 = 500_000;

/// Largest elapsed time a single frame may report, in milliseconds
/// (1000 seconds); a machine limit that keeps the integration inside `i64`.
pub const MAX_DT_MS: i64 = 1_000_000;

/// Largest velocity magnitude a stage accepts, in milli-units per second;
/// a machine limit that keeps velocity times time inside `i64`.
pub const VEL_LIMIT: i64 = 1_000_000_000_000;

/// Largest position magnitude a frame accepts, in micro-units; a machine
/// limit that keeps one integration step inside `i64`.
pub const POS_LIMIT: i64 = 1_000_000_000_000_000_000;

/// Largest position magnitude a single mid-pipeline stage accepts: a frame
/// entry position plus one integration step stays under this.
pub const MID_POS_LIMIT: i64 = 3_000_000_000_000_000_000;

/// A sprite centre position in micro-units.
#[derive(Clone, Copy, PartialEq, Eq, Structural, Debug)]
pub struct Position {
    pub x: i64,
    pub y: i64,
}

/// The pressed state of the four keys the demos read.
#[derive(Clone, Copy, PartialEq, Eq, Structural, Debug)]
pub struct Keys {
    pub w: bool,
    pub a: bool,
    pub s: bool,
    pub d: bool,
}

/// Which screen edges the clamp stage corrected this frame; the host logs
/// one collision line per set flag.
#[derive(Clone, Copy, PartialEq, Eq, Structural, Debug)]
pub struct ClampEvents {
    pub left: bool,
    pub right: bool,
    pub bottom: bool,
    pub top: bool,
}

/// The clamped x coordinate: pulled back to the nearer bound when outside
/// `[X_MIN, X_MAX]`, unchanged otherwise.
pub open spec fn clamp_x(x: int) -> int {
    if x < X_MIN {
        X_MIN as int
    } else if x > X_MAX {
        X_MAX as int
    } else {
        x
    }
}

/// The clamped y coordinate, over `[Y_MIN, Y_MAX]`.
pub open spec fn clamp_y(y: int) -> int {
    if y < Y_MIN {
        Y_MIN as int
    } else if y > Y_MAX {
        Y_MAX as int
    } else {
        y
    }
}

/// The clamp never lets a coordinate escape the screen rectangle, and leaves
/// a coordinate already inside it alone.
pub proof fn lemma_clamp_in_range(x: int, y: int)
    ensures
        X_MIN <= clamp_x(x) <= X_MAX,
        Y_MIN <= clamp_y(y) <= Y_MAX,
        X_MIN <= x <= X_MAX ==> clamp_x(x) == x,
        Y_MIN <= y <= Y_MAX ==> clamp_y(y) == y,
{
}

/// Bound on a velocity-times-time product from bounds on its factors.
pub(crate) proof fn lemma_product_in_range(v: int, d: int, vb: int, db: int)
    requires
        -vb <= v <= vb,
        0 <= d <= db,
    ensures
        -(vb * db) <= v * d <= vb * db,
{
    assert(-(vb * db) <= v * d <= vb * db) by (nonlinear_arith)
        requires
            -vb <= v <= vb,
            0 <= d <= db,
    ;
}

/// A non-positive velocity over a non-negative time never moves a coordinate
/// up.
pub(crate) proof fn lemma_product_nonpos(v: int, d: int)
    requires
        v <= 0,
        0 <= d,
    ensures
        v * d <= 0,
{
    assert(v * d <= 0) by (nonlinear_arith)
        requires
            v <= 0,
            0 <= d,
    ;
}

/// A strictly negative movement over a non-negative time means the velocity
/// itself was strictly negative.
pub(crate) proof fn lemma_product_neg_factor(v: int, d: int)
    requires
        v * d < 0,
        0 <= d,
    ensures
        v < 0,
{
    assert(v < 0) by (nonlinear_arith)
        requires
            v * d < 0,
            0 <= d,
    ;
}

} // verus!
