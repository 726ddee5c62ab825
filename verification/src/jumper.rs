//! The platformer variant: an `OnGround`/`Jumping` state machine, a
//! persistent velocity, an impulse-driven jump, gravity acting on the
//! vertical velocity, and a bottom edge that re-grounds the sprite.
//!
//! The host invokes the three stages once per frame, in this order:
//! [`keyboard_input`], then [`apply_gravity`], then [`screen_bound`];
//! [`frame`] runs the whole pipeline. Each stage's contract is the exact
//! mathematical step it performs, stated over [`EntityModel`].

use crate::screen::lemma_product_in_range;
use crate::screen::lemma_product_neg_factor;
use crate::screen::lemma_product_nonpos;
use crate::screen::clamp_x;
use crate::screen::clamp_y;
use crate::screen::ClampEvents;
use crate::screen::Keys;
use crate::screen::Position;
use crate::screen::GRAVITY;
use crate::screen::JUMP_IMPULSE;
use crate::screen::MAX_DT_MS;
use crate::screen::POS_LIMIT;
use crate::screen::SPEED;
use crate::screen::VEL_LIMIT;
use crate::screen::X_MAX;
use crate::screen::X_MIN;
use crate::screen::Y_MAX;
use crate::screen::Y_MIN;
use vstd::prelude::*;

verus! {

/// The two motion states of the platformer sprite.
#[derive(Clone, Copy, PartialEq, Eq, Structural, Debug)]
pub enum State {
    Jumping,
    OnGround,
}

/// A velocity vector in milli-units per second.
#[derive(Clone, Copy, PartialEq, Eq, Structural, Debug)]
pub struct Velocity {
    pub x: i64,
    pub y: i64,
}

/// The one controllable sprite of the platformer variant.
#[derive(Clone, Copy, PartialEq, Eq, Structural, Debug)]
pub struct Entity {
    pub pos: Position,
    pub vel: Velocity,
    pub state: State,
}

/// The mathematical value of an [`Entity`]: its fields as unbounded
/// integers, position in micro-units, velocity in milli-units per second.
pub struct EntityModel {
    pub px: int,
    pub py: int,
    pub vx: int,
    pub vy: int,
    pub state: State,
}

impl View for Entity {
    type V = EntityModel;

    open spec fn view(&self) -> EntityModel {
        EntityModel {
            px: self.pos.x as int,
            py: self.pos.y as int,
            vx: self.vel.x as int,
            vy: self.vel.y as int,
            state: self.state,
        }
    }
}

/// The horizontal velocity the movement stage assigns from the keys:
/// `A` wins over `D`, neither held means standing still.
pub open spec fn horiz_vel(keys: Keys) -> int {
    if keys.a {
        -(SPEED as int)
    } else if keys.d {
        SPEED as int
    } else {
        0
    }
}

/// Whether this frame starts a jump: the jump key is held while the sprite
/// is on the ground. A press while already airborne does nothing.
pub open spec fn jumps(m: EntityModel, keys: Keys) -> bool {
    keys.w && m.state is OnGround
}

/// The movement stage: horizontal velocity follows the keys, a jump assigns
/// `JUMP_IMPULSE` upward and switches to `Jumping`, and the position
/// integrates both velocity components over the frame's elapsed time.
pub open spec fn input_step(m: EntityModel, dt: int, keys: Keys) -> EntityModel {
    let vx = horiz_vel(keys);
    let vy = if jumps(m, keys) {
        JUMP_IMPULSE as int
    } else {
        m.vy
    };
    let state = if jumps(m, keys) {
        State::Jumping
    } else {
        m.state
    };
    EntityModel { px: m.px + vx * dt, py: m.py + vy * dt, vx, vy, state }
}

/// The gravity stage: while `Jumping` the vertical velocity loses
/// `GRAVITY` milli-units per second for each elapsed millisecond; while
/// `OnGround` it is forced to exactly zero. Nothing else changes.
pub open spec fn gravity_step(m: EntityModel, dt: int) -> EntityModel {
    let vy = match m.state {
        State::Jumping => m.vy - GRAVITY * dt,
        State::OnGround => 0,
    };
    EntityModel { px: m.px, py: m.py, vx: m.vx, vy, state: m.state }
}

/// The bounds-clamp stage: both axes are clamped independently, and pulling
/// the sprite up from below the bottom edge re-grounds it. No other edge
/// touches the state, and the velocity is left alone.
pub open spec fn clamp_step(m: EntityModel) -> EntityModel {
    let state = if m.py < Y_MIN {
        State::OnGround
    } else {
        m.state
    };
    EntityModel { px: clamp_x(m.px), py: clamp_y(m.py), vx: m.vx, vy: m.vy, state }
}

/// The model a frame hands to the clamp stage: movement then gravity. The
/// clamp events report this position's excursions past the screen edges.
pub open spec fn pre_clamp_step(m: EntityModel, dt: int, keys: Keys) -> EntityModel {
    gravity_step(input_step(m, dt, keys), dt)
}

/// One whole frame: movement, then gravity, then the bounds clamp.
pub open spec fn frame_step(m: EntityModel, dt: int, keys: Keys) -> EntityModel {
    clamp_step(pre_clamp_step(m, dt, keys))
}

/// The state the sprite spawns in: centred, at rest, and — as the demo has
/// it — marked `Jumping` even though it starts without any velocity.
pub open spec fn initial_model() -> EntityModel {
    EntityModel { px: 0, py: 0, vx: 0, vy: 0, state: State::Jumping }
}

/// What holds of the sprite between frames once it has been clamped:
/// it sits inside the screen rectangle, and `OnGround` means resting on the
/// bottom edge without upward velocity.
pub open spec fn inv(m: EntityModel) -> bool {
    &&& X_MIN <= m.px <= X_MAX
    &&& Y_MIN <= m.py <= Y_MAX
    &&& m.state is OnGround ==> m.py == Y_MIN && m.vy <= 0
}

/// Creates the sprite entity the demo spawns at startup.
pub fn spawn() -> (e: Entity)
    ensures
        e@ == initial_model(),
{
    Entity {
        pos: Position { x: 0, y: 0 },
        vel: Velocity { x: 0, y: 0 },
        state: State::Jumping,
    }
}

/// The movement stage on the live entity; returns whether a jump started
/// this frame, so the host can log it.
pub fn keyboard_input(e: &mut Entity, dt_ms: i64, keys: Keys) -> (jumped: bool)
    requires
        0 <= dt_ms <= MAX_DT_MS,
        -VEL_LIMIT <= old(e).vel.y <= VEL_LIMIT,
        -POS_LIMIT <= old(e).pos.x <= POS_LIMIT,
        -POS_LIMIT <= old(e).pos.y <= POS_LIMIT,
    ensures
        final(e)@ == input_step(old(e)@, dt_ms as int, keys),
        jumped == jumps(old(e)@, keys),
{
    e.vel.x = 0;
    let mut jumped = false;
    if keys.w {
        if e.state == State::OnGround {
            e.vel.y = JUMP_IMPULSE;
            e.state = State::Jumping;
            jumped = true;
        }
    }
    if keys.a {
        e.vel.x = -SPEED;
    } else if keys.d {
        e.vel.x = SPEED;
    }
    proof {
        lemma_product_in_range(e.vel.x as int, dt_ms as int, SPEED as int, MAX_DT_MS as int);
        lemma_product_in_range(e.vel.y as int, dt_ms as int, VEL_LIMIT as int, MAX_DT_MS as int);
    }
    e.pos.x = e.pos.x + e.vel.x * dt_ms;
    e.pos.y = e.pos.y + e.vel.y * dt_ms;
    jumped
}

/// The gravity stage on the live entity.
pub fn apply_gravity(e: &mut Entity, dt_ms: i64)
    requires
        0 <= dt_ms <= MAX_DT_MS,
        -VEL_LIMIT <= old(e).vel.y <= VEL_LIMIT,
    ensures
        final(e)@ == gravity_step(old(e)@, dt_ms as int),
{
    match e.state {
        State::Jumping => {
            e.vel.y = e.vel.y - GRAVITY * dt_ms;
        },
        State::OnGround => {
            e.vel.y = 0;
        },
    }
}

/// The bounds-clamp stage on the live entity; reports which edges were hit,
/// so the host can log one collision line per edge.
pub fn screen_bound(e: &mut Entity) -> (ev: ClampEvents)
    ensures
        final(e)@ == clamp_step(old(e)@),
        X_MIN <= final(e).pos.x <= X_MAX,
        Y_MIN <= final(e).pos.y <= Y_MAX,
        ev.left == (old(e).pos.x < X_MIN),
        ev.right == (old(e).pos.x > X_MAX),
        ev.bottom == (old(e).pos.y < Y_MIN),
        ev.top == (old(e).pos.y > Y_MAX),
{
    let mut ev = ClampEvents { left: false, right: false, bottom: false, top: false };
    if e.pos.x < X_MIN {
        ev.left = true;
        e.pos.x = X_MIN;
    } else if e.pos.x > X_MAX {
        ev.right = true;
        e.pos.x = X_MAX;
    }
    if e.pos.y < Y_MIN {
        ev.bottom = true;
        e.pos.y = Y_MIN;
        e.state = State::OnGround;
    } else if e.pos.y > Y_MAX {
        ev.top = true;
        e.pos.y = Y_MAX;
    }
    ev
}

/// What a frame reports to the host: whether a jump started, and which
/// screen edges the clamp corrected.
#[derive(Clone, Copy, PartialEq, Eq, Structural, Debug)]
pub struct FrameEvents {
    pub jumped: bool,
    pub clamp: ClampEvents,
}

/// One whole frame in the host's stage order: movement, gravity, clamp.
/// Afterwards the sprite is inside the screen rectangle on both axes.
pub fn frame(e: &mut Entity, dt_ms: i64, keys: Keys) -> (ev: FrameEvents)
    requires
        0 <= dt_ms <= MAX_DT_MS,
        -VEL_LIMIT <= old(e).vel.y <= VEL_LIMIT,
        -POS_LIMIT <= old(e).pos.x <= POS_LIMIT,
        -POS_LIMIT <= old(e).pos.y <= POS_LIMIT,
    ensures
        final(e)@ == frame_step(old(e)@, dt_ms as int, keys),
        X_MIN <= final(e).pos.x <= X_MAX,
        Y_MIN <= final(e).pos.y <= Y_MAX,
        ev.jumped == jumps(old(e)@, keys),
        ev.clamp.left == (pre_clamp_step(old(e)@, dt_ms as int, keys).px < X_MIN),
        ev.clamp.right == (pre_clamp_step(old(e)@, dt_ms as int, keys).px > X_MAX),
        ev.clamp.bottom == (pre_clamp_step(old(e)@, dt_ms as int, keys).py < Y_MIN),
        ev.clamp.top == (pre_clamp_step(old(e)@, dt_ms as int, keys).py > Y_MAX),
{
    let jumped = keyboard_input(e, dt_ms, keys);
    apply_gravity(e, dt_ms);
    let clamp = screen_bound(e);
    FrameEvents { jumped, clamp }
}

/// A jump key press while `OnGround` assigns exactly `JUMP_IMPULSE` to the
/// vertical velocity and switches the state to `Jumping`; while already
/// `Jumping` it leaves both untouched — there is no double jump.
pub proof fn lemma_no_double_jump(m: EntityModel, dt: int, keys: Keys)
    requires
        keys.w,
    ensures
        m.state is OnGround ==> input_step(m, dt, keys).vy == JUMP_IMPULSE
            && input_step(m, dt, keys).state is Jumping,
        m.state is Jumping ==> input_step(m, dt, keys).vy == m.vy
            && input_step(m, dt, keys).state == m.state,
{
}

/// Reaching the bottom edge re-grounds the sprite: the clamp stage rests it
/// on `Y_MIN` in state `OnGround`, and the next frame's gravity pass then
/// forces its vertical velocity to exactly zero.
pub proof fn lemma_bottom_edge_grounds(m: EntityModel, dt: int)
    requires
        m.py < Y_MIN,
    ensures
        clamp_step(m).state is OnGround,
        clamp_step(m).py == Y_MIN,
        gravity_step(clamp_step(m), dt).vy == 0,
{
}

/// The spawned sprite satisfies the between-frames invariant.
pub proof fn lemma_initial_inv()
    ensures
        inv(initial_model()),
{
}

/// Every frame preserves the between-frames invariant: the sprite stays
/// inside the screen rectangle, and whenever it ends a frame `OnGround` it
/// is resting exactly on the bottom edge without upward velocity.
pub proof fn lemma_frame_preserves_inv(m: EntityModel, dt: int, keys: Keys)
    requires
        inv(m),
        0 <= dt,
    ensures
        inv(frame_step(m, dt, keys)),
{
    let m1 = input_step(m, dt, keys);
    let m2 = gravity_step(m1, dt);
    let m3 = clamp_step(m2);
    if m2.py < Y_MIN {
        // The bottom clamp fired: the sprite came in from inside the screen,
        // so it was moving strictly downward, and gravity only steepens that.
        assert(m1.vy * dt < 0);
        lemma_product_neg_factor(m1.vy, dt);
        lemma_product_nonpos(-GRAVITY, dt);
    } else if m3.state is OnGround {
        // `OnGround` carried over: no jump happened, the sprite was resting
        // on the bottom edge, and a velocity that is not upward keeps it
        // from rising above it.
        lemma_product_nonpos(m.vy, dt);
    }
}

} // verus!
