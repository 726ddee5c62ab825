//! The free-roam variant: the sprite moves at constant speed in the
//! last-latched direction, drifts down under a constant gravity, and is
//! clamped to the screen rectangle.
//!
//! The movement stage first applies the direction recorded on the previous
//! frame and only then latches a new one from the keys, so a key pressed
//! this frame takes effect on the next — a deliberate one-frame input lag
//! the scenario contracts depend on.

use crate::screen::lemma_product_in_range;
use crate::screen::clamp_x;
use crate::screen::clamp_y;
use crate::screen::ClampEvents;
use crate::screen::Keys;
use crate::screen::Position;
use crate::screen::GRAVITY_MILLI;
use crate::screen::MAX_DT_MS;
use crate::screen::MID_POS_LIMIT;
use crate::screen::POS_LIMIT;
use crate::screen::SPEED;
use crate::screen::X_MAX;
use crate::screen::X_MIN;
use crate::screen::Y_MAX;
use crate::screen::Y_MIN;
use vstd::prelude::*;

verus! {

/// The latched movement intent: the most recently detected directional key,
/// or `Stay` when none was held.
#[derive(Clone, Copy, PartialEq, Eq, Structural, Debug)]
pub enum Direction {
    Stay,
    Up,
    Down,
    Left,
    Right,
}

/// The one controllable sprite of the free-roam variant: a position and the
/// direction latched on the previous frame.
#[derive(Clone, Copy, PartialEq, Eq, Structural, Debug)]
pub struct Entity {
    pub pos: Position,
    pub dir: Direction,
}

/// The mathematical value of an [`Entity`]: its position as unbounded
/// integers in micro-units, and its latched direction.
pub struct EntityModel {
    pub px: int,
    pub py: int,
    pub dir: Direction,
}

impl View for Entity {
    type V = EntityModel;

    open spec fn view(&self) -> EntityModel {
        EntityModel { px: self.pos.x as int, py: self.pos.y as int, dir: self.dir }
    }
}

/// The direction the keys latch for the next frame: a fixed priority
/// `W > A > S > D`, so only one direction comes out of any combination,
/// and no key held means `Stay`.
pub open spec fn latch(keys: Keys) -> Direction {
    if keys.w {
        Direction::Up
    } else if keys.a {
        Direction::Left
    } else if keys.s {
        Direction::Down
    } else if keys.d {
        Direction::Right
    } else {
        Direction::Stay
    }
}

/// The x velocity a latched direction drives, in milli-units per second.
pub open spec fn dir_vx(dir: Direction) -> int {
    match dir {
        Direction::Left => -(SPEED as int),
        Direction::Right => SPEED as int,
        _ => 0,
    }
}

/// The y velocity a latched direction drives, in milli-units per second.
pub open spec fn dir_vy(dir: Direction) -> int {
    match dir {
        Direction::Up => SPEED as int,
        Direction::Down => -(SPEED as int),
        _ => 0,
    }
}

/// The movement stage: the previously latched direction moves the sprite by
/// `SPEED` times the elapsed time along its axis, then the keys latch the
/// direction the next frame will use.
pub open spec fn input_step(m: EntityModel, dt: int, keys: Keys) -> EntityModel {
    EntityModel {
        px: m.px + dir_vx(m.dir) * dt,
        py: m.py + dir_vy(m.dir) * dt,
        dir: latch(keys),
    }
}

/// The gravity stage: a constant downward drift of `GRAVITY_MILLI` applied
/// straight to the position, every frame, whatever the direction state.
pub open spec fn gravity_step(m: EntityModel, dt: int) -> EntityModel {
    EntityModel { px: m.px, py: m.py - GRAVITY_MILLI * dt, dir: m.dir }
}

/// The bounds-clamp stage: both axes are clamped independently; the
/// direction is untouched.
pub open spec fn clamp_step(m: EntityModel) -> EntityModel {
    EntityModel { px: clamp_x(m.px), py: clamp_y(m.py), dir: m.dir }
}

/// The model a frame hands to the clamp stage: movement then gravity. The
/// clamp events report this position's excursions past the screen edges.
pub open spec fn pre_clamp_step(m: EntityModel, dt: int, keys: Keys) -> EntityModel {
    gravity_step(input_step(m, dt, keys), dt)
}

/// One whole frame: movement, then gravity, then the bounds clamp.
pub open spec fn frame_step(m: EntityModel, dt: int, keys: Keys) -> EntityModel {
    clamp_step(pre_clamp_step(m, dt, keys))
}

/// The state the sprite spawns in: centred, with no direction latched.
pub open spec fn initial_model() -> EntityModel {
    EntityModel { px: 0, py: 0, dir: Direction::Stay }
}

/// Creates the sprite entity the demo spawns at startup.
pub fn spawn() -> (e: Entity)
    ensures
        e@ == initial_model(),
{
    Entity { pos: Position { x: 0, y: 0 }, dir: Direction::Stay }
}

/// The movement stage on the live entity.
pub fn keyboard_input(e: &mut Entity, dt_ms: i64, keys: Keys)
    requires
        0 <= dt_ms <= MAX_DT_MS,
        -POS_LIMIT <= old(e).pos.x <= POS_LIMIT,
        -POS_LIMIT <= old(e).pos.y <= POS_LIMIT,
    ensures
        final(e)@ == input_step(old(e)@, dt_ms as int, keys),
{
    match e.dir {
        Direction::Up => {
            e.pos.y = e.pos.y + SPEED * dt_ms;
        },
        Direction::Down => {
            e.pos.y = e.pos.y - SPEED * dt_ms;
        },
        Direction::Left => {
            e.pos.x = e.pos.x - SPEED * dt_ms;
        },
        Direction::Right => {
            e.pos.x = e.pos.x + SPEED * dt_ms;
        },
        Direction::Stay => {},
    }
    e.dir = if keys.w {
        Direction::Up
    } else if keys.a {
        Direction::Left
    } else if keys.s {
        Direction::Down
    } else if keys.d {
        Direction::Right
    } else {
        Direction::Stay
    };
}

/// The gravity stage on the live entity.
pub fn apply_gravity(e: &mut Entity, dt_ms: i64)
    requires
        0 <= dt_ms <= MAX_DT_MS,
        -MID_POS_LIMIT <= old(e).pos.y <= MID_POS_LIMIT,
    ensures
        final(e)@ == gravity_step(old(e)@, dt_ms as int),
{
    e.pos.y = e.pos.y - GRAVITY_MILLI * dt_ms;
}

/// The bounds-clamp stage on the live entity; reports which edges were hit,
/// so the host can log one collision line per edge.
pub fn screen_bound(e: &mut Entity) -> (ev: ClampEvents)
    ensures
        final(e)@ == clamp_step(old(e)@),
        X_MIN <= final(e).pos.x <= X_MAX,
        Y_MIN <= final(e).pos.y <= Y_MAX,
        ev.left == (old(e).pos.x < X_MIN),
        ev.right == (old(e).pos.x > X_MAX),
        ev.bottom == (old(e).pos.y < Y_MIN),
        ev.top == (old(e).pos.y > Y_MAX),
{
    let mut ev = ClampEvents { left: false, right: false, bottom: false, top: false };
    if e.pos.x < X_MIN {
        ev.left = true;
        e.pos.x = X_MIN;
    } else if e.pos.x > X_MAX {
        ev.right = true;
        e.pos.x = X_MAX;
    }
    if e.pos.y < Y_MIN {
        ev.bottom = true;
        e.pos.y = Y_MIN;
    } else if e.pos.y > Y_MAX {
        ev.top = true;
        e.pos.y = Y_MAX;
    }
    ev
}

/// One whole frame in the host's stage order: movement, gravity, clamp.
/// Afterwards the sprite is inside the screen rectangle on both axes.
pub fn frame(e: &mut Entity, dt_ms: i64, keys: Keys) -> (ev: ClampEvents)
    requires
        0 <= dt_ms <= MAX_DT_MS,
        -POS_LIMIT <= old(e).pos.x <= POS_LIMIT,
        -POS_LIMIT <= old(e).pos.y <= POS_LIMIT,
    ensures
        final(e)@ == frame_step(old(e)@, dt_ms as int, keys),
        X_MIN <= final(e).pos.x <= X_MAX,
        Y_MIN <= final(e).pos.y <= Y_MAX,
        ev.left == (pre_clamp_step(old(e)@, dt_ms as int, keys).px < X_MIN),
        ev.right == (pre_clamp_step(old(e)@, dt_ms as int, keys).px > X_MAX),
        ev.bottom == (pre_clamp_step(old(e)@, dt_ms as int, keys).py < Y_MIN),
        ev.top == (pre_clamp_step(old(e)@, dt_ms as int, keys).py > Y_MAX),
{
    keyboard_input(e, dt_ms, keys);
    proof {
        // One movement step keeps the position well inside the stage limit.
        lemma_product_in_range(dir_vy(old(e)@.dir), dt_ms as int, SPEED as int, MAX_DT_MS as int);
    }
    apply_gravity(e, dt_ms);
    screen_bound(e)
}

/// With `Up` latched, the movement stage moves the sprite up by exactly
/// `SPEED` times the elapsed time, and does not move it horizontally,
/// whatever keys are held this frame.
pub proof fn lemma_latched_up_moves_up(m: EntityModel, dt: int, keys: Keys)
    requires
        m.dir is Up,
    ensures
        input_step(m, dt, keys).py == m.py + SPEED * dt,
        input_step(m, dt, keys).px == m.px,
{
}

/// Key combinations resolve by fixed priority: whenever `W` is held, the
/// movement stage behaves exactly as if `W` were the only key held, so a
/// diagonal press latches `Up` and nothing else.
pub proof fn lemma_w_wins_combinations(m: EntityModel, dt: int, keys: Keys)
    requires
        keys.w,
    ensures
        latch(keys) is Up,
        input_step(m, dt, keys) == input_step(
            m,
            dt,
            Keys { w: true, a: false, s: false, d: false },
        ),
{
}

/// Gravity lowers the sprite by exactly `GRAVITY_MILLI` times the elapsed
/// time every frame, whatever direction is latched, and touches nothing
/// else.
pub proof fn lemma_gravity_every_frame(m: EntityModel, dt: int)
    ensures
        gravity_step(m, dt).py == m.py - GRAVITY_MILLI * dt,
        gravity_step(m, dt).px == m.px,
        gravity_step(m, dt).dir == m.dir,
{
}

/// Gravity accumulates over frames: two consecutive gravity passes lower
/// the sprite by exactly the drift over the summed elapsed time.
pub proof fn lemma_gravity_accumulates(m: EntityModel, dt1: int, dt2: int)
    ensures
        gravity_step(gravity_step(m, dt1), dt2).py == m.py - GRAVITY_MILLI * (dt1 + dt2),
{
}

} // verus!
