//! Verified per-frame update logic for a pair of one-sprite,
//! one-screen game demos.
//!
//! Two independent variants share one screen model:
//!
//! * `free_roam`: the sprite moves at constant speed in the last-latched
//!   direction, drifts down under gravity, and is clamped to the screen.
//! * `jumper`: a small platformer with an `OnGround`/`Jumping` state machine,
//!   an impulse-driven jump, gravity acting on velocity, and a bottom edge
//!   that re-grounds the sprite.
//!
//! All quantities are exact fixed-point integers (see `screen`), so every
//! contract pins the arithmetic down to the last digit. The host side — the
//! window, the renderer, keyboard polling and the frame loop — lives outside
//! this crate and hands the stage functions plain values: a frame's elapsed
//! time in milliseconds and the current key states.

pub mod free_roam;
pub mod jumper;
pub mod screen;
