//! Core of a small arcade game: a player ship steered by joystick input
//! fires projectiles at enemies that spawn in timed rounds.
//!
//! All game logic is verified. Positions and velocities are fixed-point
//! integers in units of 1/32767 pixel, so that a signed 16-bit joystick
//! axis value normalized by `i16::MAX` is represented exactly (the one
//! raw reading of larger magnitude, `i16::MIN`, saturates to full
//! deflection, so every normalized reading lies in [-1.0, 1.0]). The
//! unverified front end (window, events, rendering, timing) feeds the
//! library plain input events and millisecond ticks, and executes the
//! draw commands the library hands back.

use vstd::prelude::*;

pub mod frame;
pub mod input;
pub mod render;
pub mod round;
pub mod sim;
pub mod slots;
pub mod structs;
pub mod util;

verus! {

/// Fixed-point scale: sub-pixel units per pixel. Chosen as `i16::MAX` so
/// that a raw axis value `v` stands for the normalized stick deflection
/// `v / 32767` exactly, in these units.
pub const UNITS_PER_PIXEL: i64 = 32767;

/// Screen width in pixels.
pub const SCREEN_WIDTH: i64 = 1280;

/// Screen height in pixels.
pub const SCREEN_HEIGHT: i64 = 720;

/// Side of the square drawn for the player and for each enemy, in pixels.
pub const PLAYER_WIDTH: i64 = 50;

/// Largest magnitude a stored joystick axis value can have: full
/// deflection, 1.0. A raw reading of `i16::MIN`, whose magnitude is one
/// more, saturates here when stored, so every normalized deflection lies
/// in [-1.0, 1.0].
pub const AXIS_MAX: i64 = 32767;

/// Screen width in sub-pixel units.
pub const SCREEN_WIDTH_UNITS: i64 = SCREEN_WIDTH * UNITS_PER_PIXEL;

/// Screen height in sub-pixel units.
pub const SCREEN_HEIGHT_UNITS: i64 = SCREEN_HEIGHT * UNITS_PER_PIXEL;

/// Largest x the player may occupy, in sub-pixel units: the square must
/// stay on screen, so its corner is clamped to `SCREEN_WIDTH - PLAYER_WIDTH`.
pub const PLAYER_MAX_X_UNITS: i64 = (SCREEN_WIDTH - PLAYER_WIDTH) * UNITS_PER_PIXEL;

/// Largest y the player may occupy, in sub-pixel units.
pub const PLAYER_MAX_Y_UNITS: i64 = (SCREEN_HEIGHT - PLAYER_WIDTH) * UNITS_PER_PIXEL;

/// Player speed in pixels per frame at full stick deflection. Since a
/// stick value `v` stands for `v / UNITS_PER_PIXEL`, the per-frame
/// displacement in sub-pixel units is exactly `PLAYER_SPEED * v`.
pub const PLAYER_SPEED: i64 = 3;

/// Projectile speed in sub-pixel units per frame (10 pixels per frame).
pub const PROJECTILE_SPEED_UNITS: i64 = 10 * UNITS_PER_PIXEL;

/// Enemy speed in sub-pixel units per frame (1 pixel per frame).
pub const ENEMY_SPEED_UNITS: i64 = UNITS_PER_PIXEL;

/// X coordinate at which a new enemy spawns, in sub-pixel units.
pub const ENEMY_SPAWN_X_UNITS: i64 = 0;

/// Y coordinate at which a new enemy spawns, in sub-pixel units (30 pixels).
pub const ENEMY_SPAWN_Y_UNITS: i64 = 30 * UNITS_PER_PIXEL;

/// The deadzone threshold is `1 / DEADZONE_DIVISOR` (that is, 0.20) of
/// full stick deflection.
pub const DEADZONE_DIVISOR: i64 = 5;

/// Dwell time of a round transition: the announcement shows for this many
/// milliseconds before the round's enemy spawns.
pub const ROUND_TRANSITION_INTERVAL_MS: u32 = 2500;

/// The start-menu prompt toggles visibility at this interval.
pub const PRESS_START_FLASH_INTERVAL_MS: u32 = 500;

/// Frame budget: a frame that finishes faster than this sleeps the rest.
pub const FRAME_BUDGET_MS: u32 = 8;

/// Pixels the start-menu prompt moves per unit of mouse-wheel motion.
pub const MOUSE_WHEEL_STEP: i64 = 30;

/// Initial vertical offset of the start-menu prompt from screen center.
pub const INITIAL_PRESS_START_OFFSET: i32 = 150;

} // verus!
