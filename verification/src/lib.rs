//! Gameplay logic for a small 2D space-survival arcade game: dodge and shoot
//! asteroids, manage fuel and health, inside a square map.
//!
//! All geometry uses fixed-point arithmetic: positions, velocities and sizes
//! are signed integers counting thousandths of a world unit, so that every
//! step of the physics and collision logic is exact and verified. The host
//! engine (entity storage, rendering, input, the frame clock) lives outside
//! this crate and exchanges plain values with it.

pub mod collision;
pub mod entities;
pub mod geometry;
pub mod hud;
pub mod physics;
pub mod session;

use vstd::prelude::*;

verus! {

/// Fixed-point scale: one world unit is this many fixed-point steps.
pub const MILLI: i64 = 1000;

/// Largest velocity component after clamping, in fixed-point steps
/// (18 world units per frame).
pub const MAX_SPEED: i64 = 18_000;

/// Side length of the square playable area, in fixed-point steps
/// (1500 world units), centered at the origin.
pub const MAP_SIZE: i64 = 1_500_000;

/// Half the map side: the coordinate of each border.
pub const HALF_MAP: i64 = 750_000;

/// Numerator of the damping factor applied to the player's velocity on a
/// border hit (0.15, as a fraction of `MILLI`). Other objects reflect with
/// factor 1.
pub const BOUNDARY_BOUNCE_NUM: i64 = 150;

/// Largest velocity component a freshly spawned asteroid may have,
/// in fixed-point steps (0.5 world units per frame).
pub const ASTEROID_SPEED: i64 = 500;

/// The player's initial health.
pub const HEALTH_SIZE: u32 = 20;

/// Fuel level set on contact with a depot, in milliseconds of burn time
/// (20 seconds).
pub const FUEL_REFILL: i64 = 20_000;

} // verus!
