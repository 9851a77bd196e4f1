//! The game's entities and their spawners: asteroids, bullets, the fuel
//! depot, the player's stats, the score, and the game-mode value.
//!
//! Spawners decide what to create, where, and with what stats; resolving a
//! texture for the new entity is the host engine's job.

use vstd::prelude::*;
use rand::Rng;
use crate::geometry::Vec2;
use crate::physics::{GameObject, PhysicsVars};
use crate::{ASTEROID_SPEED, FUEL_REFILL, HALF_MAP, HEALTH_SIZE, MAP_SIZE};

verus! {

/// The game mode. `Playing` is initial; `GameOver` is terminal: no step of
/// this crate ever leaves it.
#[derive(Clone, Copy, PartialEq, Eq, Structural, Debug)]
pub enum GameState {
    Playing,
    GameOver,
}

/// The session's global score counter.
#[derive(Clone, Copy, PartialEq, Eq, Structural, Debug)]
pub struct Score {
    pub score: u32,
}

/// The player's depletable resources: integer health and fuel in
/// milliseconds of remaining burn time.
#[derive(Clone, Copy, PartialEq, Eq, Structural, Debug)]
pub struct PlayerStats {
    pub health: u32,
    pub fuel: i64,
}

/// An asteroid's collision radius, in fixed-point steps.
#[derive(Clone, Copy, PartialEq, Eq, Structural, Debug)]
pub struct AsteroidSize {
    pub size: i64,
}

/// The fuel depot's contact radius, in fixed-point steps.
#[derive(Clone, Copy, PartialEq, Eq, Structural, Debug)]
pub struct DepotSize {
    pub size: i64,
}

/// One asteroid: a moving object with a collision radius.
#[derive(Clone, Copy, PartialEq, Eq, Structural, Debug)]
pub struct Asteroid {
    pub object: GameObject,
    pub size: AsteroidSize,
}

/// One player-fired bullet.
#[derive(Clone, Copy, PartialEq, Eq, Structural, Debug)]
pub struct Bullet {
    pub object: GameObject,
}

/// The single refueling station.
#[derive(Clone, Copy, PartialEq, Eq, Structural, Debug)]
pub struct Depot {
    pub position: Vec2,
    pub size: DepotSize,
}

/// Smallest and largest-plus-one radius of a spawned asteroid
/// (15 and 30 world units).
pub const ASTEROID_SIZE_MIN: i64 = 15_000;

pub const ASTEROID_SIZE_MAX: i64 = 30_000;

/// Smallest and largest-plus-one radius of a spawned depot
/// (40 and 70 world units).
pub const DEPOT_SIZE_MIN: i64 = 40_000;

pub const DEPOT_SIZE_MAX: i64 = 70_000;

impl PlayerStats {
    /// A fresh player: full health and a full tank.
    pub fn new() -> (stats: PlayerStats)
        ensures
            stats.health == HEALTH_SIZE,
            stats.fuel == FUEL_REFILL,
    {
        PlayerStats { health: HEALTH_SIZE, fuel: FUEL_REFILL }
    }
}

impl Asteroid {
    /// The asteroid's stats are inside every bound the per-frame step needs:
    /// it sits in the map, moves no faster than an asteroid may, and its
    /// radius is positive and within the spawn range.
    pub open spec fn wf(self) -> bool {
        &&& self.object.position.in_map()
        &&& -ASTEROID_SPEED <= self.object.physics_vars.velocity.x <= ASTEROID_SPEED
        &&& -ASTEROID_SPEED <= self.object.physics_vars.velocity.y <= ASTEROID_SPEED
        &&& self.object.physics_vars.acceleration == (Vec2 { x: 0, y: 0 })
        &&& ASTEROID_SIZE_MIN <= self.size.size < ASTEROID_SIZE_MAX
    }
}

impl Depot {
    /// The depot sits in the map with a radius in the spawn range.
    pub open spec fn wf(self) -> bool {
        &&& self.position.in_map()
        &&& DEPOT_SIZE_MIN <= self.size.size < DEPOT_SIZE_MAX
    }
}

/// Relies on `rand::thread_rng`: a handle to the thread-local generator.
#[verifier::external_body]
fn fresh_rng() -> rand::rngs::ThreadRng {
    rand::thread_rng()
}

/// Relies on `rand::Rng::gen_range` over an `i64` range `lo..hi`: the sample
/// lies in `[lo, hi)`; the call panics only on an empty range, which the
/// precondition rules out. Nothing more is assumed of the outcome.
#[verifier::external_body]
fn rand_range(rng: &mut rand::rngs::ThreadRng, lo: i64, hi: i64) -> (r: i64)
    requires
        lo < hi,
    ensures
        lo <= r < hi,
{
    rng.gen_range(lo..hi)
}

/// Declares the outside generator type so it can cross these signatures.
#[verifier::external_type_specification]
#[verifier::external_body]
pub struct ExThreadRng(rand::rngs::ThreadRng);

/// Spawn `num_asteroids` asteroids with randomized stats: each position
/// coordinate is sampled over the full map span and then halved, each
/// velocity component lies in `[-ASTEROID_SPEED, ASTEROID_SPEED)`, and each
/// radius in `[ASTEROID_SIZE_MIN, ASTEROID_SIZE_MAX)`. No overlap check is
/// made against anything already in the world.
pub fn spawn_asteroid(num_asteroids: u32) -> (spawned: Vec<Asteroid>)
    ensures
        spawned@.len() == num_asteroids,
        forall|i: int| 0 <= i < spawned@.len() ==> (#[trigger] spawned@[i]).wf(),
{
    let mut rng = fresh_rng();
    let mut spawned: Vec<Asteroid> = Vec::new();
    let mut k: u32 = 0;
    while k < num_asteroids
        invariant
            k <= num_asteroids,
            spawned@.len() == k,
            forall|i: int| 0 <= i < spawned@.len() ==> (#[trigger] spawned@[i]).wf(),
        decreases num_asteroids - k,
    {
        let span_x = rand_range(&mut rng, -MAP_SIZE, MAP_SIZE);
        let span_y = rand_range(&mut rng, -MAP_SIZE, MAP_SIZE);
        let position = Vec2 { x: halve(span_x), y: halve(span_y) };
        let size = rand_range(&mut rng, ASTEROID_SIZE_MIN, ASTEROID_SIZE_MAX);
        let vx = rand_range(&mut rng, -ASTEROID_SPEED, ASTEROID_SPEED);
        let vy = rand_range(&mut rng, -ASTEROID_SPEED, ASTEROID_SPEED);
        spawned.push(
            Asteroid {
                object: GameObject {
                    position,
                    physics_vars: PhysicsVars {
                        velocity: Vec2 { x: vx, y: vy },
                        acceleration: Vec2 { x: 0, y: 0 },
                    },
                },
                size: AsteroidSize { size },
            },
        );
        k = k + 1;
    }
    spawned
}

/// Half of `v`, rounded toward zero.
fn halve(v: i64) -> (r: i64)
    requires
        -MAP_SIZE <= v <= MAP_SIZE,
    ensures
        -HALF_MAP <= r <= HALF_MAP,
        v >= 0 ==> r == v as int / 2,
        v < 0 ==> r == -((-v) as int / 2),
{
    let mag: u64 = if v < 0 {
        (-v) as u64
    } else {
        v as u64
    };
    let half: u64 = mag / 2;
    if v < 0 {
        -(half as i64)
    } else {
        half as i64
    }
}

/// Spawn the single fuel depot at a random spot of the map square, with a
/// radius in `[DEPOT_SIZE_MIN, DEPOT_SIZE_MAX)`. The caller has already
/// removed any prior depot.
pub fn make_depot() -> (depot: Depot)
    ensures
        depot.wf(),
        -HALF_MAP <= depot.position.x < HALF_MAP,
        -HALF_MAP <= depot.position.y < HALF_MAP,
{
    let mut rng = fresh_rng();
    let size = rand_range(&mut rng, DEPOT_SIZE_MIN, DEPOT_SIZE_MAX);
    let x = rand_range(&mut rng, -HALF_MAP, HALF_MAP);
    let y = rand_range(&mut rng, -HALF_MAP, HALF_MAP);
    Depot { position: Vec2 { x, y }, size: DepotSize { size } }
}

} // verus!
