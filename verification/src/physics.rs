//! Per-object physics: acceleration/velocity/position integration with a
//! speed clamp, and the two border-bounce policies (elastic for ordinary
//! objects, heavily damped for the player).

use vstd::prelude::*;
use crate::geometry::Vec2;
use crate::{BOUNDARY_BOUNCE_NUM, HALF_MAP, MAX_SPEED, MILLI};

verus! {

/// Bound on any velocity component the physics functions accept; far beyond
/// `MAX_SPEED`, small enough that sums and scalings stay inside `i64`.
pub const VEL_LIMIT: i64 = 1_000_000_000;

/// Bound on any acceleration component the physics functions accept.
pub const ACCEL_LIMIT: i64 = 1_000_000_000;

/// The kinematic state of one moving object.
#[derive(Clone, Copy, PartialEq, Eq, Structural, Debug)]
pub struct PhysicsVars {
    pub velocity: Vec2,
    pub acceleration: Vec2,
}

/// One movable game object: where it is and how it moves. Sprites, textures
/// and render sizes belong to the host engine, not to this state.
#[derive(Clone, Copy, PartialEq, Eq, Structural, Debug)]
pub struct GameObject {
    pub position: Vec2,
    pub physics_vars: PhysicsVars,
}

impl PhysicsVars {
    /// Both components of both vectors are within the physics bounds.
    pub open spec fn bounded(self) -> bool {
        &&& -VEL_LIMIT <= self.velocity.x <= VEL_LIMIT
        &&& -VEL_LIMIT <= self.velocity.y <= VEL_LIMIT
        &&& -ACCEL_LIMIT <= self.acceleration.x <= ACCEL_LIMIT
        &&& -ACCEL_LIMIT <= self.acceleration.y <= ACCEL_LIMIT
    }
}

impl GameObject {
    /// A new object at `position`, at rest: zero velocity and acceleration.
    pub fn new(position: Vec2) -> (object: GameObject)
        ensures
            object.position == position,
            object.physics_vars.velocity == (Vec2 { x: 0, y: 0 }),
            object.physics_vars.acceleration == (Vec2 { x: 0, y: 0 }),
    {
        GameObject {
            position,
            physics_vars: PhysicsVars {
                velocity: Vec2 { x: 0, y: 0 },
                acceleration: Vec2 { x: 0, y: 0 },
            },
        }
    }
}

/// A velocity component clamped to `[-MAX_SPEED, MAX_SPEED]`.
pub open spec fn clamp_speed(v: int) -> int {
    if v < -MAX_SPEED {
        -MAX_SPEED as int
    } else if v > MAX_SPEED {
        MAX_SPEED as int
    } else {
        v
    }
}

/// One integration step: velocity picks up the acceleration and is clamped,
/// the position picks up the clamped velocity, the acceleration is cleared
/// (forces must be re-applied every frame).
pub open spec fn spec_integrate(o: GameObject) -> GameObject {
    let vx = clamp_speed(o.physics_vars.velocity.x + o.physics_vars.acceleration.x);
    let vy = clamp_speed(o.physics_vars.velocity.y + o.physics_vars.acceleration.y);
    GameObject {
        position: Vec2 { x: (o.position.x + vx) as i64, y: (o.position.y + vy) as i64 },
        physics_vars: PhysicsVars {
            velocity: Vec2 { x: vx as i64, y: vy as i64 },
            acceleration: Vec2 { x: 0, y: 0 },
        },
    }
}

/// Integrate one object for one frame. The resulting speed never exceeds
/// `MAX_SPEED` on either axis, whatever the acceleration was.
pub fn integrate_object(o: GameObject) -> (r: GameObject)
    requires
        o.position.bounded(),
        o.physics_vars.bounded(),
    ensures
        r == spec_integrate(o),
        -MAX_SPEED <= r.physics_vars.velocity.x <= MAX_SPEED,
        -MAX_SPEED <= r.physics_vars.velocity.y <= MAX_SPEED,
        r.physics_vars.acceleration == (Vec2 { x: 0, y: 0 }),
{
    let mut vx: i64 = o.physics_vars.velocity.x + o.physics_vars.acceleration.x;
    let mut vy: i64 = o.physics_vars.velocity.y + o.physics_vars.acceleration.y;
    if vx < -MAX_SPEED {
        vx = -MAX_SPEED;
    } else if vx > MAX_SPEED {
        vx = MAX_SPEED;
    }
    if vy < -MAX_SPEED {
        vy = -MAX_SPEED;
    } else if vy > MAX_SPEED {
        vy = MAX_SPEED;
    }
    GameObject {
        position: Vec2 { x: o.position.x + vx, y: o.position.y + vy },
        physics_vars: PhysicsVars {
            velocity: Vec2 { x: vx, y: vy },
            acceleration: Vec2 { x: 0, y: 0 },
        },
    }
}

/// However large the acceleration, an integrated velocity component never
/// leaves `[-MAX_SPEED, MAX_SPEED]`.
pub proof fn lemma_integrate_clamps_velocity(o: GameObject)
    ensures
        -MAX_SPEED <= spec_integrate(o).physics_vars.velocity.x <= MAX_SPEED,
        -MAX_SPEED <= spec_integrate(o).physics_vars.velocity.y <= MAX_SPEED,
{
}

/// A coordinate pushed back to the border it crossed, if it crossed one.
pub open spec fn reflect_pos(p: int) -> int {
    if p > HALF_MAP {
        HALF_MAP as int
    } else if p < -HALF_MAP {
        -HALF_MAP as int
    } else {
        p
    }
}

/// The coordinate lies beyond a border.
pub open spec fn past_border(p: int) -> bool {
    p > HALF_MAP || p < -HALF_MAP
}

/// The player's damped bounce: the velocity scaled by the bounce factor
/// (`BOUNDARY_BOUNCE_NUM / MILLI`, i.e. 0.15) and flipped in sign, the
/// magnitude rounded toward zero.
pub open spec fn damp(v: int) -> int {
    if v >= 0 {
        -((v * BOUNDARY_BOUNCE_NUM) / MILLI as int)
    } else {
        ((-v) * BOUNDARY_BOUNCE_NUM) / MILLI as int
    }
}

/// An ordinary object's border step: on each axis independently, a position
/// beyond a border is clamped to that border and the axis's velocity sign
/// flips; an axis within bounds is untouched.
pub open spec fn spec_bounce(o: GameObject) -> GameObject {
    GameObject {
        position: Vec2 {
            x: reflect_pos(o.position.x as int) as i64,
            y: reflect_pos(o.position.y as int) as i64,
        },
        physics_vars: PhysicsVars {
            velocity: Vec2 {
                x: if past_border(o.position.x as int) {
                    (-o.physics_vars.velocity.x) as i64
                } else {
                    o.physics_vars.velocity.x
                },
                y: if past_border(o.position.y as int) {
                    (-o.physics_vars.velocity.y) as i64
                } else {
                    o.physics_vars.velocity.y
                },
            },
            acceleration: o.physics_vars.acceleration,
        },
    }
}

/// The player's border step: the same position clamp, but the velocity on a
/// crossed axis is damped instead of elastically reflected.
pub open spec fn spec_bounce_player(o: GameObject) -> GameObject {
    GameObject {
        position: Vec2 {
            x: reflect_pos(o.position.x as int) as i64,
            y: reflect_pos(o.position.y as int) as i64,
        },
        physics_vars: PhysicsVars {
            velocity: Vec2 {
                x: if past_border(o.position.x as int) {
                    damp(o.physics_vars.velocity.x as int) as i64
                } else {
                    o.physics_vars.velocity.x
                },
                y: if past_border(o.position.y as int) {
                    damp(o.physics_vars.velocity.y as int) as i64
                } else {
                    o.physics_vars.velocity.y
                },
            },
            acceleration: o.physics_vars.acceleration,
        },
    }
}

/// Elastic border bounce for one non-player object.
pub fn bounce_object(o: GameObject) -> (r: GameObject)
    requires
        -VEL_LIMIT <= o.physics_vars.velocity.x <= VEL_LIMIT,
        -VEL_LIMIT <= o.physics_vars.velocity.y <= VEL_LIMIT,
    ensures
        r == spec_bounce(o),
        r.position.in_map(),
        o.position.x > HALF_MAP ==> r.position.x == HALF_MAP && r.physics_vars.velocity.x == -o.physics_vars.velocity.x,
        o.position.y > HALF_MAP ==> r.position.y == HALF_MAP && r.physics_vars.velocity.y == -o.physics_vars.velocity.y,
{
    let mut r = o;
    if r.position.x > HALF_MAP {
        r.position.x = HALF_MAP;
        r.physics_vars.velocity.x = -r.physics_vars.velocity.x;
    } else if r.position.x < -HALF_MAP {
        r.position.x = -HALF_MAP;
        r.physics_vars.velocity.x = -r.physics_vars.velocity.x;
    }
    if r.position.y > HALF_MAP {
        r.position.y = HALF_MAP;
        r.physics_vars.velocity.y = -r.physics_vars.velocity.y;
    } else if r.position.y < -HALF_MAP {
        r.position.y = -HALF_MAP;
        r.physics_vars.velocity.y = -r.physics_vars.velocity.y;
    }
    r
}

/// Scale a velocity component by the player's bounce damping and flip its
/// sign, rounding the magnitude toward zero.
pub fn damp_velocity(v: i64) -> (r: i64)
    requires
        -VEL_LIMIT <= v <= VEL_LIMIT,
    ensures
        r == damp(v as int),
        v >= 0 ==> -v <= r <= 0,
        v < 0 ==> 0 <= r <= -v,
{
    let mag: u64 = if v < 0 {
        (-v) as u64
    } else {
        v as u64
    };
    let scaled: u64 = (mag * BOUNDARY_BOUNCE_NUM as u64) / MILLI as u64;
    proof {
        assert(mag * 150 <= mag * 1000) by (nonlinear_arith)
            requires mag >= 0;
        assert((mag * 1000) / 1000 == mag) by (nonlinear_arith)
            requires mag >= 0;
        assert((mag * 150) / 1000 <= (mag * 1000) / 1000) by (nonlinear_arith)
            requires mag >= 0;
    }
    if v >= 0 {
        -(scaled as i64)
    } else {
        scaled as i64
    }
}

/// Damping never grows a velocity's magnitude: the damped value lies between
/// zero and the negated input value.
pub proof fn lemma_damp_bound(v: int)
    ensures
        v >= 0 ==> -v <= damp(v) <= 0,
        v < 0 ==> 0 <= damp(v) <= -v,
{
    let m: int = if v >= 0 {
        v
    } else {
        -v
    };
    assert(m * 150 <= m * 1000) by (nonlinear_arith)
        requires m >= 0,
    ;
    assert((m * 1000) / 1000 == m) by (nonlinear_arith)
        requires m >= 0,
    ;
    assert((m * 150) / 1000 <= (m * 1000) / 1000) by (nonlinear_arith)
        requires m >= 0,
    ;
    assert((m * 150) / 1000 >= 0) by (nonlinear_arith)
        requires m >= 0,
    ;
}

/// Damped border bounce for the player.
pub fn bounce_player(o: GameObject) -> (r: GameObject)
    requires
        -VEL_LIMIT <= o.physics_vars.velocity.x <= VEL_LIMIT,
        -VEL_LIMIT <= o.physics_vars.velocity.y <= VEL_LIMIT,
    ensures
        r == spec_bounce_player(o),
        r.position.in_map(),
        o.position.x > HALF_MAP ==> r.position.x == HALF_MAP && r.physics_vars.velocity.x == damp(
            o.physics_vars.velocity.x as int,
        ),
        o.position.y > HALF_MAP ==> r.position.y == HALF_MAP && r.physics_vars.velocity.y == damp(
            o.physics_vars.velocity.y as int,
        ),
{
    let mut r = o;
    if r.position.x > HALF_MAP {
        r.position.x = HALF_MAP;
        r.physics_vars.velocity.x = damp_velocity(r.physics_vars.velocity.x);
    } else if r.position.x < -HALF_MAP {
        r.position.x = -HALF_MAP;
        r.physics_vars.velocity.x = damp_velocity(r.physics_vars.velocity.x);
    }
    if r.position.y > HALF_MAP {
        r.position.y = HALF_MAP;
        r.physics_vars.velocity.y = damp_velocity(r.physics_vars.velocity.y);
    } else if r.position.y < -HALF_MAP {
        r.position.y = -HALF_MAP;
        r.physics_vars.velocity.y = damp_velocity(r.physics_vars.velocity.y);
    }
    r
}

} // verus!
