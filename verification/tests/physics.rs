use space_survival::geometry::{check_collision, Vec2};
use space_survival::physics::{
    bounce_object, bounce_player, integrate_object, GameObject, PhysicsVars,
};
use space_survival::{HALF_MAP, MAX_SPEED};

fn object(px: i64, py: i64, vx: i64, vy: i64, ax: i64, ay: i64) -> GameObject {
    GameObject {
        position: Vec2 { x: px, y: py },
        physics_vars: PhysicsVars {
            velocity: Vec2 { x: vx, y: vy },
            acceleration: Vec2 { x: ax, y: ay },
        },
    }
}

#[test]
fn integrate_accumulates_and_moves() {
    let r = integrate_object(object(100, -200, 1_000, 2_000, 500, -700));
    assert_eq!(r.physics_vars.velocity, Vec2 { x: 1_500, y: 1_300 });
    assert_eq!(r.position, Vec2 { x: 1_600, y: 1_100 });
    assert_eq!(r.physics_vars.acceleration, Vec2 { x: 0, y: 0 });
}

#[test]
fn integrate_clamps_speed() {
    let r = integrate_object(object(0, 0, 17_000, -17_000, 5_000_000, -5_000_000));
    assert_eq!(r.physics_vars.velocity, Vec2 { x: MAX_SPEED, y: -MAX_SPEED });
    assert_eq!(r.position, Vec2 { x: MAX_SPEED, y: -MAX_SPEED });
    assert_eq!(r.physics_vars.acceleration, Vec2 { x: 0, y: 0 });
}

#[test]
fn integrate_clamp_holds_at_edge_values() {
    let r = integrate_object(object(0, 0, MAX_SPEED, -MAX_SPEED, 1, -1));
    assert_eq!(r.physics_vars.velocity, Vec2 { x: MAX_SPEED, y: -MAX_SPEED });
    let r = integrate_object(object(0, 0, MAX_SPEED - 1, 0, 1, 0));
    assert_eq!(r.physics_vars.velocity.x, MAX_SPEED);
}

#[test]
fn bounce_right_edge_flips_velocity() {
    let r = bounce_object(object(HALF_MAP + 1, 0, 100, 7, 3, 4));
    assert_eq!(r.position, Vec2 { x: HALF_MAP, y: 0 });
    assert_eq!(r.physics_vars.velocity, Vec2 { x: -100, y: 7 });
    assert_eq!(r.physics_vars.acceleration, Vec2 { x: 3, y: 4 });
}

#[test]
fn bounce_left_and_bottom_edges() {
    let r = bounce_object(object(-HALF_MAP - 50, -HALF_MAP - 50, -300, -400, 0, 0));
    assert_eq!(r.position, Vec2 { x: -HALF_MAP, y: -HALF_MAP });
    assert_eq!(r.physics_vars.velocity, Vec2 { x: 300, y: 400 });
}

#[test]
fn bounce_inside_map_is_untouched() {
    let o = object(0, HALF_MAP, 50, -60, 0, 0);
    let r = bounce_object(o);
    assert_eq!(r.position, o.position);
    assert_eq!(r.physics_vars.velocity, o.physics_vars.velocity);
}

#[test]
fn player_bounce_is_damped() {
    let r = bounce_player(object(HALF_MAP + 1, 0, 10_000, 7, 0, 0));
    assert_eq!(r.position, Vec2 { x: HALF_MAP, y: 0 });
    // 0.15 of the magnitude, sign flipped
    assert_eq!(r.physics_vars.velocity, Vec2 { x: -1_500, y: 7 });
    let r = bounce_player(object(-HALF_MAP - 1, 0, -10_000, 0, 0, 0));
    assert_eq!(r.physics_vars.velocity.x, 1_500);
}

#[test]
fn player_bounce_rounds_toward_zero() {
    let r = bounce_player(object(HALF_MAP + 1, 0, 100, 0, 0, 0));
    assert_eq!(r.physics_vars.velocity.x, -15);
    let r = bounce_player(object(HALF_MAP + 1, 0, 9, 0, 0, 0));
    assert_eq!(r.physics_vars.velocity.x, -1);
    let r = bounce_player(object(HALF_MAP + 1, 0, 5, 0, 0, 0));
    assert_eq!(r.physics_vars.velocity.x, 0);
}

#[test]
fn collision_is_strict_distance_under_radius() {
    let a = Vec2 { x: 0, y: 0 };
    let b = Vec2 { x: 3_000, y: 4_000 };
    // distance is exactly 5000
    assert!(!check_collision(a, b, 5_000));
    assert!(check_collision(a, b, 5_001));
    assert!(check_collision(a, a, 1));
}
