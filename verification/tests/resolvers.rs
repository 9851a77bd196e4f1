use space_survival::collision::{bullet_collision_check, fuel_cycle, player_health};
use space_survival::entities::{
    Asteroid, AsteroidSize, Bullet, Depot, DepotSize, GameState, PlayerStats, Score,
};
use space_survival::geometry::Vec2;
use space_survival::physics::{GameObject, PhysicsVars};
use space_survival::{FUEL_REFILL, HALF_MAP};

fn still_object(x: i64, y: i64) -> GameObject {
    GameObject {
        position: Vec2 { x, y },
        physics_vars: PhysicsVars {
            velocity: Vec2 { x: 0, y: 0 },
            acceleration: Vec2 { x: 0, y: 0 },
        },
    }
}

fn asteroid(x: i64, y: i64, size: i64) -> Asteroid {
    Asteroid { object: still_object(x, y), size: AsteroidSize { size } }
}

fn bullet(x: i64, y: i64) -> Bullet {
    Bullet { object: still_object(x, y) }
}

#[test]
fn bullet_scores_one_overlapping_asteroid() {
    let mut asteroids = vec![asteroid(5_000, 0, 20_000)];
    let bullets = vec![bullet(0, 0)];
    let mut score = Score { score: 0 };
    bullet_collision_check(&mut asteroids, &bullets, &mut score);
    assert_eq!(score.score, 1);
    assert_eq!(asteroids.len(), 0);
}

#[test]
fn bullet_overlapping_two_asteroids_scores_both() {
    let mut asteroids = vec![asteroid(5_000, 0, 20_000), asteroid(-5_000, 0, 20_000)];
    let bullets = vec![bullet(0, 0)];
    let mut score = Score { score: 0 };
    bullet_collision_check(&mut asteroids, &bullets, &mut score);
    assert_eq!(score.score, 2);
    assert_eq!(asteroids.len(), 0);
}

#[test]
fn two_bullets_in_one_asteroid_score_twice() {
    let mut asteroids = vec![asteroid(0, 0, 20_000)];
    let bullets = vec![bullet(1_000, 0), bullet(-1_000, 0)];
    let mut score = Score { score: 0 };
    bullet_collision_check(&mut asteroids, &bullets, &mut score);
    assert_eq!(score.score, 2);
    assert_eq!(asteroids.len(), 0);
}

#[test]
fn missed_asteroid_survives_in_order() {
    let far = asteroid(600_000, 600_000, 15_000);
    let near = asteroid(0, 0, 20_000);
    let far2 = asteroid(-600_000, -600_000, 15_000);
    let mut asteroids = vec![far, near, far2];
    let bullets = vec![bullet(1_000, 0)];
    let mut score = Score { score: 3 };
    bullet_collision_check(&mut asteroids, &bullets, &mut score);
    assert_eq!(score.score, 4);
    assert_eq!(asteroids.len(), 2);
    assert_eq!(asteroids[0].object.position, Vec2 { x: 600_000, y: 600_000 });
    assert_eq!(asteroids[1].object.position, Vec2 { x: -600_000, y: -600_000 });
}

#[test]
fn no_bullets_changes_nothing() {
    let mut asteroids = vec![asteroid(0, 0, 20_000)];
    let bullets: Vec<Bullet> = Vec::new();
    let mut score = Score { score: 5 };
    bullet_collision_check(&mut asteroids, &bullets, &mut score);
    assert_eq!(score.score, 5);
    assert_eq!(asteroids.len(), 1);
}

#[test]
fn overlapping_asteroids_each_cost_health() {
    let player = Vec2 { x: 0, y: 0 };
    let mut asteroids =
        vec![asteroid(5_000, 0, 20_000), asteroid(600_000, 0, 15_000), asteroid(0, 5_000, 20_000)];
    let mut stats = PlayerStats { health: 20, fuel: FUEL_REFILL };
    let mut state = GameState::Playing;
    player_health(&mut asteroids, player, &mut stats, &mut state);
    assert_eq!(stats.health, 18);
    assert_eq!(stats.fuel, FUEL_REFILL);
    assert_eq!(state, GameState::Playing);
    assert_eq!(asteroids.len(), 1);
    assert_eq!(asteroids[0].object.position.x, 600_000);
}

#[test]
fn health_running_out_ends_the_game() {
    let player = Vec2 { x: 0, y: 0 };
    let mut asteroids = vec![asteroid(5_000, 0, 20_000), asteroid(0, 5_000, 20_000)];
    let mut stats = PlayerStats { health: 2, fuel: FUEL_REFILL };
    let mut state = GameState::Playing;
    player_health(&mut asteroids, player, &mut stats, &mut state);
    assert_eq!(stats.health, 0);
    assert_eq!(state, GameState::GameOver);
    assert_eq!(asteroids.len(), 0);
}

#[test]
fn surviving_health_keeps_playing() {
    let player = Vec2 { x: 0, y: 0 };
    let mut asteroids = vec![asteroid(5_000, 0, 20_000)];
    let mut stats = PlayerStats { health: 2, fuel: FUEL_REFILL };
    let mut state = GameState::Playing;
    player_health(&mut asteroids, player, &mut stats, &mut state);
    assert_eq!(stats.health, 1);
    assert_eq!(state, GameState::Playing);
}

#[test]
fn fuel_drains_by_elapsed_time() {
    let player = Vec2 { x: 0, y: 0 };
    // depot far away: no contact
    let mut depot = Depot { position: Vec2 { x: 600_000, y: 600_000 }, size: DepotSize { size: 50_000 } };
    let mut stats = PlayerStats { health: 20, fuel: FUEL_REFILL };
    let mut state = GameState::Playing;
    fuel_cycle(player, &mut depot, &mut stats, &mut state, 1_500);
    assert_eq!(stats.fuel, FUEL_REFILL - 1_500);
    assert_eq!(state, GameState::Playing);
    assert_eq!(depot.position, Vec2 { x: 600_000, y: 600_000 });
    fuel_cycle(player, &mut depot, &mut stats, &mut state, 500);
    assert_eq!(stats.fuel, FUEL_REFILL - 2_000);
}

#[test]
fn fuel_below_zero_ends_the_game() {
    let player = Vec2 { x: 0, y: 0 };
    let mut depot = Depot { position: Vec2 { x: 600_000, y: 600_000 }, size: DepotSize { size: 50_000 } };
    let mut stats = PlayerStats { health: 20, fuel: 1_000 };
    let mut state = GameState::Playing;
    fuel_cycle(player, &mut depot, &mut stats, &mut state, 1_500);
    assert_eq!(stats.fuel, -500);
    assert_eq!(state, GameState::GameOver);
}

#[test]
fn exact_zero_fuel_keeps_playing() {
    let player = Vec2 { x: 0, y: 0 };
    let mut depot = Depot { position: Vec2 { x: 600_000, y: 600_000 }, size: DepotSize { size: 50_000 } };
    let mut stats = PlayerStats { health: 20, fuel: 1_500 };
    let mut state = GameState::Playing;
    fuel_cycle(player, &mut depot, &mut stats, &mut state, 1_500);
    assert_eq!(stats.fuel, 0);
    assert_eq!(state, GameState::Playing);
}

#[test]
fn depot_contact_refills_and_relocates() {
    // the old depot sits exactly on the border corner: a respawned depot is
    // sampled from the half-open map square, so its position must differ
    let player = Vec2 { x: HALF_MAP, y: HALF_MAP };
    let old_position = Vec2 { x: HALF_MAP, y: HALF_MAP };
    let mut depot = Depot { position: old_position, size: DepotSize { size: 50_000 } };
    let mut stats = PlayerStats { health: 20, fuel: 3_000 };
    let mut state = GameState::Playing;
    fuel_cycle(player, &mut depot, &mut stats, &mut state, 1_000);
    assert_eq!(stats.fuel, FUEL_REFILL);
    assert_eq!(state, GameState::Playing);
    assert_ne!(depot.position, old_position);
    assert!(depot.position.x >= -HALF_MAP && depot.position.x < HALF_MAP);
    assert!(depot.position.y >= -HALF_MAP && depot.position.y < HALF_MAP);
    assert!(depot.size.size >= 40_000 && depot.size.size < 70_000);
}

#[test]
fn drained_tank_still_ends_the_game_on_refuel_contact() {
    let player = Vec2 { x: 0, y: 0 };
    let mut depot = Depot { position: Vec2 { x: 0, y: 0 }, size: DepotSize { size: 50_000 } };
    let mut stats = PlayerStats { health: 20, fuel: 500 };
    let mut state = GameState::Playing;
    fuel_cycle(player, &mut depot, &mut stats, &mut state, 1_000);
    // the drain-then-check order fired the game over before the refill
    assert_eq!(state, GameState::GameOver);
    assert_eq!(stats.fuel, FUEL_REFILL);
}
