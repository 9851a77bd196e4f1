//! The session state: the one player, the one depot, the one score, the
//! asteroid and bullet stores, the game mode and the HUD, with the per-frame
//! physics passes and the composed frame step.
//!
//! The engine's "exactly one of each" query lookups become owned fields
//! here, and the frame ordering becomes one explicit, documented sequence.

use vstd::prelude::*;
use crate::collision::{
    asteroids_bounded, bullet_collision_check, bullets_bounded, crash_survivors,
    crash_survivors_upto, fuel_cycle, player_health, player_hits, player_hits_upto,
    shot_survivors, shot_survivors_upto,
    total_pair_hits,
};
use crate::entities::{Asteroid, Bullet, Depot, GameState, PlayerStats, Score};
use crate::geometry::{check_collision, collides, Vec2, COORD_LIMIT, RADIUS_LIMIT};
use crate::hud::{dec_seq, fuel_seq, game_over, score_text, update_fuel_text, update_health_text, Hud};
use crate::physics::{
    bounce_object, bounce_player, integrate_object, lemma_damp_bound, spec_bounce,
    spec_bounce_player, spec_integrate, GameObject, ACCEL_LIMIT,
};
use crate::{FUEL_REFILL, MAX_SPEED};

verus! {

/// Largest frame delta the fuel cycle accepts, in milliseconds (one day).
pub const DT_LIMIT: i64 = 86_400_000;

/// The object's kinematic state is inside every per-frame bound: it sits in
/// the map, is no faster than the speed clamp allows, and carries a bounded
/// acceleration.
pub open spec fn object_wf(o: GameObject) -> bool {
    &&& o.position.in_map()
    &&& -MAX_SPEED <= o.physics_vars.velocity.x <= MAX_SPEED
    &&& -MAX_SPEED <= o.physics_vars.velocity.y <= MAX_SPEED
    &&& -ACCEL_LIMIT <= o.physics_vars.acceleration.x <= ACCEL_LIMIT
    &&& -ACCEL_LIMIT <= o.physics_vars.acceleration.y <= ACCEL_LIMIT
}

/// The asteroid's object is well-formed and its radius fits the collision
/// arithmetic.
pub open spec fn asteroid_ok(a: Asteroid) -> bool {
    object_wf(a.object) && 0 < a.size.size <= RADIUS_LIMIT
}

/// Every asteroid of the store is well-formed.
pub open spec fn asteroids_ok(asteroids: Seq<Asteroid>) -> bool {
    forall|i: int| 0 <= i < asteroids.len() ==> asteroid_ok(#[trigger] asteroids[i])
}

/// Every bullet of the store is well-formed.
pub open spec fn bullets_ok(bullets: Seq<Bullet>) -> bool {
    forall|i: int| 0 <= i < bullets.len() ==> object_wf((#[trigger] bullets[i]).object)
}

/// One object's full physics step: integration, then the elastic border
/// bounce.
pub open spec fn step_object(o: GameObject) -> GameObject {
    spec_bounce(spec_integrate(o))
}

/// The player's full physics step: integration, then the damped border
/// bounce.
pub open spec fn step_player_object(o: GameObject) -> GameObject {
    spec_bounce_player(spec_integrate(o))
}

/// An asteroid's full physics step.
pub open spec fn step_asteroid(a: Asteroid) -> Asteroid {
    Asteroid { object: step_object(a.object), size: a.size }
}

/// A bullet's full physics step.
pub open spec fn step_bullet(b: Bullet) -> Bullet {
    Bullet { object: step_object(b.object) }
}

/// The whole game state of one session.
pub struct Session {
    pub player: GameObject,
    pub player_stats: PlayerStats,
    pub asteroids: Vec<Asteroid>,
    pub bullets: Vec<Bullet>,
    pub depot: Depot,
    pub score: Score,
    pub state: GameState,
    pub hud: Hud,
}

impl Session {
    /// The session invariant every frame step preserves: all stored objects
    /// are inside the map and the physics bounds, the depot is placed and
    /// sized sanely, the tank never exceeds a full refill, and a session
    /// still playing has fuel left.
    pub open spec fn wf(self) -> bool {
        &&& object_wf(self.player)
        &&& asteroids_ok(self.asteroids@)
        &&& bullets_ok(self.bullets@)
        &&& self.depot.position.in_map()
        &&& 0 < self.depot.size.size <= RADIUS_LIMIT
        &&& -2 * DT_LIMIT <= self.player_stats.fuel <= FUEL_REFILL
        &&& (self.state == GameState::Playing ==> self.player_stats.fuel >= 0)
    }

    /// A fresh session: the player at rest at `player_position` with full
    /// health and a full tank, no asteroids or bullets yet, a zero score, a
    /// randomly placed depot, a blank HUD, and the mode at `Playing`.
    pub fn new(player_position: Vec2) -> (s: Session)
        requires
            player_position.in_map(),
        ensures
            s.wf(),
            s.player.position == player_position,
            s.player.physics_vars.velocity == (Vec2 { x: 0, y: 0 }),
            s.player.physics_vars.acceleration == (Vec2 { x: 0, y: 0 }),
            s.player_stats.health == crate::HEALTH_SIZE,
            s.player_stats.fuel == FUEL_REFILL,
            s.asteroids@.len() == 0,
            s.bullets@.len() == 0,
            s.depot.wf(),
            s.score.score == 0,
            s.state == GameState::Playing,
            s.hud.health_text@ == Seq::<char>::empty(),
            s.hud.score_text@ == Seq::<char>::empty(),
            s.hud.fuel_text@ == Seq::<char>::empty(),
            !s.hud.game_over_visible,
    {
        Session {
            player: GameObject::new(player_position),
            player_stats: PlayerStats::new(),
            asteroids: Vec::new(),
            bullets: Vec::new(),
            depot: crate::entities::make_depot(),
            score: Score { score: 0 },
            state: GameState::Playing,
            hud: crate::hud::setup_text(),
        }
    }

    /// Apply a frame's steering force to the player. Forces are cleared by
    /// integration, so the caller re-applies them every frame.
    pub fn set_player_acceleration(&mut self, ax: i64, ay: i64)
        requires
            -ACCEL_LIMIT <= ax <= ACCEL_LIMIT,
            -ACCEL_LIMIT <= ay <= ACCEL_LIMIT,
        ensures
            final(self).player.physics_vars.acceleration == (Vec2 { x: ax, y: ay }),
            final(self).player.position == old(self).player.position,
            final(self).player.physics_vars.velocity == old(self).player.physics_vars.velocity,
            final(self).player_stats == old(self).player_stats,
            final(self).asteroids@ == old(self).asteroids@,
            final(self).bullets@ == old(self).bullets@,
            final(self).depot == old(self).depot,
            final(self).score == old(self).score,
            final(self).state == old(self).state,
            final(self).hud == old(self).hud,
            old(self).wf() ==> final(self).wf(),
    {
        self.player.physics_vars.acceleration = Vec2 { x: ax, y: ay };
    }

    /// Put freshly spawned asteroids into the store.
    pub fn add_asteroids(&mut self, spawned: Vec<Asteroid>)
        requires
            forall|i: int| 0 <= i < spawned@.len() ==> (#[trigger] spawned@[i]).wf(),
        ensures
            final(self).asteroids@ == old(self).asteroids@ + spawned@,
            final(self).player == old(self).player,
            final(self).player_stats == old(self).player_stats,
            final(self).bullets@ == old(self).bullets@,
            final(self).depot == old(self).depot,
            final(self).score == old(self).score,
            final(self).state == old(self).state,
            final(self).hud == old(self).hud,
            old(self).wf() ==> final(self).wf(),
    {
        let mut spawned = spawned;
        proof {
            assert forall|i: int| 0 <= i < spawned@.len() implies asteroid_ok(
                #[trigger] spawned@[i],
            ) by {
                assert(spawned@[i].wf());
            }
        }
        self.asteroids.append(&mut spawned);
    }

    /// Put one freshly fired bullet into the store.
    pub fn add_bullet(&mut self, object: GameObject)
        requires
            object_wf(object),
        ensures
            final(self).bullets@ == old(self).bullets@.push(Bullet { object }),
            final(self).player == old(self).player,
            final(self).player_stats == old(self).player_stats,
            final(self).asteroids@ == old(self).asteroids@,
            final(self).depot == old(self).depot,
            final(self).score == old(self).score,
            final(self).state == old(self).state,
            final(self).hud == old(self).hud,
            old(self).wf() ==> final(self).wf(),
    {
        self.bullets.push(Bullet { object });
    }
}

/// The physics integrator pass: every object carrying physics — the player,
/// every asteroid, every bullet — picks up its acceleration into a clamped
/// velocity, moves by it, and has its acceleration cleared. After the pass
/// no velocity component exceeds `MAX_SPEED` in magnitude, whatever the
/// accelerations were.
#[verifier::loop_isolation(false)]
pub fn apply_phys(s: &mut Session)
    requires
        object_wf(old(s).player),
        asteroids_ok(old(s).asteroids@),
        bullets_ok(old(s).bullets@),
    ensures
        final(s).player == spec_integrate(old(s).player),
        final(s).asteroids@ == old(s).asteroids@.map_values(
            |a: Asteroid| Asteroid { object: spec_integrate(a.object), size: a.size },
        ),
        final(s).bullets@ == old(s).bullets@.map_values(
            |b: Bullet| Bullet { object: spec_integrate(b.object) },
        ),
        final(s).player_stats == old(s).player_stats,
        final(s).depot == old(s).depot,
        final(s).score == old(s).score,
        final(s).state == old(s).state,
        final(s).hud == old(s).hud,
{
    s.player = integrate_object(s.player);
    let ghost orig_a: Seq<Asteroid> = s.asteroids@;
    let mut i: usize = 0;
    let n: usize = s.asteroids.len();
    while i < n
        invariant
            n == orig_a.len(),
            s.asteroids@.len() == n,
            asteroids_ok(orig_a),
            i <= n,
            forall|k: int|
                0 <= k < i ==> s.asteroids@[k] == (Asteroid {
                    object: spec_integrate(orig_a[k].object),
                    size: orig_a[k].size,
                }),
            forall|k: int| i <= k < n ==> s.asteroids@[k] == orig_a[k],
            s.player == spec_integrate(old(s).player),
            s.bullets@ == old(s).bullets@,
            s.player_stats == old(s).player_stats,
            s.depot == old(s).depot,
            s.score == old(s).score,
            s.state == old(s).state,
            s.hud == old(s).hud,
        decreases n - i,
    {
        let mut a: Asteroid = s.asteroids[i];
        proof {
            assert(a == orig_a[i as int]);
            assert(asteroid_ok(orig_a[i as int]));
        }
        a.object = integrate_object(a.object);
        s.asteroids[i] = a;
        i = i + 1;
    }
    proof {
        assert(s.asteroids@ =~= orig_a.map_values(
            |a: Asteroid| Asteroid { object: spec_integrate(a.object), size: a.size },
        ));
    }
    let ghost orig_b: Seq<Bullet> = s.bullets@;
    let mut i: usize = 0;
    let n: usize = s.bullets.len();
    while i < n
        invariant
            n == orig_b.len(),
            s.bullets@.len() == n,
            bullets_ok(orig_b),
            i <= n,
            forall|k: int|
                0 <= k < i ==> s.bullets@[k] == (Bullet { object: spec_integrate(orig_b[k].object) }),
            forall|k: int| i <= k < n ==> s.bullets@[k] == orig_b[k],
            s.player == spec_integrate(old(s).player),
            s.asteroids@ == old(s).asteroids@.map_values(
                |a: Asteroid| Asteroid { object: spec_integrate(a.object), size: a.size },
            ),
            s.player_stats == old(s).player_stats,
            s.depot == old(s).depot,
            s.score == old(s).score,
            s.state == old(s).state,
            s.hud == old(s).hud,
        decreases n - i,
    {
        let mut b: Bullet = s.bullets[i];
        proof {
            assert(b == orig_b[i as int]);
            assert(object_wf(orig_b[i as int].object));
        }
        b.object = integrate_object(b.object);
        s.bullets[i] = b;
        i = i + 1;
    }
    proof {
        assert(s.bullets@ =~= orig_b.map_values(
            |b: Bullet| Bullet { object: spec_integrate(b.object) },
        ));
    }
}

/// Every position coordinate stays within the arithmetic bound after one
/// integration step from inside the map.
pub open spec fn integrated_in_range(o: GameObject) -> bool {
    &&& -COORD_LIMIT <= o.position.x <= COORD_LIMIT
    &&& -COORD_LIMIT <= o.position.y <= COORD_LIMIT
    &&& -MAX_SPEED <= o.physics_vars.velocity.x <= MAX_SPEED
    &&& -MAX_SPEED <= o.physics_vars.velocity.y <= MAX_SPEED
}

/// The border pass: non-player objects — asteroids and bullets — reflect
/// elastically off the map's edges; the player bounces with the damped
/// multiplier instead. Axes are handled independently.
#[verifier::loop_isolation(false)]
pub fn check_borders(s: &mut Session)
    requires
        integrated_in_range(old(s).player),
        forall|i: int|
            0 <= i < old(s).asteroids@.len() ==> integrated_in_range(
                (#[trigger] old(s).asteroids@[i]).object,
            ),
        forall|i: int|
            0 <= i < old(s).bullets@.len() ==> integrated_in_range(
                (#[trigger] old(s).bullets@[i]).object,
            ),
    ensures
        final(s).player == spec_bounce_player(old(s).player),
        final(s).asteroids@ == old(s).asteroids@.map_values(
            |a: Asteroid| Asteroid { object: spec_bounce(a.object), size: a.size },
        ),
        final(s).bullets@ == old(s).bullets@.map_values(
            |b: Bullet| Bullet { object: spec_bounce(b.object) },
        ),
        final(s).player_stats == old(s).player_stats,
        final(s).depot == old(s).depot,
        final(s).score == old(s).score,
        final(s).state == old(s).state,
        final(s).hud == old(s).hud,
{
    let ghost orig_a: Seq<Asteroid> = s.asteroids@;
    let mut i: usize = 0;
    let n: usize = s.asteroids.len();
    while i < n
        invariant
            n == orig_a.len(),
            s.asteroids@.len() == n,
            forall|k: int|
                0 <= k < n ==> integrated_in_range((#[trigger] orig_a[k]).object),
            i <= n,
            forall|k: int|
                0 <= k < i ==> s.asteroids@[k] == (Asteroid {
                    object: spec_bounce(orig_a[k].object),
                    size: orig_a[k].size,
                }),
            forall|k: int| i <= k < n ==> s.asteroids@[k] == orig_a[k],
            s.player == old(s).player,
            s.bullets@ == old(s).bullets@,
            s.player_stats == old(s).player_stats,
            s.depot == old(s).depot,
            s.score == old(s).score,
            s.state == old(s).state,
            s.hud == old(s).hud,
        decreases n - i,
    {
        let mut a: Asteroid = s.asteroids[i];
        proof {
            assert(a == orig_a[i as int]);
            assert(integrated_in_range(orig_a[i as int].object));
        }
        a.object = bounce_object(a.object);
        s.asteroids[i] = a;
        i = i + 1;
    }
    proof {
        assert(s.asteroids@ =~= orig_a.map_values(
            |a: Asteroid| Asteroid { object: spec_bounce(a.object), size: a.size },
        ));
    }
    let ghost orig_b: Seq<Bullet> = s.bullets@;
    let mut i: usize = 0;
    let n: usize = s.bullets.len();
    while i < n
        invariant
            n == orig_b.len(),
            s.bullets@.len() == n,
            forall|k: int|
                0 <= k < n ==> integrated_in_range((#[trigger] orig_b[k]).object),
            i <= n,
            forall|k: int|
                0 <= k < i ==> s.bullets@[k] == (Bullet { object: spec_bounce(orig_b[k].object) }),
            forall|k: int| i <= k < n ==> s.bullets@[k] == orig_b[k],
            s.player == old(s).player,
            s.asteroids@ == old(s).asteroids@.map_values(
                |a: Asteroid| Asteroid { object: spec_bounce(a.object), size: a.size },
            ),
            s.player_stats == old(s).player_stats,
            s.depot == old(s).depot,
            s.score == old(s).score,
            s.state == old(s).state,
            s.hud == old(s).hud,
        decreases n - i,
    {
        let mut b: Bullet = s.bullets[i];
        proof {
            assert(b == orig_b[i as int]);
            assert(integrated_in_range(orig_b[i as int].object));
        }
        b.object = bounce_object(b.object);
        s.bullets[i] = b;
        i = i + 1;
    }
    proof {
        assert(s.bullets@ =~= orig_b.map_values(
            |b: Bullet| Bullet { object: spec_bounce(b.object) },
        ));
    }
    s.player = bounce_player(s.player);
}


/// Well-formed asteroids are inside the collision arithmetic's bounds.
proof fn lemma_asteroids_ok_bounded(asteroids: Seq<Asteroid>)
    requires
        asteroids_ok(asteroids),
    ensures
        asteroids_bounded(asteroids),
{
    assert forall|i: int|
        0 <= i < asteroids.len() implies (#[trigger] asteroids[i]).object.position.bounded() && 0
        < asteroids[i].size.size <= RADIUS_LIMIT by {
        assert(asteroid_ok(asteroids[i]));
    }
}

/// Well-formed bullets are inside the collision arithmetic's bounds.
proof fn lemma_bullets_ok_bounded(bullets: Seq<Bullet>)
    requires
        bullets_ok(bullets),
    ensures
        bullets_bounded(bullets),
{
    assert forall|i: int|
        0 <= i < bullets.len() implies (#[trigger] bullets[i]).object.position.bounded() by {
        assert(object_wf(bullets[i].object));
    }
}

/// The player-contact pass keeps only asteroids it saw, all still
/// well-formed, and never more than it looked at.
proof fn lemma_crash_survivors_ok(asteroids: Seq<Asteroid>, player: Vec2, k: int)
    requires
        0 <= k <= asteroids.len(),
        asteroids_ok(asteroids),
    ensures
        asteroids_ok(crash_survivors_upto(asteroids, player, k)),
        crash_survivors_upto(asteroids, player, k).len() <= k,
    decreases k,
{
    if k > 0 {
        lemma_crash_survivors_ok(asteroids, player, k - 1);
        let prev = crash_survivors_upto(asteroids, player, k - 1);
        let cur = crash_survivors_upto(asteroids, player, k);
        assert forall|i: int| 0 <= i < cur.len() implies asteroid_ok(#[trigger] cur[i]) by {
            if i < prev.len() {
                assert(cur[i] == prev[i]);
                assert(asteroid_ok(prev[i]));
            } else {
                assert(cur[i] == asteroids[k - 1]);
                assert(asteroid_ok(asteroids[k - 1]));
            }
        }
    }
}

/// The bullet pass keeps only asteroids it saw, all still well-formed.
proof fn lemma_shot_survivors_ok(asteroids: Seq<Asteroid>, bullets: Seq<Bullet>, k: int)
    requires
        0 <= k <= asteroids.len(),
        asteroids_ok(asteroids),
    ensures
        asteroids_ok(shot_survivors_upto(asteroids, bullets, k)),
        shot_survivors_upto(asteroids, bullets, k).len() <= k,
    decreases k,
{
    if k > 0 {
        lemma_shot_survivors_ok(asteroids, bullets, k - 1);
        let prev = shot_survivors_upto(asteroids, bullets, k - 1);
        let cur = shot_survivors_upto(asteroids, bullets, k);
        assert forall|i: int| 0 <= i < cur.len() implies asteroid_ok(#[trigger] cur[i]) by {
            if i < prev.len() {
                assert(cur[i] == prev[i]);
                assert(asteroid_ok(prev[i]));
            } else {
                assert(cur[i] == asteroids[k - 1]);
                assert(asteroid_ok(asteroids[k - 1]));
            }
        }
    }
}

/// One full physics step keeps a non-player object well-formed.
proof fn lemma_step_object_ok(o: GameObject)
    requires
        object_wf(o),
    ensures
        object_wf(step_object(o)),
{
}

/// One full physics step keeps the player well-formed.
proof fn lemma_step_player_ok(o: GameObject)
    requires
        object_wf(o),
    ensures
        object_wf(step_player_object(o)),
{
    lemma_damp_bound(spec_integrate(o).physics_vars.velocity.x as int);
    lemma_damp_bound(spec_integrate(o).physics_vars.velocity.y as int);
}

impl Session {
    /// How many stored asteroids currently overlap the player: the health
    /// the next contact pass will cost.
    #[verifier::loop_isolation(false)]
    pub fn player_hit_count(&self) -> (n: usize)
        requires
            asteroids_bounded(self.asteroids@),
            self.player.position.bounded(),
        ensures
            n == player_hits(self.asteroids@, self.player.position),
    {
        let mut n: usize = 0;
        let mut i: usize = 0;
        let len: usize = self.asteroids.len();
        while i < len
            invariant
                i <= len,
                n <= i,
                n == player_hits_upto(self.asteroids@, self.player.position, i as int),
            decreases len - i,
        {
            let a: Asteroid = self.asteroids[i];
            if check_collision(self.player.position, a.object.position, a.size.size) {
                n = n + 1;
            }
            i = i + 1;
        }
        n
    }

    /// One frame of the game, in this explicit order: the player-contact
    /// pass, the bullet pass and the fuel cycle — each judging the frame's
    /// starting positions — then physics integration, the border pass, and
    /// the HUD sync, with the banner forced visible on the frame the game
    /// ends. A session already at `GameOver` is left exactly as it is: the
    /// terminal state is frozen, so repeated ticks mutate nothing — not
    /// health, fuel, score, nor anything else.
    #[verifier::loop_isolation(false)]
    pub fn tick(&mut self, delta_millis: i64)
        requires
            old(self).wf(),
            0 <= delta_millis <= DT_LIMIT,
            old(self).player_stats.health >= player_hits(
                old(self).asteroids@,
                old(self).player.position,
            ),
            old(self).score.score + old(self).asteroids@.len() * old(self).bullets@.len()
                <= u32::MAX,
        ensures
            final(self).wf(),
            old(self).state == GameState::GameOver ==> *final(self) == *old(self),
            old(self).state == GameState::Playing ==> ({
                let hits = player_hits(old(self).asteroids@, old(self).player.position);
                let crash = crash_survivors(old(self).asteroids@, old(self).player.position);
                let kept = shot_survivors(crash, old(self).bullets@);
                let pairs = total_pair_hits(crash, old(self).bullets@);
                let drained = old(self).player_stats.fuel - delta_millis;
                let refuel = collides(
                    old(self).depot.position,
                    old(self).player.position,
                    old(self).depot.size.size as int,
                );
                &&& final(self).player_stats.health == old(self).player_stats.health - hits
                &&& final(self).score.score == old(self).score.score + pairs
                &&& final(self).asteroids@ == kept.map_values(|a: Asteroid| step_asteroid(a))
                &&& final(self).bullets@ == old(self).bullets@.map_values(
                    |b: Bullet| step_bullet(b),
                )
                &&& final(self).player == step_player_object(old(self).player)
                &&& final(self).player_stats.fuel == if refuel {
                    FUEL_REFILL as int
                } else {
                    drained
                }
                &&& final(self).state == if (hits > 0 && old(self).player_stats.health == hits)
                    || drained < 0 {
                    GameState::GameOver
                } else {
                    GameState::Playing
                }
                &&& (!refuel ==> final(self).depot == old(self).depot)
                &&& (refuel ==> final(self).depot.wf())
                &&& final(self).hud.health_text@ == dec_seq(final(self).player_stats.health as int)
                &&& final(self).hud.score_text@ == dec_seq(final(self).score.score as int)
                &&& final(self).hud.fuel_text@ == fuel_seq(final(self).player_stats.fuel as int)
                &&& final(self).hud.game_over_visible == (final(self).player_stats.health < 1
                    || final(self).state == GameState::GameOver)
            }),
    {
        if self.state == GameState::GameOver {
            return ;
        }
        let ghost a0: Seq<Asteroid> = self.asteroids@;
        let ghost b0: Seq<Bullet> = self.bullets@;
        let ghost p0: Vec2 = self.player.position;
        proof {
            lemma_asteroids_ok_bounded(a0);
            lemma_bullets_ok_bounded(b0);
        }
        player_health(
            &mut self.asteroids,
            self.player.position,
            &mut self.player_stats,
            &mut self.state,
        );
        proof {
            lemma_crash_survivors_ok(a0, p0, a0.len() as int);
            lemma_asteroids_ok_bounded(self.asteroids@);
            assert(self.asteroids@.len() * b0.len() <= a0.len() * b0.len()) by (nonlinear_arith)
                requires
                    0 <= self.asteroids@.len() <= a0.len(),
                    b0.len() >= 0,
            ;
        }
        bullet_collision_check(&mut self.asteroids, &self.bullets, &mut self.score);
        let ghost crash: Seq<Asteroid> = crash_survivors(a0, p0);
        let ghost kept: Seq<Asteroid> = shot_survivors(crash, b0);
        proof {
            lemma_shot_survivors_ok(crash, b0, crash.len() as int);
        }
        fuel_cycle(
            self.player.position,
            &mut self.depot,
            &mut self.player_stats,
            &mut self.state,
            delta_millis,
        );
        apply_phys(self);
        proof {
            assert(integrated_in_range(self.player));
            assert forall|i: int|
                0 <= i < self.asteroids@.len() implies integrated_in_range(
                (#[trigger] self.asteroids@[i]).object,
            ) by {
                assert(asteroid_ok(kept[i]));
                assert(self.asteroids@[i].object == spec_integrate(kept[i].object));
            }
            assert forall|i: int|
                0 <= i < self.bullets@.len() implies integrated_in_range(
                (#[trigger] self.bullets@[i]).object,
            ) by {
                assert(object_wf(b0[i].object));
                assert(self.bullets@[i].object == spec_integrate(b0[i].object));
            }
        }
        check_borders(self);
        proof {
            assert(self.asteroids@ =~= kept.map_values(|a: Asteroid| step_asteroid(a)));
            assert(self.bullets@ =~= b0.map_values(|b: Bullet| step_bullet(b)));
            assert forall|i: int|
                0 <= i < self.asteroids@.len() implies asteroid_ok(
                #[trigger] self.asteroids@[i],
            ) by {
                assert(asteroid_ok(kept[i]));
                lemma_step_object_ok(kept[i].object);
                assert(self.asteroids@[i] == step_asteroid(kept[i]));
            }
            assert forall|i: int|
                0 <= i < self.bullets@.len() implies object_wf(
                (#[trigger] self.bullets@[i]).object,
            ) by {
                assert(object_wf(b0[i].object));
                lemma_step_object_ok(b0[i].object);
                assert(self.bullets@[i] == step_bullet(b0[i]));
            }
            lemma_step_player_ok(old(self).player);
        }
        update_health_text(&mut self.hud, &self.player_stats);
        score_text(&mut self.hud, &self.score);
        update_fuel_text(&mut self.hud, &self.player_stats);
        if self.state == GameState::GameOver {
            game_over(&mut self.hud);
        }
    }
}

} // verus!
