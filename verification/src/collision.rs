//! Collision and damage resolution: bullets destroy asteroids and score,
//! asteroids colliding with the player cost health, and the fuel cycle
//! drains, checks and refills the tank. Each resolver also drives the
//! one-way transition into `GameState::GameOver`.

use vstd::prelude::*;
use crate::entities::{Asteroid, Bullet, Depot, GameState, PlayerStats, Score};
use crate::entities::make_depot;
use crate::geometry::{check_collision, collides, Vec2, RADIUS_LIMIT};
use crate::{FUEL_REFILL, HALF_MAP};

verus! {

/// The bullet overlaps the asteroid: their centers are closer than the
/// asteroid's radius.
pub open spec fn bullet_hits_asteroid(b: Bullet, a: Asteroid) -> bool {
    collides(b.object.position, a.object.position, a.size.size as int)
}

/// How many of the first `k` bullets overlap asteroid `a`.
pub open spec fn bullet_hits_upto(a: Asteroid, bullets: Seq<Bullet>, k: int) -> int
    decreases k,
{
    if k <= 0 {
        0
    } else {
        bullet_hits_upto(a, bullets, k - 1) + if bullet_hits_asteroid(bullets[k - 1], a) {
            1int
        } else {
            0int
        }
    }
}

/// Some bullet overlaps the asteroid.
pub open spec fn asteroid_shot(a: Asteroid, bullets: Seq<Bullet>) -> bool {
    exists|j: int| 0 <= j < bullets.len() && bullet_hits_asteroid(bullets[j], a)
}

/// The overlapping (asteroid, bullet) pairs among the first `k` asteroids:
/// the score advances by one for each such pair.
pub open spec fn pair_hits_upto(asteroids: Seq<Asteroid>, bullets: Seq<Bullet>, k: int) -> int
    decreases k,
{
    if k <= 0 {
        0
    } else {
        pair_hits_upto(asteroids, bullets, k - 1) + bullet_hits_upto(
            asteroids[k - 1],
            bullets,
            bullets.len() as int,
        )
    }
}

/// All overlapping (asteroid, bullet) pairs.
pub open spec fn total_pair_hits(asteroids: Seq<Asteroid>, bullets: Seq<Bullet>) -> int {
    pair_hits_upto(asteroids, bullets, asteroids.len() as int)
}

/// The asteroids among the first `k` that no bullet overlaps, in their
/// input order: the ones that survive the bullet pass.
pub open spec fn shot_survivors_upto(
    asteroids: Seq<Asteroid>,
    bullets: Seq<Bullet>,
    k: int,
) -> Seq<Asteroid>
    decreases k,
{
    if k <= 0 {
        Seq::empty()
    } else {
        shot_survivors_upto(asteroids, bullets, k - 1) + if asteroid_shot(
            asteroids[k - 1],
            bullets,
        ) {
            Seq::empty()
        } else {
            seq![asteroids[k - 1]]
        }
    }
}

/// The asteroids that survive the bullet pass.
pub open spec fn shot_survivors(asteroids: Seq<Asteroid>, bullets: Seq<Bullet>) -> Seq<Asteroid> {
    shot_survivors_upto(asteroids, bullets, asteroids.len() as int)
}

/// Every asteroid's stats are inside the collision arithmetic's bounds.
pub open spec fn asteroids_bounded(asteroids: Seq<Asteroid>) -> bool {
    forall|i: int|
        0 <= i < asteroids.len() ==> (#[trigger] asteroids[i]).object.position.bounded() && 0
            < asteroids[i].size.size <= RADIUS_LIMIT
}

/// Every bullet's position is inside the collision arithmetic's bounds.
pub open spec fn bullets_bounded(bullets: Seq<Bullet>) -> bool {
    forall|i: int| 0 <= i < bullets.len() ==> (#[trigger] bullets[i]).object.position.bounded()
}

/// Bullet-versus-asteroid pass. Every asteroid that some bullet overlaps is
/// despawned, and the score advances by one for each overlapping
/// (asteroid, bullet) pair — a bullet inside two asteroids scores both, and
/// an asteroid holding two bullets scores twice, with no early exit.
pub fn bullet_collision_check(
    asteroids: &mut Vec<Asteroid>,
    bullets: &Vec<Bullet>,
    score: &mut Score,
)
    requires
        asteroids_bounded(old(asteroids)@),
        bullets_bounded(bullets@),
        old(score).score + old(asteroids)@.len() * bullets@.len() <= u32::MAX,
    ensures
        final(asteroids)@ == shot_survivors(old(asteroids)@, bullets@),
        final(score).score == old(score).score + total_pair_hits(old(asteroids)@, bullets@),
{
    let ghost orig: Seq<Asteroid> = asteroids@;
    let mut kept: Vec<Asteroid> = Vec::new();
    let mut i: usize = 0;
    let n: usize = asteroids.len();
    let m: usize = bullets.len();
    while i < n
        invariant
            n == orig.len(),
            m == bullets@.len(),
            asteroids@ == orig,
            asteroids_bounded(orig),
            bullets_bounded(bullets@),
            i <= n,
            kept@ == shot_survivors_upto(orig, bullets@, i as int),
            score.score == old(score).score + pair_hits_upto(orig, bullets@, i as int),
            score.score + (n - i) * bullets@.len() <= u32::MAX,
        decreases n - i,
    {
        let a: Asteroid = asteroids[i];
        let mut hits: usize = 0;
        let mut shot: bool = false;
        let mut j: usize = 0;
        while j < m
            invariant
                m == bullets@.len(),
                bullets_bounded(bullets@),
                a.object.position.bounded(),
                0 < a.size.size <= RADIUS_LIMIT,
                j <= m,
                hits <= j,
                hits == bullet_hits_upto(a, bullets@, j as int),
                shot == exists|t: int| 0 <= t < j && bullet_hits_asteroid(bullets@[t], a),
            decreases m - j,
        {
            let b: Bullet = bullets[j];
            if check_collision(b.object.position, a.object.position, a.size.size) {
                hits = hits + 1;
                shot = true;
            }
            j = j + 1;
        }
        proof {
            let b: int = bullets@.len() as int;
            assert(shot == asteroid_shot(a, bullets@));
            assert((n - i) * b == (n - (i + 1)) * b + b) by (nonlinear_arith)
                requires 0 <= i < n,
            ;
            assert((n - (i + 1)) * b >= 0) by (nonlinear_arith)
                requires 0 <= i < n && b >= 0,
            ;
            assert(hits <= b);
            assert(score.score + hits + (n - (i + 1)) * b <= u32::MAX);
            assert(pair_hits_upto(orig, bullets@, i as int + 1) == pair_hits_upto(
                orig,
                bullets@,
                i as int,
            ) + bullet_hits_upto(orig[i as int], bullets@, b));
        }
        if !shot {
            kept.push(a);
        }
        score.score = score.score + hits as u32;
        i = i + 1;
    }
    *asteroids = kept;
}

/// The asteroid's center is closer to the player than the asteroid's radius.
pub open spec fn asteroid_hits_player(a: Asteroid, player: Vec2) -> bool {
    collides(player, a.object.position, a.size.size as int)
}

/// How many of the first `k` asteroids overlap the player.
pub open spec fn player_hits_upto(asteroids: Seq<Asteroid>, player: Vec2, k: int) -> int
    decreases k,
{
    if k <= 0 {
        0
    } else {
        player_hits_upto(asteroids, player, k - 1) + if asteroid_hits_player(
            asteroids[k - 1],
            player,
        ) {
            1int
        } else {
            0int
        }
    }
}

/// How many asteroids overlap the player: each costs one health point.
pub open spec fn player_hits(asteroids: Seq<Asteroid>, player: Vec2) -> int {
    player_hits_upto(asteroids, player, asteroids.len() as int)
}

/// The asteroids among the first `k` that do not overlap the player.
pub open spec fn crash_survivors_upto(
    asteroids: Seq<Asteroid>,
    player: Vec2,
    k: int,
) -> Seq<Asteroid>
    decreases k,
{
    if k <= 0 {
        Seq::empty()
    } else {
        crash_survivors_upto(asteroids, player, k - 1) + if asteroid_hits_player(
            asteroids[k - 1],
            player,
        ) {
            Seq::empty()
        } else {
            seq![asteroids[k - 1]]
        }
    }
}

/// The asteroids that survive the player-contact pass.
pub open spec fn crash_survivors(asteroids: Seq<Asteroid>, player: Vec2) -> Seq<Asteroid> {
    crash_survivors_upto(asteroids, player, asteroids.len() as int)
}

/// Counting hits over a longer prefix never counts fewer.
proof fn lemma_player_hits_monotone(asteroids: Seq<Asteroid>, player: Vec2, k1: int, k2: int)
    requires
        0 <= k1 <= k2,
    ensures
        player_hits_upto(asteroids, player, k1) <= player_hits_upto(asteroids, player, k2),
    decreases k2 - k1,
{
    if k1 < k2 {
        lemma_player_hits_monotone(asteroids, player, k1, k2 - 1);
    }
}

/// Asteroid-versus-player pass. Every asteroid overlapping the player is
/// despawned and costs one health point; health reaching zero flips the game
/// into `GameOver` (exactly when the hits of this pass use up the remaining
/// health). A state already in `GameOver` is simply written again: the
/// transition is idempotent. Inputs whose hits exceed the remaining health
/// are ruled out, so health never wraps below zero.
pub fn player_health(
    asteroids: &mut Vec<Asteroid>,
    player_position: Vec2,
    stats: &mut PlayerStats,
    state: &mut GameState,
)
    requires
        asteroids_bounded(old(asteroids)@),
        player_position.bounded(),
        old(stats).health >= player_hits(old(asteroids)@, player_position),
    ensures
        final(asteroids)@ == crash_survivors(old(asteroids)@, player_position),
        final(stats).health == old(stats).health - player_hits(old(asteroids)@, player_position),
        final(stats).fuel == old(stats).fuel,
        *final(state) == if player_hits(old(asteroids)@, player_position) > 0 && old(stats).health
            == player_hits(old(asteroids)@, player_position) {
            GameState::GameOver
        } else {
            *old(state)
        },
{
    let ghost orig: Seq<Asteroid> = asteroids@;
    let mut kept: Vec<Asteroid> = Vec::new();
    let mut i: usize = 0;
    let n: usize = asteroids.len();
    while i < n
        invariant
            n == orig.len(),
            asteroids@ == orig,
            asteroids_bounded(orig),
            player_position.bounded(),
            i <= n,
            kept@ == crash_survivors_upto(orig, player_position, i as int),
            stats.health == old(stats).health - player_hits_upto(orig, player_position, i as int),
            stats.fuel == old(stats).fuel,
            old(stats).health >= player_hits(orig, player_position),
            *state == if player_hits_upto(orig, player_position, i as int) > 0 && old(stats).health
                == player_hits_upto(orig, player_position, i as int) {
                GameState::GameOver
            } else {
                *old(state)
            },
        decreases n - i,
    {
        let a: Asteroid = asteroids[i];
        if check_collision(player_position, a.object.position, a.size.size) {
            proof {
                lemma_player_hits_monotone(orig, player_position, 0, i as int);
                lemma_player_hits_monotone(orig, player_position, i as int + 1, orig.len() as int);
                assert(player_hits_upto(orig, player_position, i as int + 1) == player_hits_upto(
                    orig,
                    player_position,
                    i as int,
                ) + 1);
            }
            stats.health = stats.health - 1;
            if stats.health < 1 {
                *state = GameState::GameOver;
            }
        } else {
            kept.push(a);
        }
        i = i + 1;
    }
    *asteroids = kept;
}

/// The fuel cycle of one frame. The tank first drains by the elapsed
/// milliseconds; a tank below zero flips the game into `GameOver` (written
/// idempotently, as in the health pass). Then, if the player is closer to
/// the depot than the depot's radius, the depot despawns, the tank is reset
/// to exactly `FUEL_REFILL`, and a replacement depot spawns at a random spot
/// of the map — the drain-then-check order means a refueling contact on the
/// very frame the tank ran dry still leaves the game over.
pub fn fuel_cycle(
    player_position: Vec2,
    depot: &mut Depot,
    stats: &mut PlayerStats,
    state: &mut GameState,
    delta_millis: i64,
)
    requires
        delta_millis >= 0,
        old(stats).fuel - delta_millis >= i64::MIN,
        player_position.bounded(),
        old(depot).position.bounded(),
        0 < old(depot).size.size <= RADIUS_LIMIT,
    ensures
        *final(state) == if old(stats).fuel - delta_millis < 0 {
            GameState::GameOver
        } else {
            *old(state)
        },
        collides(old(depot).position, player_position, old(depot).size.size as int) ==> {
            &&& final(stats).fuel == FUEL_REFILL
            &&& final(depot).wf()
            &&& -HALF_MAP <= final(depot).position.x < HALF_MAP
            &&& -HALF_MAP <= final(depot).position.y < HALF_MAP
        },
        !collides(old(depot).position, player_position, old(depot).size.size as int) ==> {
            &&& final(stats).fuel == old(stats).fuel - delta_millis
            &&& *final(depot) == *old(depot)
        },
        final(stats).health == old(stats).health,
{
    stats.fuel = stats.fuel - delta_millis;
    if stats.fuel < 0 {
        *state = GameState::GameOver;
    }
    if check_collision(depot.position, player_position, depot.size.size) {
        stats.fuel = FUEL_REFILL;
        *depot = make_depot();
    }
}

} // verus!
