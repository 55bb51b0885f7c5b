//! Actor-against-obstacle collision handling: an actor overlapping an
//! obstacle's footprint (plus a small buffer) is pushed straight away
//! from it, far enough this tick to separate over a few frames.

use vstd::prelude::*;
use crate::enemy::ENEMY_RADIUS;
use crate::geom::{
    clamp_coord, dist2, div_trunc, div_trunc_i64, isqrt, spec_clamp_coord, spec_isqrt, Pos,
};
use crate::player::PLAYER_RADIUS;
use crate::world::{EnemySlot, ObstacleSlot, PlayerChar, World};

verus! {

/// Extra separation kept between an actor and an obstacle, in world
/// units, so actors do not sit flush against footprints.
pub const COLLISION_BUFFER: u32 = 100;

/// Push factor: how much of the remaining overlap an actor recovers
/// per second.
pub const PUSH_RATE: u32 = 15;

/// The position an actor holds after one obstacle has pushed it: if
/// the obstacle is gone, or the actor is outside the obstacle's radius
/// plus the buffer, nothing moves; otherwise the actor moves straight
/// away from the obstacle by the overlap times the push rate, scaled
/// by the elapsed time.  An actor exactly on the obstacle's center has
/// no direction to leave by and stays put.
pub open spec fn spec_pushed_from_obstacle(
    pos: Pos,
    o: ObstacleSlot,
    actor_radius: u32,
    dt_ms: u32,
) -> Pos {
    if !o.alive {
        pos
    } else {
        let min_dist = actor_radius + o.obstacle.half_width + COLLISION_BUFFER;
        let d2 = dist2(pos, o.pos);
        if d2 >= min_dist * min_dist {
            pos
        } else {
            let dist = spec_isqrt(d2);
            if dist == 0 {
                pos
            } else {
                let push = (min_dist - dist) * PUSH_RATE * dt_ms / 1000;
                Pos {
                    x: spec_clamp_coord(pos.x + div_trunc((pos.x - o.pos.x) * push, dist)) as i64,
                    y: spec_clamp_coord(pos.y + div_trunc((pos.y - o.pos.y) * push, dist)) as i64,
                }
            }
        }
    }
}

/// Resolve one actor position against one obstacle.
fn push_from_obstacle(pos: Pos, o: ObstacleSlot, actor_radius: u32, dt_ms: u32) -> (r: Pos)
    requires
        pos.wf(),
        o.wf(),
        actor_radius <= 1_000,
        dt_ms <= 60_000,
    ensures
        r == spec_pushed_from_obstacle(pos, o, actor_radius, dt_ms),
        r.wf(),
{
    if !o.alive {
        return pos;
    }
    let min_dist: u32 = actor_radius + o.obstacle.half_width + COLLISION_BUFFER;
    let dx: i64 = pos.x - o.pos.x;
    let dy: i64 = pos.y - o.pos.y;
    proof {
        assert(dx * dx <= 2_000_000_000i64 * 2_000_000_000i64 && dx * dx >= 0)
            by (nonlinear_arith)
            requires
                -2_000_000_000 <= dx <= 2_000_000_000;
        assert(dy * dy <= 2_000_000_000i64 * 2_000_000_000i64 && dy * dy >= 0)
            by (nonlinear_arith)
            requires
                -2_000_000_000 <= dy <= 2_000_000_000;
    }
    let d2: i64 = dx * dx + dy * dy;
    let m: i64 = min_dist as i64;
    proof {
        assert(m * m <= 2_000i64 * 2_000i64 && m * m >= 0) by (nonlinear_arith)
            requires
                0 <= m <= 2_000;
    }
    if d2 >= m * m {
        return pos;
    }
    let dist = isqrt(d2);
    if dist == 0 {
        return pos;
    }
    proof {
        assert(dist < m) by (nonlinear_arith)
            requires
                0 <= dist,
                dist * dist <= d2,
                d2 < m * m,
                0 <= m;
    }
    let pen: i64 = m - dist;
    proof {
        assert(0 <= pen * (PUSH_RATE as i64) * (dt_ms as i64) <= 1_800_000_000i64)
            by (nonlinear_arith)
            requires
                0 < pen <= 2_000,
                0 <= dt_ms <= 60_000,
                PUSH_RATE == 15;
    }
    let push: i64 = pen * PUSH_RATE as i64 * (dt_ms as i64) / 1000;
    proof {
        assert({
            &&& -4_000_000_000_000_000i64 <= dx * push <= 4_000_000_000_000_000i64
            &&& -4_000_000_000_000_000i64 <= dy * push <= 4_000_000_000_000_000i64
        })
            by (nonlinear_arith)
            requires
                -2_000_000_000 <= dx <= 2_000_000_000,
                -2_000_000_000 <= dy <= 2_000_000_000,
                0 <= push <= 2_000_000;
    }
    let nx = clamp_coord(pos.x + div_trunc_i64(dx * push, dist));
    let ny = clamp_coord(pos.y + div_trunc_i64(dy * push, dist));
    Pos { x: nx, y: ny }
}

/// The player's position after the first `i` obstacles have pushed it,
/// in slot order.
pub open spec fn spec_player_push_pass(pos: Pos, os: Seq<ObstacleSlot>, dt_ms: u32, i: int) -> Pos
    decreases i,
{
    if i <= 0 {
        pos
    } else {
        spec_pushed_from_obstacle(
            spec_player_push_pass(pos, os, dt_ms, i - 1),
            os[i - 1],
            PLAYER_RADIUS,
            dt_ms,
        )
    }
}

/// Keep the player out of obstacle footprints: every live obstacle the
/// player overlaps pushes it straight away, in slot order.  Only the
/// player's position changes.
pub fn handle_player_obstacle_collision(world: &mut World, dt_ms: u32)
    requires
        old(world).wf(),
        dt_ms <= 60_000,
    ensures
        final(world).wf(),
        (old(world).player is None) ==> *final(world) == *old(world),
        (old(world).player is Some) ==> final(world).player == Some(
            PlayerChar {
                pos: spec_player_push_pass(
                    old(world).player->0.pos,
                    old(world).obstacles@,
                    dt_ms,
                    old(world).obstacles@.len() as int,
                ),
                ..old(world).player->0
            },
        ),
        final(world).enemies == old(world).enemies,
        final(world).obstacles == old(world).obstacles,
        final(world).projectiles == old(world).projectiles,
        final(world).pickups == old(world).pickups,
        final(world).pending_drops == old(world).pending_drops,
{
    let pc = match world.player {
        Some(pc) => pc,
        None => {
            return ;
        },
    };
    let n = world.obstacles.len();
    let mut pos = pc.pos;
    let mut i: usize = 0;
    while i < n
        invariant
            i <= n,
            n == world.obstacles@.len(),
            world.wf(),
            dt_ms <= 60_000,
            pos == spec_player_push_pass(pc.pos, world.obstacles@, dt_ms, i as int),
            pos.wf(),
        decreases n - i,
    {
        pos = push_from_obstacle(pos, world.obstacles[i], PLAYER_RADIUS, dt_ms);
        i = i + 1;
    }
    world.player = Some(PlayerChar { pos, ..pc });
}

/// One enemy slot after the whole obstacle pass: a destroyed slot is
/// untouched; a live enemy's position is pushed by every obstacle in
/// slot order.
pub open spec fn spec_enemy_pushed_slot(s: EnemySlot, os: Seq<ObstacleSlot>, dt_ms: u32) -> EnemySlot {
    if !s.alive {
        s
    } else {
        EnemySlot { pos: spec_enemy_push_pass(s.pos, os, dt_ms, os.len() as int), ..s }
    }
}

/// An enemy's position after the first `i` obstacles have pushed it.
pub open spec fn spec_enemy_push_pass(pos: Pos, os: Seq<ObstacleSlot>, dt_ms: u32, i: int) -> Pos
    decreases i,
{
    if i <= 0 {
        pos
    } else {
        spec_pushed_from_obstacle(
            spec_enemy_push_pass(pos, os, dt_ms, i - 1),
            os[i - 1],
            ENEMY_RADIUS,
            dt_ms,
        )
    }
}

/// Keep enemies out of obstacle footprints: every live obstacle a live
/// enemy overlaps pushes it straight away, in slot order.  Destroyed
/// enemy slots are skipped; only enemy positions change.
pub fn handle_enemy_obstacle_collision(world: &mut World, dt_ms: u32)
    requires
        old(world).wf(),
        dt_ms <= 60_000,
    ensures
        final(world).wf(),
        final(world).enemies@.len() == old(world).enemies@.len(),
        forall|k: int|
            0 <= k < old(world).enemies@.len() ==> final(world).enemies@[k]
                == spec_enemy_pushed_slot(old(world).enemies@[k], old(world).obstacles@, dt_ms),
        final(world).player == old(world).player,
        final(world).obstacles == old(world).obstacles,
        final(world).projectiles == old(world).projectiles,
        final(world).pickups == old(world).pickups,
        final(world).pending_drops == old(world).pending_drops,
{
    let ne = world.enemies.len();
    let no = world.obstacles.len();
    let mut k: usize = 0;
    while k < ne
        invariant
            k <= ne,
            ne == world.enemies@.len(),
            ne == old(world).enemies@.len(),
            no == world.obstacles@.len(),
            old(world).wf(),
            world.wf(),
            dt_ms <= 60_000,
            forall|j: int|
                0 <= j < k ==> world.enemies@[j] == spec_enemy_pushed_slot(
                    old(world).enemies@[j],
                    old(world).obstacles@,
                    dt_ms,
                ),
            forall|j: int| k <= j < ne ==> world.enemies@[j] == old(world).enemies@[j],
            world.player == old(world).player,
            world.obstacles == old(world).obstacles,
            world.projectiles == old(world).projectiles,
            world.pickups == old(world).pickups,
            world.pending_drops == old(world).pending_drops,
        decreases ne - k,
    {
        let slot = world.enemies[k];
        if slot.alive {
            let mut pos = slot.pos;
            let mut i: usize = 0;
            while i < no
                invariant
                    i <= no,
                    no == world.obstacles@.len(),
                    world.wf(),
                    dt_ms <= 60_000,
                    pos == spec_enemy_push_pass(slot.pos, world.obstacles@, dt_ms, i as int),
                    pos.wf(),
                decreases no - i,
            {
                pos = push_from_obstacle(pos, world.obstacles[i], ENEMY_RADIUS, dt_ms);
                i = i + 1;
            }
            world.enemies.set(k, EnemySlot { pos, ..slot });
        }
        k = k + 1;
    }
}

} // verus!
