//! The combat resolver: the cadence gate and firing action with its
//! multi-shot fan-out, projectile flight, and the per-tick collision
//! passes that apply damage and destroy targets.

use vstd::prelude::*;
use crate::geom::{Dir, Pos, spec_rotated, rotate_dir, dist2};
use crate::progression::Multishot;
use crate::weapon::{Projectile, Weapon, WeaponType, PROJECTILE_LIFETIME_MS, spec_can_attack, spec_fresh_weapon};
use crate::pickup::{Pickup, PickupType, PICKUP_RADIUS, HEALTH_PACK_HEAL, STAMINA_BOOST_HEAL, ARMOR_BOOST_HEAL};
use crate::player::{Player, PLAYER_MAX_HEALTH, PLAYER_RADIUS};
use crate::progression::{spec_apply, UpgradeKind};
use crate::world::{PlayerChar, PickupSlot, ProjectileSlot, World, EnemySlot, ObstacleSlot, spec_enemy_damaged_slot, spec_enemy_killed, spec_obstacle_damaged_slot};
use crate::enemy::ENEMY_RADIUS;
use crate::rng::roll_below;

verus! {

/// Milli-cosine of the double-shot offset angle (a tenth of a radian).
pub const COS_OFFSET_SMALL: i64 = 995;

/// Milli-sine of the double-shot offset angle.
pub const SIN_OFFSET_SMALL: i64 = 100;

/// Milli-cosine of the triple-shot offset angle (a fifth of a radian).
pub const COS_OFFSET_WIDE: i64 = 980;

/// Milli-sine of the triple-shot offset angle.
pub const SIN_OFFSET_WIDE: i64 = 199;

/// Milli-cosine of the nearest shotgun pellet offset.
pub const COS_PELLET_NEAR: i64 = 989;

/// Milli-sine of the nearest shotgun pellet offset.
pub const SIN_PELLET_NEAR: i64 = 149;

/// Milli-cosine of the middle shotgun pellet offset.
pub const COS_PELLET_MID: i64 = 955;

/// Milli-sine of the middle shotgun pellet offset.
pub const SIN_PELLET_MID: i64 = 296;

/// Milli-cosine of the widest shotgun pellet offset.
pub const COS_PELLET_FAR: i64 = 900;

/// Milli-sine of the widest shotgun pellet offset.
pub const SIN_PELLET_FAR: i64 = 435;

/// The damage one action deals per projectile: base times the damage
/// multiplier, doubled on a critical hit.  Computed once per action.
pub open spec fn spec_resolved_damage(base: u32, damage_pct: u32, crit: bool) -> int {
    if crit {
        (base * damage_pct / 100) * 2
    } else {
        base * damage_pct / 100
    }
}

/// Resolve the damage of one action.  The critical roll is a uniform
/// draw below 100 handed in by the caller; the hit is critical exactly
/// when the roll falls below the critical-hit chance.
pub fn resolve_damage(base: u32, damage_pct: u32, crit_pct: u32, crit_roll: u32) -> (d: u32)
    requires
        base <= 1_000_000,
        damage_pct <= 300,
    ensures
        d == spec_resolved_damage(base, damage_pct, crit_roll < crit_pct),
{
    proof {
        assert(base * damage_pct <= 300_000_000) by (nonlinear_arith)
            requires
                base <= 1_000_000,
                damage_pct <= 300;
    }
    let effective: u32 = base * damage_pct / 100;
    if crit_roll < crit_pct {
        effective * 2
    } else {
        effective
    }
}

/// The aim directions of one action's main projectiles, by multi-shot
/// mode: one along the aim, two straddling it at a small offset, or
/// those two plus the centerline.
pub open spec fn spec_shot_dirs(aim: Dir, mode: Multishot) -> Seq<Dir> {
    match mode {
        Multishot::Single => seq![aim],
        Multishot::Double => seq![
            spec_rotated(aim, COS_OFFSET_SMALL, (-SIN_OFFSET_SMALL) as i64),
            spec_rotated(aim, COS_OFFSET_SMALL, SIN_OFFSET_SMALL),
        ],
        Multishot::Triple => seq![
            spec_rotated(aim, COS_OFFSET_WIDE, (-SIN_OFFSET_WIDE) as i64),
            aim,
            spec_rotated(aim, COS_OFFSET_WIDE, SIN_OFFSET_WIDE),
        ],
    }
}

/// The aim directions of the six extra pellets a shotgun-type weapon
/// always fans out, independent of the multi-shot mode.
pub open spec fn spec_pellet_dirs(aim: Dir) -> Seq<Dir> {
    seq![
        spec_rotated(aim, COS_PELLET_NEAR, SIN_PELLET_NEAR),
        spec_rotated(aim, COS_PELLET_NEAR, (-SIN_PELLET_NEAR) as i64),
        spec_rotated(aim, COS_PELLET_MID, SIN_PELLET_MID),
        spec_rotated(aim, COS_PELLET_MID, (-SIN_PELLET_MID) as i64),
        spec_rotated(aim, COS_PELLET_FAR, SIN_PELLET_FAR),
        spec_rotated(aim, COS_PELLET_FAR, (-SIN_PELLET_FAR) as i64),
    ]
}

/// The projectile slot one effect occupies at creation: fired from the
/// player's position along `dir`, carrying the resolved damage.
pub open spec fn spec_proj_slot(pc: PlayerChar, dir: Dir, damage: u32) -> ProjectileSlot {
    ProjectileSlot {
        projectile: Projectile {
            weapon_type: pc.weapon.weapon_type,
            damage,
            speed: pc.weapon.projectile_speed,
            lifetime_ms: PROJECTILE_LIFETIME_MS,
            pos: pc.pos,
            dir,
        },
        alive: true,
    }
}

/// Every projectile slot one accepted action appends, in order: the
/// main projectiles of the multi-shot mode, then, for a shotgun, the
/// six pellets at seven tenths of the resolved damage.
pub open spec fn spec_shot_slots(pc: PlayerChar, aim: Dir, crit: bool) -> Seq<ProjectileSlot> {
    let damage = spec_resolved_damage(pc.weapon.damage, pc.upgrades.damage_pct, crit) as u32;
    let dirs = spec_shot_dirs(aim, pc.upgrades.multishot);
    let main = Seq::new(dirs.len(), |i: int| spec_proj_slot(pc, dirs[i], damage));
    if pc.weapon.weapon_type == WeaponType::Shotgun {
        let pdirs = spec_pellet_dirs(aim);
        let pellet_damage = (damage * 7 / 10) as u32;
        main + Seq::new(pdirs.len(), |i: int| spec_proj_slot(pc, pdirs[i], pellet_damage))
    } else {
        main
    }
}

/// The player's weapon after an accepted action: the last-action time
/// is set to now unconditionally, so a burst cannot catch up missed
/// ticks.
pub open spec fn spec_weapon_after_shot(w: Weapon, now_ms: u64) -> Weapon {
    Weapon { last_attack_ms: now_ms, ..w }
}

/// The firing action.  If no player is present, or the player is not
/// firing, or the cadence gate rejects the action, the world is
/// untouched.  An accepted action stamps the weapon's last-action time
/// with `now_ms` and appends exactly the fan-out's projectiles, all
/// carrying one damage value resolved by a single critical roll.
pub fn player_shooting(world: &mut World, now_ms: u64, firing: bool, aim: Dir)
    requires
        old(world).wf(),
        aim.rotatable(),
    ensures
        final(world).wf(),
        final(world).enemies == old(world).enemies,
        final(world).obstacles == old(world).obstacles,
        final(world).pickups == old(world).pickups,
        final(world).pending_drops == old(world).pending_drops,
        (old(world).player is None) ==> *final(world) == *old(world),
        (old(world).player is Some) && !(firing && spec_can_attack(
            old(world).player->0.weapon,
            now_ms,
            old(world).player->0.upgrades.attack_speed_pct,
        )) ==> *final(world) == *old(world),
        (old(world).player is Some) && firing && spec_can_attack(
            old(world).player->0.weapon,
            now_ms,
            old(world).player->0.upgrades.attack_speed_pct,
        ) ==> exists|crit: bool|
            {
                &&& final(world).player == Some(
                    PlayerChar {
                        weapon: spec_weapon_after_shot(old(world).player->0.weapon, now_ms),
                        ..old(world).player->0
                    },
                )
                &&& final(world).projectiles@ == old(world).projectiles@
                    + #[trigger] spec_shot_slots(old(world).player->0, aim, crit)
            },
{
    let pc = match world.player {
        Some(pc) => pc,
        None => {
            return ;
        },
    };
    proof {
        assert(1 <= pc.weapon.cadence_cs <= 10_000);
        assert(pc.weapon.projectile_speed <= crate::weapon::SPEED_LIMIT);
    }
    if !firing {
        return ;
    }
    if !pc.weapon.can_attack(now_ms, pc.upgrades.attack_speed_pct) {
        return ;
    }
    let roll = roll_below(100);
    let ghost crit = roll < pc.upgrades.critical_hit_pct;
    let damage = resolve_damage(
        pc.weapon.damage,
        pc.upgrades.damage_pct,
        pc.upgrades.critical_hit_pct,
        roll,
    );
    let new_weapon = Weapon { last_attack_ms: now_ms, ..pc.weapon };
    world.player = Some(PlayerChar { weapon: new_weapon, ..pc });
    match pc.upgrades.multishot {
        Multishot::Single => {
            world.projectiles.push(make_slot(pc, aim, damage));
        },
        Multishot::Double => {
            let left = rotate_dir(aim, COS_OFFSET_SMALL, -SIN_OFFSET_SMALL);
            let right = rotate_dir(aim, COS_OFFSET_SMALL, SIN_OFFSET_SMALL);
            world.projectiles.push(make_slot(pc, left, damage));
            world.projectiles.push(make_slot(pc, right, damage));
        },
        Multishot::Triple => {
            let left = rotate_dir(aim, COS_OFFSET_WIDE, -SIN_OFFSET_WIDE);
            let right = rotate_dir(aim, COS_OFFSET_WIDE, SIN_OFFSET_WIDE);
            world.projectiles.push(make_slot(pc, left, damage));
            world.projectiles.push(make_slot(pc, aim, damage));
            world.projectiles.push(make_slot(pc, right, damage));
        },
    }
    if matches!(pc.weapon.weapon_type, WeaponType::Shotgun) {
        let pellet_damage = damage * 7 / 10;
        let near_a = rotate_dir(aim, COS_PELLET_NEAR, SIN_PELLET_NEAR);
        let near_b = rotate_dir(aim, COS_PELLET_NEAR, -SIN_PELLET_NEAR);
        let mid_a = rotate_dir(aim, COS_PELLET_MID, SIN_PELLET_MID);
        let mid_b = rotate_dir(aim, COS_PELLET_MID, -SIN_PELLET_MID);
        let far_a = rotate_dir(aim, COS_PELLET_FAR, SIN_PELLET_FAR);
        let far_b = rotate_dir(aim, COS_PELLET_FAR, -SIN_PELLET_FAR);
        world.projectiles.push(make_slot(pc, near_a, pellet_damage));
        world.projectiles.push(make_slot(pc, near_b, pellet_damage));
        world.projectiles.push(make_slot(pc, mid_a, pellet_damage));
        world.projectiles.push(make_slot(pc, mid_b, pellet_damage));
        world.projectiles.push(make_slot(pc, far_a, pellet_damage));
        world.projectiles.push(make_slot(pc, far_b, pellet_damage));
    }
    proof {
        assert(final(world).projectiles@ =~= old(world).projectiles@
            + spec_shot_slots(pc, aim, crit));
        assert({
            let pcg = old(world).player->0;
            &&& final(world).player == Some(
                PlayerChar { weapon: spec_weapon_after_shot(pcg.weapon, now_ms), ..pcg },
            )
            &&& final(world).projectiles@ == old(world).projectiles@
                + spec_shot_slots(pcg, aim, crit)
        });
    }
}

/// The slot a projectile occupies after one tick of flight: a dead slot
/// is untouched; a projectile whose lifetime runs out this tick is
/// despawned; otherwise the lifetime drops and the position advances
/// along the direction at the projectile's speed, clamped into the
/// world's bounds.
pub open spec fn spec_moved_projectile_slot(s: ProjectileSlot, dt_ms: u32) -> ProjectileSlot {
    if !s.alive {
        s
    } else if s.projectile.lifetime_ms <= dt_ms {
        ProjectileSlot {
            projectile: Projectile { lifetime_ms: 0, ..s.projectile },
            alive: false,
        }
    } else {
        let p = s.projectile;
        ProjectileSlot {
            projectile: Projectile {
                lifetime_ms: (p.lifetime_ms - dt_ms) as u32,
                pos: crate::geom::spec_advanced_pos(p.pos, p.dir, p.speed, dt_ms),
                ..p
            },
            alive: true,
        }
    }
}

/// One tick of projectile flight: every live projectile's lifetime
/// counts down, a projectile reaching zero despawns before any
/// collision is looked at, and the rest advance along their directions.
/// Nothing else in the world moves.
pub fn projectile_movement(world: &mut World, dt_ms: u32)
    requires
        old(world).wf(),
        dt_ms <= 60_000,
    ensures
        final(world).wf(),
        final(world).projectiles@.len() == old(world).projectiles@.len(),
        forall|j: int|
            0 <= j < old(world).projectiles@.len() ==> final(world).projectiles@[j]
                == spec_moved_projectile_slot(old(world).projectiles@[j], dt_ms),
        final(world).player == old(world).player,
        final(world).enemies == old(world).enemies,
        final(world).obstacles == old(world).obstacles,
        final(world).pickups == old(world).pickups,
        final(world).pending_drops == old(world).pending_drops,
{
    let n = world.projectiles.len();
    let mut j: usize = 0;
    while j < n
        invariant
            j <= n,
            n == world.projectiles@.len(),
            n == old(world).projectiles@.len(),
            dt_ms <= 60_000,
            old(world).wf(),
            forall|k: int|
                0 <= k < j ==> world.projectiles@[k] == spec_moved_projectile_slot(
                    old(world).projectiles@[k],
                    dt_ms,
                ),
            forall|k: int| j <= k < n ==> world.projectiles@[k] == old(world).projectiles@[k],
            world.player == old(world).player,
            world.enemies == old(world).enemies,
            world.obstacles == old(world).obstacles,
            world.pickups == old(world).pickups,
            world.pending_drops == old(world).pending_drops,
        decreases n - j,
    {
        let s = world.projectiles[j];
        if s.alive {
            if s.projectile.lifetime_ms <= dt_ms {
                world.projectiles.set(
                    j,
                    ProjectileSlot {
                        projectile: Projectile { lifetime_ms: 0, ..s.projectile },
                        alive: false,
                    },
                );
            } else {
                let p = s.projectile;
                let moved = crate::geom::advance_pos(p.pos, p.dir, p.speed, dt_ms);
                world.projectiles.set(
                    j,
                    ProjectileSlot {
                        projectile: Projectile {
                            lifetime_ms: p.lifetime_ms - dt_ms,
                            pos: moved,
                            ..p
                        },
                        alive: true,
                    },
                );
            }
        }
        j = j + 1;
    }
}

/// The slot a pickup occupies after one tick: a dead slot is untouched;
/// a pickup whose lifetime runs out this tick despawns unclaimed;
/// otherwise the lifetime counts down.
pub open spec fn spec_aged_pickup_slot(s: PickupSlot, dt_ms: u32) -> PickupSlot {
    if !s.alive {
        s
    } else if s.pickup.lifetime_ms <= dt_ms {
        PickupSlot {
            pickup: Pickup { lifetime_ms: 0, ..s.pickup },
            alive: false,
        }
    } else {
        PickupSlot {
            pickup: Pickup { lifetime_ms: (s.pickup.lifetime_ms - dt_ms) as u32, ..s.pickup },
            alive: true,
        }
    }
}

/// One tick of pickup aging: every live pickup's lifetime counts down,
/// and one reaching zero despawns unclaimed, before any collection is
/// looked at.  Nothing else in the world changes.
pub fn update_pickups(world: &mut World, dt_ms: u32)
    requires
        old(world).wf(),
    ensures
        final(world).wf(),
        final(world).pickups@.len() == old(world).pickups@.len(),
        forall|i: int|
            0 <= i < old(world).pickups@.len() ==> final(world).pickups@[i]
                == spec_aged_pickup_slot(old(world).pickups@[i], dt_ms),
        final(world).player == old(world).player,
        final(world).enemies == old(world).enemies,
        final(world).obstacles == old(world).obstacles,
        final(world).projectiles == old(world).projectiles,
        final(world).pending_drops == old(world).pending_drops,
{
    let n = world.pickups.len();
    let mut i: usize = 0;
    while i < n
        invariant
            i <= n,
            n == world.pickups@.len(),
            n == old(world).pickups@.len(),
            old(world).wf(),
            forall|k: int|
                0 <= k < i ==> world.pickups@[k] == spec_aged_pickup_slot(
                    old(world).pickups@[k],
                    dt_ms,
                ),
            forall|k: int| i <= k < n ==> world.pickups@[k] == old(world).pickups@[k],
            world.player == old(world).player,
            world.enemies == old(world).enemies,
            world.obstacles == old(world).obstacles,
            world.projectiles == old(world).projectiles,
            world.pending_drops == old(world).pending_drops,
        decreases n - i,
    {
        let s = world.pickups[i];
        if s.alive {
            if s.pickup.lifetime_ms <= dt_ms {
                world.pickups.set(
                    i,
                    PickupSlot { pickup: Pickup { lifetime_ms: 0, ..s.pickup }, alive: false },
                );
            } else {
                world.pickups.set(
                    i,
                    PickupSlot {
                        pickup: Pickup { lifetime_ms: s.pickup.lifetime_ms - dt_ms, ..s.pickup },
                        alive: true,
                    },
                );
            }
        }
        i = i + 1;
    }
}

/// The cooldown law: an accepted action at `t1` stamps the weapon with
/// `t1`, so when the cadence gate accepts the next action at `t2`, the
/// interval between the two is at least the cooldown in effect at the
/// second action, the inverse of `base cadence x cadence multiplier`.
pub proof fn lemma_cooldown_interval(w: Weapon, t1: u64, t2: u64, cadence_mult_pct: u32)
    requires
        1 <= w.cadence_cs,
        1 <= cadence_mult_pct,
        spec_can_attack(spec_weapon_after_shot(w, t1), t2, cadence_mult_pct),
    ensures
        t2 >= t1,
        t2 - t1 >= crate::weapon::spec_cooldown_ms(w.cadence_cs, cadence_mult_pct),
{
    assert(crate::weapon::spec_cooldown_ms(w.cadence_cs, cadence_mult_pct) >= 0)
        by (nonlinear_arith)
        requires
            1 <= w.cadence_cs,
            1 <= cadence_mult_pct;
}

/// Whether a projectile hits an enemy: both still exist and the
/// distance between them is below the sum of their radii.
pub open spec fn spec_pe_hit(p: ProjectileSlot, e: EnemySlot) -> bool {
    let rs = p.projectile.weapon_type.spec_projectile_radius() + ENEMY_RADIUS;
    &&& p.alive
    &&& e.alive
    &&& dist2(p.projectile.pos, e.pos) < rs * rs
}

/// One step of the projectile-against-enemies resolution: if projectile
/// `j` hits enemy `i`, the enemy takes the projectile's damage (entering
/// the pending-drops queue exactly on the killing hit) and the
/// projectile is destroyed; otherwise nothing changes.  A projectile
/// destroyed by an earlier step no longer hits: the `alive` test makes
/// every later step of that projectile a no-op.
pub open spec fn spec_pe_step(
    es: Seq<EnemySlot>,
    ps: Seq<ProjectileSlot>,
    pend: Seq<Pos>,
    j: int,
    i: int,
) -> (Seq<EnemySlot>, Seq<ProjectileSlot>, Seq<Pos>) {
    let p = ps[j];
    let e = es[i];
    if spec_pe_hit(p, e) {
        (
            es.update(i, spec_enemy_damaged_slot(e, p.projectile.damage)),
            ps.update(j, ProjectileSlot { alive: false, ..p }),
            if spec_enemy_killed(e, p.projectile.damage) {
                pend.push(e.pos)
            } else {
                pend
            },
        )
    } else {
        (es, ps, pend)
    }
}

/// Projectile `j` resolved against the first `i` enemies, in slot order.
pub open spec fn spec_pe_inner(
    es: Seq<EnemySlot>,
    ps: Seq<ProjectileSlot>,
    pend: Seq<Pos>,
    j: int,
    i: int,
) -> (Seq<EnemySlot>, Seq<ProjectileSlot>, Seq<Pos>)
    decreases i,
{
    if i <= 0 {
        (es, ps, pend)
    } else {
        let t = spec_pe_inner(es, ps, pend, j, i - 1);
        spec_pe_step(t.0, t.1, t.2, j, i - 1)
    }
}

/// The first `j` projectiles resolved against every enemy, in slot
/// order: the whole pass is this with `j` the number of projectiles.
pub open spec fn spec_pe_pass(
    es: Seq<EnemySlot>,
    ps: Seq<ProjectileSlot>,
    pend: Seq<Pos>,
    j: int,
) -> (Seq<EnemySlot>, Seq<ProjectileSlot>, Seq<Pos>)
    decreases j,
{
    if j <= 0 {
        (es, ps, pend)
    } else {
        let t = spec_pe_pass(es, ps, pend, j - 1);
        spec_pe_inner(t.0, t.1, t.2, j - 1, t.0.len() as int)
    }
}

/// Health monotonicity of one projectile's resolution: resolving a
/// projectile against any prefix of the enemies never raises a health,
/// never revives a destroyed enemy, and leaves destroyed slots
/// untouched.
pub proof fn lemma_pe_inner_health_monotone(
    es: Seq<EnemySlot>,
    ps: Seq<ProjectileSlot>,
    pend: Seq<Pos>,
    j: int,
    i: int,
)
    requires
        0 <= i <= es.len(),
    ensures
        spec_pe_inner(es, ps, pend, j, i).0.len() == es.len(),
        forall|k: int|
            0 <= k < es.len() ==> {
                &&& (#[trigger] spec_pe_inner(es, ps, pend, j, i).0[k]).enemy.health
                    <= es[k].enemy.health
                &&& (spec_pe_inner(es, ps, pend, j, i).0[k].alive ==> es[k].alive)
                &&& (!es[k].alive ==> spec_pe_inner(es, ps, pend, j, i).0[k] == es[k])
            },
    decreases i,
{
    if i > 0 {
        lemma_pe_inner_health_monotone(es, ps, pend, j, i - 1);
        let t = spec_pe_inner(es, ps, pend, j, i - 1);
        let s = spec_pe_step(t.0, t.1, t.2, j, i - 1);
        assert(spec_pe_inner(es, ps, pend, j, i) == s);
        assert forall|k: int| 0 <= k < es.len() implies {
            &&& (#[trigger] s.0[k]).enemy.health <= es[k].enemy.health
            &&& (s.0[k].alive ==> es[k].alive)
            &&& (!es[k].alive ==> s.0[k] == es[k])
        } by {
            assert(t.0[k].enemy.health <= es[k].enemy.health);
            if k == i - 1 {
                assert(s.0[k] == spec_enemy_damaged_slot(t.0[k], t.1[j].projectile.damage)
                    || s.0[k] == t.0[k]);
            } else {
                assert(s.0[k] == t.0[k]);
            }
        }
    }
}

/// Health monotonicity of the whole projectile-against-enemy pass: for
/// every enemy, the pass never raises health, never revives a
/// destroyed enemy, and leaves destroyed slots untouched.
pub proof fn lemma_pe_pass_health_monotone(
    es: Seq<EnemySlot>,
    ps: Seq<ProjectileSlot>,
    pend: Seq<Pos>,
    j: int,
)
    ensures
        spec_pe_pass(es, ps, pend, j).0.len() == es.len(),
        forall|k: int|
            0 <= k < es.len() ==> {
                &&& (#[trigger] spec_pe_pass(es, ps, pend, j).0[k]).enemy.health
                    <= es[k].enemy.health
                &&& (spec_pe_pass(es, ps, pend, j).0[k].alive ==> es[k].alive)
                &&& (!es[k].alive ==> spec_pe_pass(es, ps, pend, j).0[k] == es[k])
            },
    decreases j,
{
    if j > 0 {
        let t = spec_pe_pass(es, ps, pend, j - 1);
        lemma_pe_pass_health_monotone(es, ps, pend, j - 1);
        lemma_pe_inner_health_monotone(t.0, t.1, t.2, j - 1, t.0.len() as int);
    }
}

/// The projectile-against-enemy collision pass.  Every live projectile
/// is resolved, in slot order, against every live enemy: a hit applies
/// the projectile's damage, destroys the projectile, and on a killing
/// hit records the enemy's position in the pending-drops queue exactly
/// once.  Slots destroyed earlier in the pass are skipped.  Enemy
/// healths never increase, destruction is never undone, and the old
/// queue stays as a prefix.
pub fn handle_projectile_enemy_collision(world: &mut World)
    requires
        old(world).wf(),
    ensures
        final(world).wf(),
        ({
            let t = spec_pe_pass(
                old(world).enemies@,
                old(world).projectiles@,
                old(world).pending_drops@,
                old(world).projectiles@.len() as int,
            );
            &&& final(world).enemies@ == t.0
            &&& final(world).projectiles@ == t.1
            &&& final(world).pending_drops@ == t.2
        }),
        final(world).player == old(world).player,
        final(world).obstacles == old(world).obstacles,
        final(world).pickups == old(world).pickups,
        final(world).enemies@.len() == old(world).enemies@.len(),
        final(world).projectiles@.len() == old(world).projectiles@.len(),
        forall|k: int|
            0 <= k < old(world).enemies@.len() ==> {
                &&& (#[trigger] final(world).enemies@[k]).enemy.health
                    <= old(world).enemies@[k].enemy.health
                &&& (final(world).enemies@[k].alive ==> old(world).enemies@[k].alive)
                &&& (!old(world).enemies@[k].alive ==> final(world).enemies@[k]
                    == old(world).enemies@[k])
            },
        final(world).pending_drops@.len() >= old(world).pending_drops@.len(),
        forall|k: int|
            0 <= k < old(world).pending_drops@.len()
                ==> #[trigger] final(world).pending_drops@[k] == old(world).pending_drops@[k],
{
    let ghost es0 = old(world).enemies@;
    let ghost ps0 = old(world).projectiles@;
    let ghost pd0 = old(world).pending_drops@;
    let np = world.projectiles.len();
    let ne = world.enemies.len();
    let mut j: usize = 0;
    while j < np
        invariant
            j <= np,
            np == ps0.len(),
            ne == es0.len(),
            old(world).wf(),
            world.wf(),
            ({
                let t = spec_pe_pass(es0, ps0, pd0, j as int);
                &&& world.enemies@ == t.0
                &&& world.projectiles@ == t.1
                &&& world.pending_drops@ == t.2
            }),
            world.enemies@.len() == ne,
            world.projectiles@.len() == np,
            world.player == old(world).player,
            world.obstacles == old(world).obstacles,
            world.pickups == old(world).pickups,
            forall|k: int|
                0 <= k < ne ==> {
                    &&& (#[trigger] world.enemies@[k]).enemy.health <= es0[k].enemy.health
                    &&& (world.enemies@[k].alive ==> es0[k].alive)
                    &&& (!es0[k].alive ==> world.enemies@[k] == es0[k])
                },
            world.pending_drops@.len() >= pd0.len(),
            forall|k: int|
                0 <= k < pd0.len() ==> #[trigger] world.pending_drops@[k] == pd0[k],
        decreases np - j,
    {
        let ghost tj = spec_pe_pass(es0, ps0, pd0, j as int);
        let mut i: usize = 0;
        while i < ne
            invariant
                i <= ne,
                j < np,
                np == ps0.len(),
                ne == es0.len(),
                old(world).wf(),
                world.wf(),
                tj == spec_pe_pass(es0, ps0, pd0, j as int),
                ({
                    let t = spec_pe_inner(tj.0, tj.1, tj.2, j as int, i as int);
                    &&& world.enemies@ == t.0
                    &&& world.projectiles@ == t.1
                    &&& world.pending_drops@ == t.2
                }),
                world.enemies@.len() == ne,
                world.projectiles@.len() == np,
                world.player == old(world).player,
                world.obstacles == old(world).obstacles,
                world.pickups == old(world).pickups,
                forall|k: int|
                    0 <= k < ne ==> {
                        &&& (#[trigger] world.enemies@[k]).enemy.health <= es0[k].enemy.health
                        &&& (world.enemies@[k].alive ==> es0[k].alive)
                        &&& (!es0[k].alive ==> world.enemies@[k] == es0[k])
                    },
                world.pending_drops@.len() >= pd0.len(),
                forall|k: int|
                    0 <= k < pd0.len() ==> #[trigger] world.pending_drops@[k] == pd0[k],
            decreases ne - i,
        {
            let p = world.projectiles[j];
            let e = world.enemies[i];
            if p.alive && e.alive {
                let rs = p.projectile.weapon_type.projectile_radius() + ENEMY_RADIUS;
                if crate::geom::circles_overlap(p.projectile.pos, e.pos, rs) {
                    let _ = world.damage_enemy(i, p.projectile.damage);
                    world.projectiles.set(j, ProjectileSlot { alive: false, ..p });
                }
            }
            i = i + 1;
        }
        j = j + 1;
    }
}

/// Whether a projectile hits an obstacle: both still exist and the
/// distance between their centers is below the projectile's radius plus
/// half the obstacle's footprint width.
pub open spec fn spec_po_hit(p: ProjectileSlot, o: ObstacleSlot) -> bool {
    let rs = p.projectile.weapon_type.spec_projectile_radius() + o.obstacle.half_width;
    &&& p.alive
    &&& o.alive
    &&& dist2(p.projectile.pos, o.pos) < rs * rs
}

/// One step of the projectile-against-obstacles resolution: on a hit
/// the obstacle takes the damage (an indestructible one is untouched),
/// and the projectile is destroyed unless the obstacle's type is
/// pass-through, in which case it keeps flying.
pub open spec fn spec_po_step(
    os: Seq<ObstacleSlot>,
    ps: Seq<ProjectileSlot>,
    j: int,
    i: int,
) -> (Seq<ObstacleSlot>, Seq<ProjectileSlot>) {
    let p = ps[j];
    let o = os[i];
    if spec_po_hit(p, o) {
        (
            os.update(i, spec_obstacle_damaged_slot(o, p.projectile.damage)),
            if o.obstacle.obstacle_type.spec_is_pass_through() {
                ps
            } else {
                ps.update(j, ProjectileSlot { alive: false, ..p })
            },
        )
    } else {
        (os, ps)
    }
}

/// Projectile `j` resolved against the first `i` obstacles, in order.
pub open spec fn spec_po_inner(
    os: Seq<ObstacleSlot>,
    ps: Seq<ProjectileSlot>,
    j: int,
    i: int,
) -> (Seq<ObstacleSlot>, Seq<ProjectileSlot>)
    decreases i,
{
    if i <= 0 {
        (os, ps)
    } else {
        let t = spec_po_inner(os, ps, j, i - 1);
        spec_po_step(t.0, t.1, j, i - 1)
    }
}

/// The first `j` projectiles resolved against every obstacle.
pub open spec fn spec_po_pass(
    os: Seq<ObstacleSlot>,
    ps: Seq<ProjectileSlot>,
    j: int,
) -> (Seq<ObstacleSlot>, Seq<ProjectileSlot>)
    decreases j,
{
    if j <= 0 {
        (os, ps)
    } else {
        let t = spec_po_pass(os, ps, j - 1);
        spec_po_inner(t.0, t.1, j - 1, t.0.len() as int)
    }
}

/// The projectile-against-obstacle collision pass.  Every live
/// projectile is resolved, in slot order, against every live obstacle:
/// a hit damages a destructible obstacle (destroying it when its health
/// reaches zero), and ends the projectile's flight unless the obstacle
/// is of a pass-through type, in which case the projectile continues
/// and may hit further targets this tick.  Obstacle healths never
/// increase and destruction is never undone.
pub fn handle_projectile_obstacle_damage(world: &mut World)
    requires
        old(world).wf(),
    ensures
        final(world).wf(),
        ({
            let t = spec_po_pass(
                old(world).obstacles@,
                old(world).projectiles@,
                old(world).projectiles@.len() as int,
            );
            &&& final(world).obstacles@ == t.0
            &&& final(world).projectiles@ == t.1
        }),
        final(world).player == old(world).player,
        final(world).enemies == old(world).enemies,
        final(world).pickups == old(world).pickups,
        final(world).pending_drops == old(world).pending_drops,
        final(world).obstacles@.len() == old(world).obstacles@.len(),
        final(world).projectiles@.len() == old(world).projectiles@.len(),
        forall|k: int|
            0 <= k < old(world).obstacles@.len() ==> {
                &&& (#[trigger] final(world).obstacles@[k]).obstacle.health
                    <= old(world).obstacles@[k].obstacle.health
                &&& (final(world).obstacles@[k].alive ==> old(world).obstacles@[k].alive)
                &&& (!old(world).obstacles@[k].alive ==> final(world).obstacles@[k]
                    == old(world).obstacles@[k])
            },
        forall|k: int|
            0 <= k < old(world).projectiles@.len()
                ==> ((#[trigger] final(world).projectiles@[k]).alive
                    ==> old(world).projectiles@[k].alive),
{
    let ghost os0 = old(world).obstacles@;
    let ghost ps0 = old(world).projectiles@;
    let np = world.projectiles.len();
    let no = world.obstacles.len();
    let mut j: usize = 0;
    while j < np
        invariant
            j <= np,
            np == ps0.len(),
            no == os0.len(),
            old(world).wf(),
            world.wf(),
            ({
                let t = spec_po_pass(os0, ps0, j as int);
                &&& world.obstacles@ == t.0
                &&& world.projectiles@ == t.1
            }),
            world.obstacles@.len() == no,
            world.projectiles@.len() == np,
            world.player == old(world).player,
            world.enemies == old(world).enemies,
            world.pickups == old(world).pickups,
            world.pending_drops == old(world).pending_drops,
            forall|k: int|
                0 <= k < no ==> {
                    &&& (#[trigger] world.obstacles@[k]).obstacle.health
                        <= os0[k].obstacle.health
                    &&& (world.obstacles@[k].alive ==> os0[k].alive)
                    &&& (!os0[k].alive ==> world.obstacles@[k] == os0[k])
                },
            forall|k: int|
                0 <= k < np ==> ((#[trigger] world.projectiles@[k]).alive ==> ps0[k].alive),
        decreases np - j,
    {
        let ghost tj = spec_po_pass(os0, ps0, j as int);
        let mut i: usize = 0;
        while i < no
            invariant
                i <= no,
                j < np,
                np == ps0.len(),
                no == os0.len(),
                old(world).wf(),
                world.wf(),
                tj == spec_po_pass(os0, ps0, j as int),
                ({
                    let t = spec_po_inner(tj.0, tj.1, j as int, i as int);
                    &&& world.obstacles@ == t.0
                    &&& world.projectiles@ == t.1
                }),
                world.obstacles@.len() == no,
                world.projectiles@.len() == np,
                world.player == old(world).player,
                world.enemies == old(world).enemies,
                world.pickups == old(world).pickups,
                world.pending_drops == old(world).pending_drops,
                forall|k: int|
                    0 <= k < no ==> {
                        &&& (#[trigger] world.obstacles@[k]).obstacle.health
                            <= os0[k].obstacle.health
                        &&& (world.obstacles@[k].alive ==> os0[k].alive)
                        &&& (!os0[k].alive ==> world.obstacles@[k] == os0[k])
                    },
                forall|k: int|
                    0 <= k < np ==> ((#[trigger] world.projectiles@[k]).alive ==> ps0[k].alive),
            decreases no - i,
        {
            let p = world.projectiles[j];
            let o = world.obstacles[i];
            if p.alive && o.alive {
                let rs = p.projectile.weapon_type.projectile_radius() + o.obstacle.half_width;
                if crate::geom::circles_overlap(p.projectile.pos, o.pos, rs) {
                    let _ = world.damage_obstacle(i, p.projectile.damage);
                    if !o.obstacle.obstacle_type.is_pass_through() {
                        world.projectiles.set(j, ProjectileSlot { alive: false, ..p });
                    }
                }
            }
            i = i + 1;
        }
        j = j + 1;
    }
}

/// What collecting one pickup does to the player: a weapon grant
/// replaces the equipped weapon whole, a stat payload applies its
/// upgrade to the progression record, and a heal raises health, clamped
/// at the maximum.
pub open spec fn spec_apply_pickup(pc: PlayerChar, t: PickupType) -> PlayerChar {
    match t {
        PickupType::Weapon(wt) => PlayerChar {
            player: Player { current_weapon: wt, ..pc.player },
            weapon: spec_fresh_weapon(wt),
            ..pc
        },
        _ => if t.spec_upgrade() is Some {
            PlayerChar { upgrades: spec_apply(pc.upgrades, t.spec_upgrade()->0), ..pc }
        } else {
            PlayerChar {
                player: Player {
                    health: if pc.player.health + t.spec_heal() <= PLAYER_MAX_HEALTH {
                        (pc.player.health + t.spec_heal()) as u32
                    } else {
                        PLAYER_MAX_HEALTH
                    },
                    ..pc.player
                },
                ..pc
            }
        },
    }
}

/// Whether the player collects a pickup: the pickup still exists and
/// the distance between them is below the sum of their radii.
pub open spec fn spec_collect_hit(pc: PlayerChar, k: PickupSlot) -> bool {
    let rs = PLAYER_RADIUS + PICKUP_RADIUS;
    &&& k.alive
    &&& dist2(pc.pos, k.pickup.pos) < rs * rs
}

/// One step of the collection pass: if the player overlaps pickup `i`,
/// its payload is applied and the pickup despawns; otherwise nothing
/// changes.  With no player present nothing ever changes.
pub open spec fn spec_collect_step(
    pl: Option<PlayerChar>,
    ks: Seq<PickupSlot>,
    i: int,
) -> (Option<PlayerChar>, Seq<PickupSlot>) {
    match pl {
        None => (pl, ks),
        Some(pc) => {
            let k = ks[i];
            if spec_collect_hit(pc, k) {
                (
                    Some(spec_apply_pickup(pc, k.pickup.pickup_type)),
                    ks.update(i, PickupSlot { alive: false, ..k }),
                )
            } else {
                (pl, ks)
            }
        },
    }
}

/// The first `i` pickups offered to the player, in slot order.
pub open spec fn spec_collect_pass(
    pl: Option<PlayerChar>,
    ks: Seq<PickupSlot>,
    i: int,
) -> (Option<PlayerChar>, Seq<PickupSlot>)
    decreases i,
{
    if i <= 0 {
        (pl, ks)
    } else {
        let t = spec_collect_pass(pl, ks, i - 1);
        spec_collect_step(t.0, t.1, i - 1)
    }
}

/// Apply one pickup's payload to the player.
fn apply_pickup(pc: PlayerChar, t: PickupType) -> (r: PlayerChar)
    requires
        pc.wf(),
    ensures
        r == spec_apply_pickup(pc, t),
        r.wf(),
{
    match t {
        PickupType::Weapon(wt) => PlayerChar {
            player: Player { current_weapon: wt, ..pc.player },
            weapon: Weapon::new(wt),
            ..pc
        },
        PickupType::AreaAttack => {
            let mut u = pc.upgrades;
            u.apply(UpgradeKind::AreaAttack);
            proof {
                crate::progression::lemma_apply_preserves_wf(pc.upgrades, UpgradeKind::AreaAttack);
            }
            PlayerChar { upgrades: u, ..pc }
        },
        PickupType::CriticalHit => {
            let mut u = pc.upgrades;
            u.apply(UpgradeKind::CriticalHit);
            proof {
                crate::progression::lemma_apply_preserves_wf(pc.upgrades, UpgradeKind::CriticalHit);
            }
            PlayerChar { upgrades: u, ..pc }
        },
        PickupType::AttackSpeed => {
            let mut u = pc.upgrades;
            u.apply(UpgradeKind::AttackSpeed);
            proof {
                crate::progression::lemma_apply_preserves_wf(pc.upgrades, UpgradeKind::AttackSpeed);
            }
            PlayerChar { upgrades: u, ..pc }
        },
        PickupType::IncreasedDamage => {
            let mut u = pc.upgrades;
            u.apply(UpgradeKind::IncreasedDamage);
            proof {
                crate::progression::lemma_apply_preserves_wf(
                    pc.upgrades,
                    UpgradeKind::IncreasedDamage,
                );
            }
            PlayerChar { upgrades: u, ..pc }
        },
        PickupType::DoubleShot => {
            let mut u = pc.upgrades;
            u.apply(UpgradeKind::DoubleShot);
            proof {
                crate::progression::lemma_apply_preserves_wf(pc.upgrades, UpgradeKind::DoubleShot);
            }
            PlayerChar { upgrades: u, ..pc }
        },
        PickupType::TripleShot => {
            let mut u = pc.upgrades;
            u.apply(UpgradeKind::TripleShot);
            proof {
                crate::progression::lemma_apply_preserves_wf(pc.upgrades, UpgradeKind::TripleShot);
            }
            PlayerChar { upgrades: u, ..pc }
        },
        PickupType::HealthPack => {
            let mut p = pc.player;
            p.heal(HEALTH_PACK_HEAL);
            PlayerChar { player: p, ..pc }
        },
        PickupType::StaminaBoost => {
            let mut p = pc.player;
            p.heal(STAMINA_BOOST_HEAL);
            PlayerChar { player: p, ..pc }
        },
        PickupType::ArmorBoost => {
            let mut p = pc.player;
            p.heal(ARMOR_BOOST_HEAL);
            PlayerChar { player: p, ..pc }
        },
    }
}

/// The collection pass: the player collects, in slot order, every live
/// pickup it overlaps; each collected pickup's payload is applied and
/// the pickup despawns.  With no player present nothing changes.
pub fn handle_pickup_collection(world: &mut World)
    requires
        old(world).wf(),
    ensures
        final(world).wf(),
        ({
            let t = spec_collect_pass(
                old(world).player,
                old(world).pickups@,
                old(world).pickups@.len() as int,
            );
            &&& final(world).player == t.0
            &&& final(world).pickups@ == t.1
        }),
        final(world).enemies == old(world).enemies,
        final(world).obstacles == old(world).obstacles,
        final(world).projectiles == old(world).projectiles,
        final(world).pending_drops == old(world).pending_drops,
        final(world).pickups@.len() == old(world).pickups@.len(),
        forall|k: int|
            0 <= k < old(world).pickups@.len()
                ==> ((#[trigger] final(world).pickups@[k]).alive
                    ==> old(world).pickups@[k].alive),
{
    let ghost pl0 = old(world).player;
    let ghost ks0 = old(world).pickups@;
    let n = world.pickups.len();
    let mut i: usize = 0;
    while i < n
        invariant
            i <= n,
            n == ks0.len(),
            old(world).wf(),
            world.wf(),
            ({
                let t = spec_collect_pass(pl0, ks0, i as int);
                &&& world.player == t.0
                &&& world.pickups@ == t.1
            }),
            world.pickups@.len() == n,
            world.enemies == old(world).enemies,
            world.obstacles == old(world).obstacles,
            world.projectiles == old(world).projectiles,
            world.pending_drops == old(world).pending_drops,
            forall|k: int|
                0 <= k < n ==> ((#[trigger] world.pickups@[k]).alive ==> ks0[k].alive),
        decreases n - i,
    {
        match world.player {
            None => {},
            Some(pc) => {
                let k = world.pickups[i];
                if k.alive {
                    let rs = PLAYER_RADIUS + PICKUP_RADIUS;
                    if crate::geom::circles_overlap(pc.pos, k.pickup.pos, rs) {
                        let npc = apply_pickup(pc, k.pickup.pickup_type);
                        world.player = Some(npc);
                        world.pickups.set(i, PickupSlot { alive: false, ..k });
                    }
                }
            },
        }
        i = i + 1;
    }
}

/// Build the slot of one fired projectile.
fn make_slot(pc: PlayerChar, dir: Dir, damage: u32) -> (s: ProjectileSlot)
    requires
        pc.wf(),
        dir.wf(),
    ensures
        s == spec_proj_slot(pc, dir, damage),
        s.wf(),
{
    ProjectileSlot {
        projectile: Projectile {
            weapon_type: pc.weapon.weapon_type,
            damage,
            speed: pc.weapon.projectile_speed,
            lifetime_ms: PROJECTILE_LIFETIME_MS,
            pos: pc.pos,
            dir,
        },
        alive: true,
    }
}

} // verus!
