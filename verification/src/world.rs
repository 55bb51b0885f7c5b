//! The entity store: the shared world of game objects, addressed by
//! index.  Destruction never removes a slot mid-tick; it clears the
//! slot's alive flag, so indices stay stable and stale references are
//! skipped, never dangling.  An enemy's destruction is recorded exactly
//! once in the pending-drops queue, which the loot spawner drains.

use vstd::prelude::*;
use crate::enemy::Enemy;
use crate::geom::Pos;
use crate::obstacle::Obstacle;
use crate::pickup::Pickup;
use crate::player::Player;
use crate::progression::WeaponUpgrades;
use crate::weapon::{Weapon, WeaponType, Projectile};

verus! {

/// An enemy slot: the actor, its position, and whether it still exists.
#[derive(Debug, Clone, Copy, PartialEq, Eq, Structural)]
pub struct EnemySlot {
    pub enemy: Enemy,
    pub pos: Pos,
    pub alive: bool,
}

impl EnemySlot {
    pub open spec fn wf(self) -> bool {
        &&& self.enemy.wf()
        &&& self.pos.wf()
    }
}

/// An obstacle slot.
#[derive(Debug, Clone, Copy, PartialEq, Eq, Structural)]
pub struct ObstacleSlot {
    pub obstacle: Obstacle,
    pub pos: Pos,
    pub alive: bool,
}

impl ObstacleSlot {
    pub open spec fn wf(self) -> bool {
        &&& self.obstacle.wf()
        &&& self.pos.wf()
    }
}

/// A projectile slot.
#[derive(Debug, Clone, Copy, PartialEq, Eq, Structural)]
pub struct ProjectileSlot {
    pub projectile: Projectile,
    pub alive: bool,
}

impl ProjectileSlot {
    pub open spec fn wf(self) -> bool {
        self.projectile.wf()
    }
}

/// A pickup slot.
#[derive(Debug, Clone, Copy, PartialEq, Eq, Structural)]
pub struct PickupSlot {
    pub pickup: Pickup,
    pub alive: bool,
}

impl PickupSlot {
    pub open spec fn wf(self) -> bool {
        self.pickup.wf()
    }
}

/// The player together with everything it owns: its weapon, its
/// progression record, and its position.
#[derive(Debug, Clone, Copy, PartialEq, Eq, Structural)]
pub struct PlayerChar {
    pub player: Player,
    pub weapon: Weapon,
    pub upgrades: WeaponUpgrades,
    pub pos: Pos,
}

impl PlayerChar {
    pub open spec fn wf(self) -> bool {
        &&& self.player.wf()
        &&& self.weapon.wf()
        &&& self.upgrades.wf()
        &&& self.pos.wf()
    }

    /// A freshly spawned player at the given position: full health, the
    /// default weapon, zeroed progression.
    pub fn new(pos: Pos) -> (pc: PlayerChar)
        requires
            pos.wf(),
        ensures
            pc.player.health == crate::player::PLAYER_MAX_HEALTH,
            pc.weapon.weapon_type == WeaponType::Pistol,
            pc.weapon.last_attack_ms == 0,
            pc.upgrades == (crate::progression::WeaponUpgrades {
                area_attack: false,
                critical_hit_pct: 0,
                attack_speed_pct: 100,
                damage_pct: 100,
                multishot: crate::progression::Multishot::Single,
            }),
            pc.pos == pos,
            pc.wf(),
    {
        PlayerChar {
            player: Player::new(),
            weapon: Weapon::new(WeaponType::Pistol),
            upgrades: WeaponUpgrades::new(),
            pos,
        }
    }
}

/// The slot an enemy occupies after taking damage: health drops,
/// clamped at zero, and a slot whose health reaches zero is destroyed.
/// A slot that is not alive is untouched.
pub open spec fn spec_enemy_damaged_slot(s: EnemySlot, damage: u32) -> EnemySlot {
    if !s.alive {
        s
    } else if damage < s.enemy.health {
        EnemySlot {
            enemy: Enemy { health: (s.enemy.health - damage) as u32, ..s.enemy },
            ..s
        }
    } else {
        EnemySlot {
            enemy: Enemy { health: 0, ..s.enemy },
            alive: false,
            ..s
        }
    }
}

/// Whether this application of damage destroys the enemy: it was alive
/// and the damage reaches its health.
pub open spec fn spec_enemy_killed(s: EnemySlot, damage: u32) -> bool {
    s.alive && damage >= s.enemy.health
}

/// The whole world of live game objects.
#[derive(Debug, Clone, PartialEq, Eq)]
pub struct World {
    pub player: Option<PlayerChar>,
    pub enemies: Vec<EnemySlot>,
    pub obstacles: Vec<ObstacleSlot>,
    pub projectiles: Vec<ProjectileSlot>,
    pub pickups: Vec<PickupSlot>,
    pub pending_drops: Vec<Pos>,
}

impl World {
    pub open spec fn wf(self) -> bool {
        &&& match self.player {
            Some(pc) => pc.wf(),
            None => true,
        }
        &&& forall|i: int| 0 <= i < self.enemies@.len() ==> (#[trigger] self.enemies@[i]).wf()
        &&& forall|i: int|
            0 <= i < self.obstacles@.len() ==> (#[trigger] self.obstacles@[i]).wf()
        &&& forall|i: int|
            0 <= i < self.projectiles@.len() ==> (#[trigger] self.projectiles@[i]).wf()
        &&& forall|i: int| 0 <= i < self.pickups@.len() ==> (#[trigger] self.pickups@[i]).wf()
        &&& forall|i: int|
            0 <= i < self.pending_drops@.len() ==> (#[trigger] self.pending_drops@[i]).wf()
    }

    /// An empty world: nothing spawned yet.
    pub fn new() -> (w: World)
        ensures
            (w.player is None),
            w.enemies@.len() == 0,
            w.obstacles@.len() == 0,
            w.projectiles@.len() == 0,
            w.pickups@.len() == 0,
            w.pending_drops@.len() == 0,
            w.wf(),
    {
        World {
            player: None,
            enemies: Vec::new(),
            obstacles: Vec::new(),
            projectiles: Vec::new(),
            pickups: Vec::new(),
            pending_drops: Vec::new(),
        }
    }

    /// Spawn the player freshly at the given position, replacing any
    /// present one.
    pub fn spawn_player(&mut self, pos: Pos)
        requires
            pos.wf(),
        ensures
            (final(self).player is Some),
            final(self).player->0.player.health == crate::player::PLAYER_MAX_HEALTH,
            final(self).player->0.weapon.weapon_type == WeaponType::Pistol,
            final(self).player->0.weapon.last_attack_ms == 0,
            final(self).player->0.upgrades == (crate::progression::WeaponUpgrades {
                area_attack: false,
                critical_hit_pct: 0,
                attack_speed_pct: 100,
                damage_pct: 100,
                multishot: crate::progression::Multishot::Single,
            }),
            final(self).player->0.pos == pos,
            final(self).player->0.wf(),
            final(self).enemies == old(self).enemies,
            final(self).obstacles == old(self).obstacles,
            final(self).projectiles == old(self).projectiles,
            final(self).pickups == old(self).pickups,
            final(self).pending_drops == old(self).pending_drops,
    {
        self.player = Some(PlayerChar::new(pos));
    }

    /// Despawn the player and every transient combat entity it owns:
    /// projectiles, pickups, and the queue of deaths not yet consumed.
    /// Enemies and obstacles persist.
    pub fn clear_transient(&mut self)
        ensures
            (final(self).player is None),
            final(self).projectiles@.len() == 0,
            final(self).pickups@.len() == 0,
            final(self).pending_drops@.len() == 0,
            final(self).enemies == old(self).enemies,
            final(self).obstacles == old(self).obstacles,
    {
        self.player = None;
        self.projectiles = Vec::new();
        self.pickups = Vec::new();
        self.pending_drops = Vec::new();
    }

    /// Spawn a fresh enemy of the given type at the given position.
    pub fn spawn_enemy(&mut self, enemy: Enemy, pos: Pos)
        requires
            enemy.wf(),
            pos.wf(),
        ensures
            final(self).enemies@ == old(self).enemies@.push(
                (EnemySlot { enemy, pos, alive: true }),
            ),
            final(self).player == old(self).player,
            final(self).obstacles == old(self).obstacles,
            final(self).projectiles == old(self).projectiles,
            final(self).pickups == old(self).pickups,
            final(self).pending_drops == old(self).pending_drops,
    {
        self.enemies.push(EnemySlot { enemy, pos, alive: true });
    }

    /// Spawn a fresh obstacle at the given position.
    pub fn spawn_obstacle(&mut self, obstacle: Obstacle, pos: Pos)
        requires
            obstacle.wf(),
            pos.wf(),
        ensures
            final(self).obstacles@ == old(self).obstacles@.push(
                (ObstacleSlot { obstacle, pos, alive: true }),
            ),
            final(self).player == old(self).player,
            final(self).enemies == old(self).enemies,
            final(self).projectiles == old(self).projectiles,
            final(self).pickups == old(self).pickups,
            final(self).pending_drops == old(self).pending_drops,
    {
        self.obstacles.push(ObstacleSlot { obstacle, pos, alive: true });
    }

    /// Apply damage to the enemy in slot `i`.  A slot already destroyed
    /// is left untouched: a second hit against a destroyed enemy is a
    /// no-op, so the destroy transition fires at most once, and exactly
    /// one entry joins the pending-drops queue at that transition.
    pub fn damage_enemy(&mut self, i: usize, damage: u32) -> (destroyed: bool)
        requires
            i < old(self).enemies@.len(),
        ensures
            destroyed == spec_enemy_killed(old(self).enemies@[i as int], damage),
            final(self).enemies@ == old(self).enemies@.update(
                i as int,
                spec_enemy_damaged_slot(old(self).enemies@[i as int], damage),
            ),
            final(self).pending_drops@ == if destroyed {
                old(self).pending_drops@.push(old(self).enemies@[i as int].pos)
            } else {
                old(self).pending_drops@
            },
            final(self).player == old(self).player,
            final(self).obstacles == old(self).obstacles,
            final(self).projectiles == old(self).projectiles,
            final(self).pickups == old(self).pickups,
    {
        let slot = self.enemies[i];
        if !slot.alive {
            proof {
                assert(final(self).enemies@ =~= old(self).enemies@.update(
                    i as int,
                    spec_enemy_damaged_slot(old(self).enemies@[i as int], damage),
                ));
            }
            return false;
        }
        if damage < slot.enemy.health {
            let updated = EnemySlot {
                enemy: Enemy { health: slot.enemy.health - damage, ..slot.enemy },
                ..slot
            };
            self.enemies.set(i, updated);
            false
        } else {
            let updated = EnemySlot {
                enemy: Enemy { health: 0, ..slot.enemy },
                alive: false,
                ..slot
            };
            self.enemies.set(i, updated);
            self.pending_drops.push(slot.pos);
            true
        }
    }

    /// Move the player one tick along a direction the host computed
    /// from input, at the player's own speed.  With no player present
    /// this is a no-op.
    pub fn player_movement(&mut self, dir: crate::geom::Dir, dt_ms: u32)
        requires
            old(self).wf(),
            dir.wf(),
            dt_ms <= 60_000,
        ensures
            final(self).wf(),
            (old(self).player is None) ==> *final(self) == *old(self),
            (old(self).player is Some) ==> final(self).player == Some(
                PlayerChar {
                    pos: crate::geom::spec_advanced_pos(
                        old(self).player->0.pos,
                        dir,
                        old(self).player->0.player.speed,
                        dt_ms,
                    ),
                    ..old(self).player->0
                },
            ),
            final(self).enemies == old(self).enemies,
            final(self).obstacles == old(self).obstacles,
            final(self).projectiles == old(self).projectiles,
            final(self).pickups == old(self).pickups,
            final(self).pending_drops == old(self).pending_drops,
    {
        let pc = match self.player {
            Some(pc) => pc,
            None => {
                return ;
            },
        };
        let moved = crate::geom::advance_pos(pc.pos, dir, pc.player.speed, dt_ms);
        self.player = Some(PlayerChar { pos: moved, ..pc });
    }

    /// Move the enemy in slot `i` one tick along a direction the host
    /// computed (toward the player), at the enemy's own speed.  A slot
    /// already destroyed is untouched.
    pub fn enemy_movement(&mut self, i: usize, dir: crate::geom::Dir, dt_ms: u32)
        requires
            old(self).wf(),
            i < old(self).enemies@.len(),
            dir.wf(),
            dt_ms <= 60_000,
        ensures
            final(self).wf(),
            final(self).enemies@ == old(self).enemies@.update(
                i as int,
                if old(self).enemies@[i as int].alive {
                    EnemySlot {
                        pos: crate::geom::spec_advanced_pos(
                            old(self).enemies@[i as int].pos,
                            dir,
                            old(self).enemies@[i as int].enemy.speed,
                            dt_ms,
                        ),
                        ..old(self).enemies@[i as int]
                    }
                } else {
                    old(self).enemies@[i as int]
                },
            ),
            final(self).player == old(self).player,
            final(self).obstacles == old(self).obstacles,
            final(self).projectiles == old(self).projectiles,
            final(self).pickups == old(self).pickups,
            final(self).pending_drops == old(self).pending_drops,
    {
        let slot = self.enemies[i];
        if !slot.alive {
            proof {
                assert(final(self).enemies@ =~= old(self).enemies@.update(
                    i as int,
                    old(self).enemies@[i as int],
                ));
            }
            return ;
        }
        proof {
            assert(slot.enemy.speed <= 100_000);
        }
        let moved = crate::geom::advance_pos(slot.pos, dir, slot.enemy.speed, dt_ms);
        self.enemies.set(i, EnemySlot { pos: moved, ..slot });
    }

    /// Apply damage to the obstacle in slot `i`.  A destroyed or
    /// indestructible obstacle's health is untouched; an obstacle whose
    /// health reaches zero is destroyed and never enters the loot queue.
    pub fn damage_obstacle(&mut self, i: usize, damage: u32) -> (destroyed: bool)
        requires
            i < old(self).obstacles@.len(),
        ensures
            destroyed == (old(self).obstacles@[i as int].alive
                && old(self).obstacles@[i as int].obstacle.is_destructible
                && damage >= old(self).obstacles@[i as int].obstacle.health),
            final(self).obstacles@ == old(self).obstacles@.update(
                i as int,
                spec_obstacle_damaged_slot(old(self).obstacles@[i as int], damage),
            ),
            final(self).player == old(self).player,
            final(self).enemies == old(self).enemies,
            final(self).projectiles == old(self).projectiles,
            final(self).pickups == old(self).pickups,
            final(self).pending_drops == old(self).pending_drops,
    {
        let slot = self.obstacles[i];
        if !slot.alive {
            proof {
                assert(final(self).obstacles@ =~= old(self).obstacles@.update(
                    i as int,
                    spec_obstacle_damaged_slot(old(self).obstacles@[i as int], damage),
                ));
            }
            return false;
        }
        let mut obstacle = slot.obstacle;
        let destroyed = obstacle.take_damage(damage);
        self.obstacles.set(
            i,
            ObstacleSlot { obstacle, alive: !destroyed, ..slot },
        );
        destroyed
    }
}

/// The slot an obstacle occupies after taking damage: an indestructible
/// or already-destroyed one is untouched; otherwise health drops,
/// clamped at zero, and the slot is destroyed when health reaches zero.
pub open spec fn spec_obstacle_damaged_slot(s: ObstacleSlot, damage: u32) -> ObstacleSlot {
    if !s.alive {
        s
    } else {
        let damaged = crate::obstacle::spec_obstacle_damage(s.obstacle, damage);
        ObstacleSlot {
            obstacle: damaged,
            alive: !(s.obstacle.is_destructible && damaged.health == 0),
            ..s
        }
    }
}

/// The destroy transition fires at most once: hitting the same enemy
/// slot a second time after a killing hit changes nothing, and two hits
/// in a row grow the pending-drops queue by at most one entry.
pub proof fn lemma_destroy_once(s: EnemySlot, d1: u32, d2: u32)
    ensures
        spec_enemy_killed(s, d1) ==> !spec_enemy_killed(
            spec_enemy_damaged_slot(s, d1),
            d2,
        ),
        spec_enemy_killed(s, d1) ==> spec_enemy_damaged_slot(
            spec_enemy_damaged_slot(s, d1),
            d2,
        ) == spec_enemy_damaged_slot(s, d1),
        !spec_enemy_damaged_slot(s, d1).alive ==> !spec_enemy_killed(
            spec_enemy_damaged_slot(s, d1),
            d2,
        ),
{
}

} // verus!
