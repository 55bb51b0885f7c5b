//! The game: the state machine gating the simulation, the global
//! score/level record, and the per-tick dispatch that runs the combat
//! systems only while playing.
//!
//! Transitions are edge-triggered on logical inputs.  Leaving `Playing`
//! for game-over or level-complete despawns the player and every
//! transient combat entity; pausing keeps the world intact.  Entering
//! `Playing` from anywhere but `Paused` spawns the player freshly, with
//! the default weapon and zeroed progression.

use vstd::prelude::*;
use crate::geom::{Dir, Pos};
use crate::state::{GameData, GameState};
use crate::world::World;

verus! {

/// Points the level-clear condition asks for, per level.
pub const LEVEL_CLEAR_SCORE: u32 = 100;

/// A debounced logical input: one press, not a held key.
#[derive(Debug, Clone, Copy, PartialEq, Eq, Structural)]
pub enum InputAction {
    Confirm,
    PauseToggle,
}

/// The whole game: control state, counters, and the entity store.
#[derive(Debug, Clone)]
pub struct Game {
    pub state: GameState,
    pub data: GameData,
    pub world: World,
}

impl Game {
    pub open spec fn wf(self) -> bool {
        self.world.wf()
    }

    /// A fresh game at the main menu with an empty world.
    pub fn new() -> (g: Game)
        ensures
            g.state == GameState::MainMenu,
            g.data.score == 0,
            g.data.level == 1,
            g.data.high_score == 0,
            (g.world.player is None),
            g.world.enemies@.len() == 0,
            g.world.obstacles@.len() == 0,
            g.world.projectiles@.len() == 0,
            g.world.pickups@.len() == 0,
            g.world.pending_drops@.len() == 0,
            g.wf(),
    {
        Game { state: GameState::MainMenu, data: GameData::new(), world: World::new() }
    }

    /// One edge-triggered input, dispatched by the current state:
    /// confirm starts, restarts or continues; pause-toggle pauses and
    /// resumes.  Inputs that the current state does not listen for
    /// change nothing.
    pub fn handle_input(&mut self, action: InputAction)
        requires
            old(self).wf(),
        ensures
            final(self).wf(),
            old(self).state == GameState::MainMenu && action == InputAction::Confirm ==> {
                &&& final(self).state == GameState::Playing
                &&& final(self).data.score == 0
                &&& final(self).data.level == 1
                &&& final(self).data.high_score == if old(self).data.score
                    > old(self).data.high_score {
                    old(self).data.score
                } else {
                    old(self).data.high_score
                }
                &&& spec_fresh_life(old(self).world, final(self).world)
            },
            old(self).state == GameState::Playing && action == InputAction::PauseToggle ==> {
                &&& final(self).state == GameState::Paused
                &&& final(self).data == old(self).data
                &&& final(self).world == old(self).world
            },
            old(self).state == GameState::Paused ==> {
                &&& final(self).state == GameState::Playing
                &&& final(self).data == old(self).data
                &&& final(self).world == old(self).world
            },
            old(self).state == GameState::GameOver && action == InputAction::Confirm ==> {
                &&& final(self).state == GameState::Playing
                &&& final(self).data.score == 0
                &&& final(self).data.level == 1
                &&& final(self).data.high_score == if old(self).data.score
                    > old(self).data.high_score {
                    old(self).data.score
                } else {
                    old(self).data.high_score
                }
                &&& spec_fresh_life(old(self).world, final(self).world)
            },
            old(self).state == GameState::LevelComplete && action == InputAction::Confirm ==> {
                &&& final(self).state == GameState::Playing
                &&& final(self).data.score == old(self).data.score
                &&& final(self).data.high_score == old(self).data.high_score
                &&& final(self).data.level == if old(self).data.level < u32::MAX {
                    old(self).data.level + 1
                } else {
                    u32::MAX as int
                }
                &&& spec_fresh_life(old(self).world, final(self).world)
            },
            old(self).state == GameState::MainMenu && action != InputAction::Confirm
                ==> *final(self) == *old(self),
            old(self).state == GameState::Playing && action != InputAction::PauseToggle
                ==> *final(self) == *old(self),
            old(self).state == GameState::GameOver && action != InputAction::Confirm
                ==> *final(self) == *old(self),
            old(self).state == GameState::LevelComplete && action != InputAction::Confirm
                ==> *final(self) == *old(self),
    {
        match (self.state, action) {
            (GameState::MainMenu, InputAction::Confirm) => {
                self.data.reset();
                self.world.clear_transient();
                self.world.spawn_player(Pos::new(0, 0));
                self.state = GameState::Playing;
            },
            (GameState::Playing, InputAction::PauseToggle) => {
                self.state = GameState::Paused;
            },
            (GameState::Paused, _) => {
                self.state = GameState::Playing;
            },
            (GameState::GameOver, InputAction::Confirm) => {
                self.data.reset();
                self.world.clear_transient();
                self.world.spawn_player(Pos::new(0, 0));
                self.state = GameState::Playing;
            },
            (GameState::LevelComplete, InputAction::Confirm) => {
                self.data.next_level();
                self.world.clear_transient();
                self.world.spawn_player(Pos::new(0, 0));
                self.state = GameState::Playing;
            },
            _ => {},
        }
    }

    /// Apply damage to the player, as enemy contact does.  Outside
    /// `Playing`, or with no player present, nothing happens.  Damage
    /// below the player's health just lowers it; damage reaching it
    /// fires the game-over transition exactly once: the high score is
    /// recorded if the score beat it, and the player with every
    /// transient combat entity despawns.
    pub fn damage_player(&mut self, damage: u32)
        requires
            old(self).wf(),
        ensures
            final(self).wf(),
            old(self).state != GameState::Playing ==> *final(self) == *old(self),
            old(self).state == GameState::Playing && (old(self).world.player is None)
                ==> *final(self) == *old(self),
            old(self).state == GameState::Playing && (old(self).world.player is Some)
                && damage < old(self).world.player->0.player.health ==> {
                &&& final(self).state == GameState::Playing
                &&& final(self).data == old(self).data
                &&& final(self).world.player == Some(
                    crate::world::PlayerChar {
                        player: crate::player::Player {
                            health: (old(self).world.player->0.player.health - damage) as u32,
                            ..old(self).world.player->0.player
                        },
                        ..old(self).world.player->0
                    },
                )
                &&& final(self).world.enemies == old(self).world.enemies
                &&& final(self).world.obstacles == old(self).world.obstacles
                &&& final(self).world.projectiles == old(self).world.projectiles
                &&& final(self).world.pickups == old(self).world.pickups
                &&& final(self).world.pending_drops == old(self).world.pending_drops
            },
            old(self).state == GameState::Playing && (old(self).world.player is Some)
                && damage >= old(self).world.player->0.player.health ==> {
                &&& final(self).state == GameState::GameOver
                &&& final(self).data.score == old(self).data.score
                &&& final(self).data.level == old(self).data.level
                &&& final(self).data.high_score == if old(self).data.score
                    > old(self).data.high_score {
                    old(self).data.score
                } else {
                    old(self).data.high_score
                }
                &&& (final(self).world.player is None)
                &&& final(self).world.projectiles@.len() == 0
                &&& final(self).world.pickups@.len() == 0
                &&& final(self).world.pending_drops@.len() == 0
                &&& final(self).world.enemies == old(self).world.enemies
                &&& final(self).world.obstacles == old(self).world.obstacles
            },
    {
        if !matches!(self.state, GameState::Playing) {
            return ;
        }
        let pc = match self.world.player {
            Some(pc) => pc,
            None => {
                return ;
            },
        };
        if damage < pc.player.health {
            let mut p = pc.player;
            p.take_damage(damage);
            self.world.player = Some(crate::world::PlayerChar { player: p, ..pc });
        } else {
            if self.data.score > self.data.high_score {
                self.data.high_score = self.data.score;
            }
            self.world.clear_transient();
            self.state = GameState::GameOver;
        }
    }
}

/// What one simulation tick does while playing, given the tick's one
/// critical roll and the loot spawner's roll pairs.  In order: every
/// projectile and pickup lifetime counts down (expiry despawns them
/// before any collision), the firing action runs under the cadence
/// gate, projectiles resolve against enemies and then obstacles, the
/// loot spawner drains the queue of this tick's destructions with
/// exactly one decision each, the player collects overlapping pickups,
/// the score grows by the per-kill reward for each destruction, and the
/// level-clear condition (score reaching the per-level target) moves
/// the game to level-complete, despawning the player and every
/// transient entity.
pub open spec fn spec_tick_outcome(
    g: Game,
    now_ms: u64,
    dt_ms: u32,
    firing: bool,
    aim: Dir,
    crit: bool,
    rolls: Seq<(u32, u32)>,
    g2: Game,
) -> bool {
    let w0 = g.world;
    let ps1 = Seq::new(
        w0.projectiles@.len(),
        |j: int| crate::combat::spec_moved_projectile_slot(w0.projectiles@[j], dt_ms),
    );
    let ks1 = Seq::new(
        w0.pickups@.len(),
        |i: int| crate::combat::spec_aged_pickup_slot(w0.pickups@[i], dt_ms),
    );
    let shot = (w0.player is Some) && firing && crate::weapon::spec_can_attack(
        w0.player->0.weapon,
        now_ms,
        w0.player->0.upgrades.attack_speed_pct,
    );
    let pl1 = if shot {
        Some(
            crate::world::PlayerChar {
                weapon: crate::combat::spec_weapon_after_shot(w0.player->0.weapon, now_ms),
                ..w0.player->0
            },
        )
    } else {
        w0.player
    };
    let ps2 = if shot {
        ps1 + crate::combat::spec_shot_slots(w0.player->0, aim, crit)
    } else {
        ps1
    };
    let pe = crate::combat::spec_pe_pass(w0.enemies@, ps2, w0.pending_drops@, ps2.len() as int);
    let po = crate::combat::spec_po_pass(w0.obstacles@, pe.1, pe.1.len() as int);
    let ks2 = ks1 + crate::loot::spec_drop_slots(pe.2, rolls);
    let coll = crate::combat::spec_collect_pass(pl1, ks2, ks2.len() as int);
    let kills = pe.2.len() - w0.pending_drops@.len();
    let new_score = if g.data.score + crate::enemy::ENEMY_SCORE * kills <= u32::MAX {
        g.data.score + crate::enemy::ENEMY_SCORE * kills
    } else {
        u32::MAX as int
    };
    let clear = new_score >= LEVEL_CLEAR_SCORE * g.data.level;
    &&& rolls.len() == pe.2.len()
    &&& (forall|k: int| 0 <= k < rolls.len() ==> (#[trigger] rolls[k]).0 < 100 && rolls[k].1 <= 100)
    &&& g2.data.score == new_score
    &&& g2.data.level == g.data.level
    &&& g2.data.high_score == g.data.high_score
    &&& g2.state == if clear {
        GameState::LevelComplete
    } else {
        GameState::Playing
    }
    &&& g2.world.enemies@ == pe.0
    &&& g2.world.obstacles@ == po.0
    &&& if clear {
        &&& (g2.world.player is None)
        &&& g2.world.projectiles@.len() == 0
        &&& g2.world.pickups@.len() == 0
        &&& g2.world.pending_drops@.len() == 0
    } else {
        &&& g2.world.player == coll.0
        &&& g2.world.projectiles@ == po.1
        &&& g2.world.pickups@ == coll.1
        &&& g2.world.pending_drops@.len() == 0
    }
}

impl Game {
    /// One simulation tick.  The state gate comes first: in any state
    /// but `Playing` nothing runs and nothing changes.  While playing,
    /// the tick behaves as `spec_tick_outcome` says, for one critical
    /// roll and one sequence of loot decisions.
    pub fn tick(&mut self, now_ms: u64, dt_ms: u32, firing: bool, aim: Dir)
        requires
            old(self).wf(),
            dt_ms <= 60_000,
            aim.rotatable(),
        ensures
            final(self).wf(),
            old(self).state != GameState::Playing ==> *final(self) == *old(self),
            old(self).state == GameState::Playing ==> exists|crit: bool, rolls: Seq<(u32, u32)>|
                #[trigger] spec_tick_outcome(
                    *old(self),
                    now_ms,
                    dt_ms,
                    firing,
                    aim,
                    crit,
                    rolls,
                    *final(self),
                ),
    {
        if !matches!(self.state, GameState::Playing) {
            return ;
        }
        let ghost g0 = *self;
        let pending_before = self.world.pending_drops.len();
        crate::combat::projectile_movement(&mut self.world, dt_ms);
        let ghost w_m = self.world;
        crate::combat::update_pickups(&mut self.world, dt_ms);
        let ghost w_a = self.world;
        crate::combat::player_shooting(&mut self.world, now_ms, firing, aim);
        let ghost w_s = self.world;
        crate::combat::handle_projectile_enemy_collision(&mut self.world);
        let ghost w_pe = self.world;
        let kills = self.world.pending_drops.len() - pending_before;
        crate::combat::handle_projectile_obstacle_damage(&mut self.world);
        let ghost w_po = self.world;
        crate::loot::spawn_enemy_drops(&mut self.world);
        let ghost w_l = self.world;
        crate::combat::handle_pickup_collection(&mut self.world);
        let points = if kills > (u32::MAX / crate::enemy::ENEMY_SCORE) as usize {
            u32::MAX
        } else {
            (kills as u32) * crate::enemy::ENEMY_SCORE
        };
        self.data.increment_score(points);
        let clear = (self.data.score as u64) >= (LEVEL_CLEAR_SCORE as u64) * (
        self.data.level as u64);
        if clear {
            self.world.clear_transient();
            self.state = GameState::LevelComplete;
        }
        proof {
            let ghost crit = if (w_a.player is Some) && firing && crate::weapon::spec_can_attack(
                w_a.player->0.weapon,
                now_ms,
                w_a.player->0.upgrades.attack_speed_pct,
            ) {
                choose|c: bool|
                    {
                        &&& w_s.player == Some(
                            crate::world::PlayerChar {
                                weapon: crate::combat::spec_weapon_after_shot(
                                    w_a.player->0.weapon,
                                    now_ms,
                                ),
                                ..w_a.player->0
                            },
                        )
                        &&& w_s.projectiles@ == w_a.projectiles@
                            + #[trigger] crate::combat::spec_shot_slots(w_a.player->0, aim, c)
                    }
            } else {
                false
            };
            let ghost rolls = choose|r: Seq<(u32, u32)>|
                {
                    &&& r.len() == w_po.pending_drops@.len()
                    &&& forall|k: int|
                        0 <= k < r.len() ==> (#[trigger] r[k]).0 < 100 && r[k].1 <= 100
                    &&& w_l.pickups@ == w_po.pickups@ + crate::loot::spec_drop_slots(
                        w_po.pending_drops@,
                        r,
                    )
                };
            assert(w_m.projectiles@ =~= Seq::new(
                g0.world.projectiles@.len(),
                |j: int| crate::combat::spec_moved_projectile_slot(g0.world.projectiles@[j], dt_ms),
            ));
            assert(w_a.pickups@ =~= Seq::new(
                g0.world.pickups@.len(),
                |i: int| crate::combat::spec_aged_pickup_slot(g0.world.pickups@[i], dt_ms),
            ));
            assert(spec_tick_outcome(g0, now_ms, dt_ms, firing, aim, crit, rolls, *self));
        }
    }
}

/// Health monotonicity over a whole tick: enemies have no heal, so for
/// every enemy slot one tick never raises health, never revives a
/// destroyed enemy, and leaves destroyed slots untouched, whatever the
/// tick's rolls were.  (The player is the one actor a tick can heal,
/// and only through an explicit heal pickup.)
pub proof fn lemma_tick_enemy_health_monotone(
    g: Game,
    now_ms: u64,
    dt_ms: u32,
    firing: bool,
    aim: Dir,
    crit: bool,
    rolls: Seq<(u32, u32)>,
    g2: Game,
)
    requires
        spec_tick_outcome(g, now_ms, dt_ms, firing, aim, crit, rolls, g2),
    ensures
        g2.world.enemies@.len() == g.world.enemies@.len(),
        forall|k: int|
            0 <= k < g.world.enemies@.len() ==> {
                &&& (#[trigger] g2.world.enemies@[k]).enemy.health
                    <= g.world.enemies@[k].enemy.health
                &&& (g2.world.enemies@[k].alive ==> g.world.enemies@[k].alive)
                &&& (!g.world.enemies@[k].alive ==> g2.world.enemies@[k]
                    == g.world.enemies@[k])
            },
{
    let w0 = g.world;
    let ps1 = Seq::new(
        w0.projectiles@.len(),
        |j: int| crate::combat::spec_moved_projectile_slot(w0.projectiles@[j], dt_ms),
    );
    let shot = (w0.player is Some) && firing && crate::weapon::spec_can_attack(
        w0.player->0.weapon,
        now_ms,
        w0.player->0.upgrades.attack_speed_pct,
    );
    let ps2 = if shot {
        ps1 + crate::combat::spec_shot_slots(w0.player->0, aim, crit)
    } else {
        ps1
    };
    crate::combat::lemma_pe_pass_health_monotone(
        w0.enemies@,
        ps2,
        w0.pending_drops@,
        ps2.len() as int,
    );
}

/// The world after a fresh life is set up on entering `Playing` from a
/// state other than `Paused`: transients cleared, enemies and obstacles
/// persisting, and the player freshly spawned at the origin with the
/// default weapon and zeroed progression.
pub open spec fn spec_fresh_life(before: World, after: World) -> bool {
    &&& (after.player is Some)
    &&& after.player->0.player.health == crate::player::PLAYER_MAX_HEALTH
    &&& after.player->0.weapon == crate::weapon::spec_fresh_weapon(
        crate::weapon::WeaponType::Pistol,
    )
    &&& after.player->0.upgrades == (crate::progression::WeaponUpgrades {
        area_attack: false,
        critical_hit_pct: 0,
        attack_speed_pct: 100,
        damage_pct: 100,
        multishot: crate::progression::Multishot::Single,
    })
    &&& after.player->0.pos == (Pos { x: 0, y: 0 })
    &&& after.projectiles@.len() == 0
    &&& after.pickups@.len() == 0
    &&& after.pending_drops@.len() == 0
    &&& after.enemies == before.enemies
    &&& after.obstacles == before.obstacles
}

} // verus!
