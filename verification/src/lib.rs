//! Verified core of a top-down arcade shooter: the combat and progression
//! simulation loop, an entity store addressed by index, loot drops, and the
//! game-state machine that gates which systems run each tick.
//!
//! All quantities are integers: world coordinates are fixed-point units
//! (ten units to one display pixel), times are milliseconds, and the
//! progression multipliers are percentages.

pub mod collision;
pub mod combat;
pub mod enemy;
pub mod game;
pub mod geom;
pub mod loot;
pub mod obstacle;
pub mod pickup;
pub mod player;
pub mod progression;
mod rng;
pub mod state;
pub mod weapon;
pub mod world;
