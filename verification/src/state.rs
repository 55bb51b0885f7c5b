//! The game-state machine's state set and the global score/level record.

use vstd::prelude::*;

verus! {

/// The five control states of the game.  `MainMenu` is the initial state;
/// the systems of the simulation (combat, loot, pickups) run only in
/// `Playing`.
#[derive(Debug, Clone, Copy, PartialEq, Eq, Structural)]
pub enum GameState {
    MainMenu,
    Playing,
    Paused,
    GameOver,
    LevelComplete,
}

/// Global score and level counters, and the high score kept in memory
/// across resets.
#[derive(Debug, Clone, PartialEq, Eq, Structural)]
pub struct GameData {
    pub score: u32,
    pub level: u32,
    pub high_score: u32,
}

impl Default for GameData {
    /// A fresh record: no score, first level, no high score yet.
    fn default() -> (d: GameData)
        ensures
            d.score == 0,
            d.level == 1,
            d.high_score == 0,
    {
        GameData { score: 0, level: 1, high_score: 0 }
    }
}

impl GameData {
    pub fn new() -> (d: GameData)
        ensures
            d.score == 0,
            d.level == 1,
            d.high_score == 0,
    {
        GameData { score: 0, level: 1, high_score: 0 }
    }

    /// Record the finished run in the high score, then clear score and
    /// level for the next run.  The high score only ever grows.
    pub fn reset(&mut self)
        ensures
            final(self).score == 0,
            final(self).level == 1,
            final(self).high_score == if old(self).score > old(self).high_score {
                old(self).score
            } else {
                old(self).high_score
            },
    {
        if self.score > self.high_score {
            self.high_score = self.score;
        }
        self.score = 0;
        self.level = 1;
    }

    /// Add points to the score, saturating at the counter's maximum.
    pub fn increment_score(&mut self, points: u32)
        ensures
            final(self).score == if old(self).score + points <= u32::MAX {
                old(self).score + points
            } else {
                u32::MAX as int
            },
            final(self).level == old(self).level,
            final(self).high_score == old(self).high_score,
    {
        if self.score <= u32::MAX - points {
            self.score = self.score + points;
        } else {
            self.score = u32::MAX;
        }
    }

    /// Advance to the next level, saturating at the counter's maximum.
    pub fn next_level(&mut self)
        ensures
            final(self).level == if old(self).level < u32::MAX {
                old(self).level + 1
            } else {
                u32::MAX as int
            },
            final(self).score == old(self).score,
            final(self).high_score == old(self).high_score,
    {
        if self.level < u32::MAX {
            self.level = self.level + 1;
        }
    }
}

} // verus!
