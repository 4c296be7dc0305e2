//! High scores: one table of five entries per difficulty level.
use vstd::prelude::*;

verus! {

/// The identifier of the high score window.
pub const HIGHSCORE_WINDOW_ID: u32 = 2000;

/// One high score entry.
#[derive(Debug, Clone)]
pub struct HighScore {
    /// The company and its president.
    pub name: String,
    pub title: String,
    pub score: u16,
}

impl Default for HighScore {
    fn default() -> (r: Self)
        ensures
            r.name@.len() == 0 && r.title@.len() == 0 && r.score == 0,
    {
        HighScore { name: String::new(), title: String::new(), score: 0 }
    }
}

/// The difficulty levels that keep their own high scores.
#[derive(Debug, Clone, Copy, PartialEq, Eq, Structural)]
pub enum DifficultyLevel {
    Easy,
    Medium,
    Hard,
    Custom,
    Multiplayer,
}

impl DifficultyLevel {
    /// The number of difficulty levels.
    pub const COUNT: usize = 5;

    /// The slot of this level in the high score table.
    pub fn index(self) -> (r: usize)
        ensures
            r < 5,
            r == match self {
                DifficultyLevel::Easy => 0usize,
                DifficultyLevel::Medium => 1,
                DifficultyLevel::Hard => 2,
                DifficultyLevel::Custom => 3,
                DifficultyLevel::Multiplayer => 4,
            },
    {
        match self {
            DifficultyLevel::Easy => 0,
            DifficultyLevel::Medium => 1,
            DifficultyLevel::Hard => 2,
            DifficultyLevel::Custom => 3,
            DifficultyLevel::Multiplayer => 4,
        }
    }
}

} // verus!
