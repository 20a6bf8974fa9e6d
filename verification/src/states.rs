//! Top-level game screens and phases.

use vstd::prelude::*;

verus! {

/// Which screen or phase the game is in.
#[derive(Debug, Clone, Copy, PartialEq, Eq, Hash, Structural)]
pub enum GameState {
    Loading,
    MainMenu,
    ModuleSelect,
    FactionSelect,
    ShipSelect,
    DifficultySelect,
    MissionBriefing,
    Controls,
    Playing,
    BossIntro,
    BossFight,
    Paused,
    StageComplete,
    GameOver,
    Victory,
    SliceComplete,
}

} // verus!
