//! Rebellion game rules: factions, input bindings, boosters, weapon mods,
//! campaign flow, controller gating and input replay.

pub mod factions;
pub mod keybindings;
pub mod keycode;
pub mod boosters;
pub mod collectibles;
pub mod replay;
pub mod items;
pub mod enemy;
pub mod rng;
pub mod states;
pub mod elder_fleet;
pub mod text;
pub mod transport;
pub mod controller;
pub mod menus;
pub mod tracking;
pub mod analytics;
pub mod save_policy;
pub mod triglavian;
pub mod edencom;
