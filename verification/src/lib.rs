//! Core of a turn-based boss-fight minigame: a combat state machine cycling
//! Menu -> (Fight | Act | Item | Mercy) -> enemy turn -> Menu, with an
//! attack-bar timing minigame, two bullet-pattern generators, avatar physics
//! and axis-aligned collision against the projectiles.
//!
//! All coordinates are fixed-point, in tenths of an arena unit, so that the
//! per-frame physics constants (gravity 0.9, fast fall 1.5, shake decay 0.5)
//! stay integral. The host owns rendering, input decoding and the player
//! health value; the library consumes an input snapshot per frame and hands
//! back the next combat state.

pub mod combat;
pub mod enemy;
pub mod fight;
pub mod geom;
pub mod input;
pub mod laws;
pub mod lines;
pub mod menu;
mod rng;
pub mod session;
pub mod text;
