//! Verified core of a terminal snake game: the per-tick transition of the
//! round state (movement with toroidal wrap, collision, food and bonus
//! handling), the level catalog, the menu state machine, and the leaderboard
//! admission rule. Terminal rendering, keyboard polling and file persistence
//! live outside this crate and exchange plain values with it.

pub mod game;
pub mod leaderboard;
pub mod menu;
pub mod models;
pub mod utils;
