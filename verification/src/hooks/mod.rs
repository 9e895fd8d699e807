//! Hooks on the messages of the game: which messages are looked at, and what
//! becomes of each.

pub mod cheat_arms;
pub mod cheat_laws;
pub mod island_arms;
pub mod island_laws;
pub mod layout_laws;
pub mod machine;
pub mod online_arms;
pub mod online_laws;
pub mod passage;
pub mod types;
