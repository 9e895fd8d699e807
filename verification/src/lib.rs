//! Game-side cheats, offline island persistence and host window logic of an
//! emulated farming game, stated and proved over plain values.

pub mod address;
pub mod cf_time;
pub mod cheats;
pub mod farm;
pub mod hooks;
pub mod island;
pub mod lists;
pub mod name_laws;
pub mod names;
pub mod online;
pub mod patches;
pub mod rounding;
pub mod state;
pub mod text;
pub mod ui43;
pub mod ui43_laws;
pub mod watchdog;
pub mod window;
