//! The offline island: its layout, its save files and its session.

pub mod entry;
pub mod files;
pub mod fragments;
pub mod map_data;
pub mod merge;
pub mod numbers;
pub mod save;
pub mod session;
pub mod ships;
pub mod stamps;
pub mod user_info;
