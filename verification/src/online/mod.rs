//! A server of one's own: where it is, how the game logs in to it, and what is
//! shown of the connection.

pub mod config;
pub mod hud;
pub mod login;
pub mod passport;
