//! The host window: the emulated device's screen, and the translation of the
//! host's input into touches.

pub mod device;
pub mod events;
pub mod fill;
pub mod layout;
pub mod marks;
pub mod misc;
pub mod pinch;
pub mod poll;
pub mod poll_laws;
pub mod scaling;
pub mod suspend;
