//! The session logic of a two-tank artillery game: pausing and resuming,
//! arming the controls, committing shots, and deciding when the save file
//! is written. The screen, the clock, the disk and the game rules are driven
//! from outside; this crate decides what happens to them.

pub mod game;
pub mod notice;
pub mod session;
pub mod laws;
pub mod behaviour;
