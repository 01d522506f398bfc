//! Digital rain: streams of glyphs that fall down a terminal of fixed size.
//!
//! The crate holds the simulation itself: how a stream grows and scrolls, when it
//! leaves the screen, when a new one is spawned, which cells a frame repaints and
//! what a key press does. Drawing, reading keys and sleeping are left to the caller.

pub mod random;
pub mod env;
pub mod flake;
pub mod input;
pub mod state;
pub mod lemmas;
