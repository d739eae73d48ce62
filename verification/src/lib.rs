//! Simulation core of a "digital rain" terminal animation.
//!
//! Streaks of fading glyphs fall down the columns of a character grid. The
//! crate holds the per-streak physics, the grid that owns the streaks, the
//! mailbox that coalesces input events, and the two-state driver that ties
//! them together. Everything is expressed over plain values: drawing is
//! returned as a list of [`paint::Paint`] operations, and input arrives as
//! [`events::Event`] values, so the terminal itself stays outside.

pub mod config;
pub mod driver;
pub mod events;
pub mod grid;
pub mod lifetime;
pub mod paint;
pub mod rain;
pub mod random;
