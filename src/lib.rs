//! A two-paddle ball game (Pong) as a deterministic, frame-locked simulation.
//!
//! All lengths, positions and speeds are whole thousandths of a pixel
//! (`entity::SCALE` units per pixel), so that every tick is exact integer
//! arithmetic. The host supplies entity sizes and the controls held on each
//! tick; it draws the entities, plays a sound when a paddle is hit and shows
//! the win message.

pub mod config;
pub mod entity;
pub mod game;
pub mod laws;
