//! The simulation core of a single-screen catch game.
//!
//! A paddle moves along the bottom of a walled arena and catches what falls:
//! stars, which score a point and speed the fall up every tenth point, and
//! hearts, which give a life back. A star that reaches the floor costs a
//! life, a heart that reaches it costs a point. All lengths and positions
//! are whole numbers of hundredths of a pixel, so that every step of the
//! simulation is exact.

pub mod collision;
pub mod decimal;
pub mod scoreboard;
pub mod speed;
pub mod chance;
pub mod entity;
pub mod world;
pub mod laws;
