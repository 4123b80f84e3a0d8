//! Simulation core of a 2D side-scrolling arcade game: a player-controlled
//! actor that moves, jumps, fires projectiles and places terrain, against
//! hostile agents that spawn, wander and collide with projectiles, all
//! modulated by a score-driven difficulty curve.
//!
//! All world quantities are fixed-point integers: positions and velocities in
//! milli-units (one thousandth of a world unit), durations in milliseconds,
//! and the difficulty multiplier in hundredths. The engine-facing layers
//! (rendering, input devices, menus) are external collaborators; this crate
//! holds the state, the rules and their proofs.

pub mod bug;
pub mod bullet;
pub mod cat;
pub mod geom;
pub mod ground;
pub mod phase;
pub mod rng;
pub mod stats;
pub mod timer;
pub mod world;
