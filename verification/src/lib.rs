//! Core of a small 2D side-scrolling action game: a player moves and attacks
//! across a tiled world while periodically spawned goblins approach and attack.
//!
//! This crate holds the verified game logic: the animation state machine, the
//! per-tick physics integration, the goblin decision rule, the spawn scheduler,
//! the camera projection and the scene controllers. Windowing, rendering and
//! asset loading live outside, and talk to this crate through plain values:
//! key and mouse events come in, draw commands go out.
//!
//! World coordinates and velocities are fixed-point: one world unit is
//! [`world::space::MILLI`] coordinate steps, so that every per-tick state
//! transition is exact integer arithmetic.

pub mod entity;
pub mod screen;
pub mod utility;
pub mod world;
