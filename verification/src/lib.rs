//! Deterministic simulation core of a side-scrolling action
//! platformer: physics, collision, a melee swing with a timed hit
//! window, damage and invincibility, a seeded world generator, and a
//! pruner that drops what the camera has left behind.
//!
//! All state is integral. Lengths and speeds are whole thousandths of a
//! world unit, timers whole millionths of a time unit, and frame
//! lengths whole thousandths of a frame, so that equal inputs give
//! equal runs on every machine. Every function carries a contract over
//! a mathematical model of the state, and the laws that hold of every
//! run are proved in [`laws`].
//!
//! A host drives a [`engine::GameEngine`]: it reports key events, calls
//! `update` once per frame, and draws the snapshot that `render` hands
//! out.

pub mod enemy;
pub mod engine;
pub mod fixed;
pub mod game;
pub mod geometry;
pub mod laws;
pub mod pickup;
pub mod platform;
pub mod player;
pub mod trig;
pub mod world;
