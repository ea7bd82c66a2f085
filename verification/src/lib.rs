//! Core of a first-person simulation loop: per-tick input intent, player
//! yaw/pitch and movement, a hitscan weapon state machine, transient
//! effect/decal request queues, spawning of short-lived timed visuals, and
//! their aging and retirement.
//!
//! All quantities are exact integers: positions in micro-units, angles in
//! microradians, time in milliseconds. The display backend (rendering,
//! device polling, trigonometry for the yaw basis, scene geometry for ray
//! candidates) lives outside this crate and exchanges plain values with it.

pub mod entity;
pub mod input;
pub mod lifecycle;
pub mod math;
pub mod motion;
pub mod queue;
pub mod schedule;
pub mod spawn;
pub mod weapon;
pub mod world;

