//! Core simulation of platform-fighter characters: stage-contact
//! classification, the per-tick movement state machine (air jumps, fastfall,
//! walljumps, knockback drain), and the melee attack lifecycle with its
//! single-hit-per-target bookkeeping.
//!
//! All quantities are integers: horizontal intent is a per-mille axis value
//! in `[-AXIS_UNIT, AXIS_UNIT]`, speeds and velocities are integer units per
//! second, and clocks are integer milliseconds. The physics engine, input
//! devices, rendering and tuning UI are outside collaborators: they hand this
//! crate plain values (contact events, intents, current velocity) and take
//! plain values back (new velocity, gravity scale).

pub mod attack;
pub mod bounds;
pub mod laws;
pub mod movement;
pub mod touch;
pub mod vec2;
pub mod world;
