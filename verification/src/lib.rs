//! Game rules of the Cathedral arena shooter: the game-state machine, the
//! arena maps and how their pieces are laid out, the enemies' decisions, the
//! ragdoll skeleton, and the shooting and interface rules.
//!
//! Lengths are whole millimetres, durations whole microseconds, and rotations
//! quarter turns about the vertical axis; the engine side converts them to its
//! own units.

pub mod enemies;
pub mod geometry;
pub mod map;
pub mod maps;
pub mod player;
pub mod ragdoll;
pub mod shooting;
pub mod state;
pub mod ui;
