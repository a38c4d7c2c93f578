//! A falling-sand cellular automaton: a dense grid of material cells and an
//! append-only store of particles, advanced once per tick under gravity,
//! displacement and flow, with a circular brush that spawns new particles.

pub mod brush;
pub mod field;
pub mod input;
pub mod laws;
pub mod particle;
pub mod rng;
pub mod simulator;
pub mod state;
pub mod vec;
