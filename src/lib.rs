//! A fixed-step Space Invaders simulation core: the playfield, the entity
//! store, the per-frame and per-fixed-tick systems and the game-state machine.

pub mod consts;
pub mod text;
pub mod geometry;
pub mod components;
pub mod seq_facts;
mod random;
pub mod input;
pub mod systems;
pub mod formation;
pub mod sounds;
pub mod spawners;
pub mod world;
pub mod game;
pub mod laws;
