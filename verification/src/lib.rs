//! Gameplay rules of a small 2D action game, kept apart from the engine that
//! draws it and from the entity store that holds it.
//!
//! Every function here works on plain values: the caller samples the engine
//! (input edges, area overlaps, frame counts, elapsed time), hands the samples
//! in, and carries out the actions that come back.

pub mod components;
pub mod delect_box;
pub mod effect;
pub mod enemy;
pub mod events;
pub mod factory;
pub mod handle;
pub mod player;
pub mod plugins;
mod rng;
pub mod timer;
pub mod world;

