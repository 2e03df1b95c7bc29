//! A narrative crafting game core: a segment-based gameflow engine that
//! advances through an ordered script of story beats, routes player input
//! events to the active segment, and accumulates outward engine effects
//! in a per-tick batch.

pub mod audio;
pub mod element;
pub mod furnace;
pub mod game;
pub mod gameflow;
pub mod mixer;
pub mod npc;
pub mod quest;
pub mod registry;
pub mod segment;
pub mod slicer;
pub mod ui;
