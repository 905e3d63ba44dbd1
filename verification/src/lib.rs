//! Core simulation of a grid-aligned chase game: entities moving in discrete
//! steps inside a window, boundary and overlap checks, randomized relocation
//! of a caught entity onto a fresh grid cell, an entity registry, and the
//! per-frame step that ties input, movement, collision and scoring together.
//!
//! Rendering and event polling are left to the surrounding program: the
//! library hands out plain draw commands and consumes plain input events.

pub mod entity;
pub mod game;
pub mod world;
