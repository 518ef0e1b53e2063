//! A terminal view of a voxel world: the world around the viewer drawn one
//! glyph per character cell, entities over it, and a heads-up display below.
//!
//! - `transform`: world positions to grid cells and back.
//! - `glyph`: glyph and colour tables.
//! - `terrain`: the near-to-far column scan that picks what a cell shows.
//! - `screen`: the grid of one frame and the entity overlay.
//! - `hud`: the panel, chat window and input line.
//! - `display`: the text and escape sequences that draw a frame.
//! - `control`: what keys do, steering, zoom and the session's phases.
pub mod control;
pub mod display;
pub mod glyph;
pub mod hud;
pub mod screen;
pub mod terrain;
pub mod transform;
