//! An ellipse-shaped, borderless desktop surface: a procedural per-pixel
//! coloring function that shades the oval, and an event-driven interaction
//! controller that turns pointer, keyboard, timer and drag-drop events into
//! the uniform inputs of that coloring function and into a small player
//! state machine.
//!
//! All numeric work is done in fixed-point arithmetic: one unit is one
//! millionth, so the value `1_000_000` stands for `1.0`.

pub mod fixed;
pub mod geometry;
pub mod media;
pub mod shading;
pub mod controller;
