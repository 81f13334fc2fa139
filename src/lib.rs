//! Core of a terminal fluid simulator: the live settings and what the keys
//! and mouse do to them, the spatial-hash neighbour index of the SPH step,
//! and the Braille rasterizer that turns particle positions into a screen of
//! glyphs with its panels.

pub mod controls;
pub mod render;
pub mod sim;
