//! Core of a terminal "pipes" screensaver: procedural pipe growth on a
//! toroidal character grid, glyph selection by direction pair, a styled cell
//! buffer with layered darkening, and the counters that drive clearing and
//! layering.

pub mod canvas;
pub mod color;
pub mod config;
pub mod digits;
pub mod glyphs;
pub mod pipe;
pub mod plane_2d;
mod rng;
pub mod screensaver;
