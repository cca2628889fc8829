//! Counts the regular files of a directory listing and lays out a fixed-size
//! page canvas: a white background rectangle sized to a physical page
//! (279.4 x 431.8 units at 96 pixels per inch), emitted as an SVG document.
//!
//! The page dimensions convert to whole pixels exactly (279.4 / 2.54 = 110
//! and 431.8 / 2.54 = 170), so the geometry is exact integer and rational
//! arithmetic throughout; cell dimensions for a caller-supplied grid are kept
//! as exact fractions of pixels.

pub mod document;
pub mod files;
pub mod geometry;
pub mod parse;
