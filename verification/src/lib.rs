//! A verified glyph cache and text-draw pipeline.
//!
//! Text is rendered by rasterizing each Unicode scalar once per font face and
//! pixel size, keeping the result as a GPU-resident texture keyed by a
//! composite glyph identity, and walking a string to emit one positioned,
//! textured quad per character while a pen advances by each glyph's metric.
//!
//! The crate computes everything that can be stated over plain values: cache
//! policy (hit, miss, missing-glyph sentinel, degraded placeholder), glyph
//! metric adjustment, quad geometry in fixed-point coordinates, and the draw
//! command stream. Rasterization itself is delegated to the FreeType library
//! behind a handful of trusted wrappers; submitting the command stream to a
//! live GPU context is left to the embedding program.

pub mod cache;
pub mod color;
pub mod draw;
pub mod font;
pub mod glyph;
pub mod gpu;
pub mod identity;
pub mod raster;
pub mod shader;
