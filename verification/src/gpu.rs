//! The GPU command data the pipeline emits.
//!
//! The library never touches the GPU itself: it produces plain values that
//! say exactly what to upload and what to draw, and the embedding replays
//! them against a live context. Coordinates are in 1/64-pixel fixed point
//! (the rasterizer's subpixel unit); the embedding divides by 64 when it
//! fills the float vertex buffer.

use vstd::prelude::*;

verus! {

/// One glyph bitmap to place in GPU texture storage: a single-channel
/// (coverage) image, one byte per pixel, row-major, `width * height` bytes,
/// rows tightly packed. The texture is created with no mipmaps,
/// clamp-to-edge wrapping, linear filtering and 1-byte row alignment.
#[derive(Clone, Debug)]
pub struct TextureUpload {
    /// The texture handle the cache assigned; fresh per upload.
    pub handle: u32,
    pub width: u32,
    pub height: u32,
    pub pixels: Vec<u8>,
}

/// One corner of a glyph quad: a position in 1/64-pixel units of the target
/// coordinate space, and a texture coordinate that is 0 or 1 — every quad
/// samples the full extent of its glyph's dedicated texture.
#[derive(Clone, Copy, PartialEq, Eq, Structural, Debug)]
pub struct QuadVertex {
    pub x: i64,
    pub y: i64,
    pub u: u8,
    pub v: u8,
}

/// One draw call: bind `tex`, stream `verts` into the shared dynamic vertex
/// buffer, and draw them as triangles. Always six vertices — two triangles
/// covering the glyph's quad.
#[derive(Clone, Debug)]
pub struct GlyphDraw {
    pub tex: u32,
    pub verts: Vec<QuadVertex>,
}

} // verus!
