//! Text colors, as the draw pipeline accepts them.

use vstd::prelude::*;

verus! {

/// A solid color used to tint the single-channel glyph textures.
///
/// The variant set is closed: raw 8-bit RGBA channels, or the fixed preset
/// shade. Conversion to the normalized float triple the shader consumes is
/// the embedding's job; the pipeline itself only carries the channels.
#[derive(Clone, Copy, PartialEq, Eq, Structural, Debug)]
pub enum Color {
    /// Raw RGBA channels, one byte each.
    Rgb8(u8, u8, u8, u8),
    /// The fixed preset: an opaque 8/255 gray.
    Preset,
}

impl Color {
    /// The RGBA channel quadruple this color denotes.
    pub open spec fn as_rgba8_spec(self) -> (u8, u8, u8, u8) {
        match self {
            Color::Rgb8(r, g, b, a) => (r, g, b, a),
            Color::Preset => (8u8, 8u8, 8u8, 255u8),
        }
    }

    /// Flattens the color to its RGBA channels. The embedding divides each
    /// channel by 255 to obtain the shader's normalized components.
    pub fn as_rgba8(&self) -> (c: (u8, u8, u8, u8))
        ensures
            c == self.as_rgba8_spec(),
    {
        match self {
            Color::Rgb8(r, g, b, a) => (*r, *g, *b, *a),
            Color::Preset => (8u8, 8u8, 8u8, 255u8),
        }
    }

    /// Builds a color from raw RGBA channels.
    pub fn rgb(r: u8, g: u8, b: u8, a: u8) -> (c: Color)
        ensures
            c == Color::Rgb8(r, g, b, a),
    {
        Color::Rgb8(r, g, b, a)
    }
}

} // verus!
