//! Trusted bindings to the FreeType rasterization backend.
//!
//! Each wrapper's body makes one FreeType call and copies the answer into
//! plain values. What a font face rasterizes depends on the font file it
//! was loaded from, so no wrapper promises anything about the bitmaps or
//! metrics that come back: the cache's verified logic handles every
//! possible answer, and bounds-checks each one before trusting it with
//! fixed-point arithmetic.

use vstd::prelude::*;

use crate::glyph::RawGlyph;

verus! {

/// FreeType's font face handle, opaque to verification. The embedding
/// creates it (loading a font file is I/O) and lends it to the cache.
#[verifier::external_type_specification]
#[verifier::external_body]
#[verifier::reject_recursive_types(BYTES)]
pub struct ExFace<BYTES>(freetype::face::Face<BYTES>);

/// Relies on Face::set_pixel_sizes (FT_Set_Pixel_Sizes): selects the pixel
/// size that later load calls rasterize at. Reports only whether FreeType
/// accepted the size.
#[verifier::external_body]
pub(crate) fn set_pixel_sizes(face: &freetype::face::Face, size: u32) -> bool {
    face.set_pixel_sizes(0, size).is_ok()
}

/// Relies on Face::get_char_index (FT_Get_Char_Index): `None` exactly when
/// the face has no glyph for the character. The cache treats `None` as the
/// missing-glyph case; nothing is assumed of the index itself.
#[verifier::external_body]
pub(crate) fn char_index(face: &freetype::face::Face, ch: char) -> Option<u32> {
    face.get_char_index(ch as usize)
}

/// Relies on Face::load_char with the RENDER flag (FT_Load_Char) and the
/// glyph-slot accessors bitmap, bitmap_left, bitmap_top and advance:
/// rasterizes one character and copies its bitmap and metrics out. `None`
/// when FreeType reports an error.
#[verifier::external_body]
pub(crate) fn rasterize_char(face: &freetype::face::Face, ch: char) -> Option<RawGlyph> {
    if face.load_char(ch as usize, freetype::face::LoadFlag::RENDER).is_err() {
        return None;
    }
    let slot = face.glyph();
    let bitmap = slot.bitmap();
    Some(RawGlyph {
        width: bitmap.width(),
        rows: bitmap.rows(),
        pixels: bitmap.buffer().to_vec(),
        left: slot.bitmap_left(),
        top: slot.bitmap_top(),
        advance: slot.advance().x as i64,
    })
}

/// Relies on Face::load_glyph with the RENDER flag (FT_Load_Glyph) at glyph
/// index 0, where FreeType keeps the face's missing-glyph placeholder, and
/// the same glyph-slot accessors as [`rasterize_char`].
#[verifier::external_body]
pub(crate) fn rasterize_placeholder(face: &freetype::face::Face) -> Option<RawGlyph> {
    if face.load_glyph(0, freetype::face::LoadFlag::RENDER).is_err() {
        return None;
    }
    let slot = face.glyph();
    let bitmap = slot.bitmap();
    Some(RawGlyph {
        width: bitmap.width(),
        rows: bitmap.rows(),
        pixels: bitmap.buffer().to_vec(),
        left: slot.bitmap_left(),
        top: slot.bitmap_top(),
        advance: slot.advance().x as i64,
    })
}

/// Relies on Face::size_metrics (FT_Size_Metrics): the face's ascender and
/// descender for the active size, in 1/64-pixel units.
#[verifier::external_body]
pub(crate) fn size_metrics(face: &freetype::face::Face) -> Option<(i64, i64)> {
    match face.size_metrics() {
        Some(m) => Some((m.ascender as i64, m.descender as i64)),
        None => None,
    }
}

} // verus!
