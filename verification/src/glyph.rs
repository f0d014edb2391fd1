//! Glyph data: what the rasterizer hands back, the font-wide metrics, and
//! the records the cache keeps.

use vstd::prelude::*;

verus! {

/// One rasterized character as the rasterization backend reports it: a
/// single-channel bitmap (one byte per pixel, row-major) plus per-glyph
/// metrics. Dimensions and bearings are in whole pixels; the advance is in
/// the rasterizer's 1/64-pixel subpixel units.
#[derive(Clone, Debug)]
pub struct RawGlyph {
    pub width: i32,
    pub rows: i32,
    pub pixels: Vec<u8>,
    pub left: i32,
    pub top: i32,
    pub advance: i64,
}

/// Font-wide metrics, in whole pixels, probed once per cache at
/// construction and used to adjust every glyph's bearing.
#[derive(Clone, Copy, PartialEq, Eq, Structural, Debug)]
pub struct FontMetrics {
    pub ascent: i32,
    pub descent: i32,
    pub average_advance: i32,
}

/// A cached glyph: the GPU texture handle its bitmap lives under (owned by
/// the cache entry) and the layout metrics the draw pipeline reads.
/// Immutable after creation.
#[derive(Clone, Copy, PartialEq, Eq, Structural, Debug)]
pub struct GlyphRecord {
    pub tex: u32,
    pub width: u32,
    pub height: u32,
    pub bearing_x: i32,
    pub bearing_y: i32,
    pub advance: i64,
}

/// Bounds under which a rasterizer answer is taken at face value. Anything
/// outside them (a bitmap whose buffer does not match its dimensions, an
/// absurd bearing, a negative or huge advance) is treated as a rasterization
/// failure, so that every later fixed-point computation provably fits i64.
pub open spec fn valid_raw(g: RawGlyph) -> bool {
    &&& 0 <= g.width <= 0x1_0000
    &&& 0 <= g.rows <= 0x1_0000
    &&& -0x1_0000 <= g.left <= 0x1_0000
    &&& -0x1_0000 <= g.top <= 0x1_0000
    &&& 0 <= g.advance <= 0x40_0000
    &&& g.pixels@.len() == g.width * g.rows
}

/// Bounds every stored font metric satisfies.
pub open spec fn valid_metrics(m: FontMetrics) -> bool {
    &&& -0x40_0000 <= m.ascent <= 0x40_0000
    &&& -0x40_0000 <= m.descent <= 0x40_0000
    &&& -0x40_0000 <= m.average_advance <= 0x40_0000
}

/// Bounds every record in a well-formed cache satisfies.
pub open spec fn valid_record(r: GlyphRecord) -> bool {
    &&& r.width <= 0x1_0000
    &&& r.height <= 0x1_0000
    &&& -0x80_0000 <= r.bearing_x <= 0x80_0000
    &&& -0x80_0000 <= r.bearing_y <= 0x80_0000
    &&& 0 <= r.advance <= 0x40_0000
}

/// Checks [`valid_raw`] on a concrete rasterizer answer.
pub fn raw_is_valid(g: &RawGlyph) -> (ok: bool)
    ensures
        ok == valid_raw(*g),
{
    if g.width < 0 || g.width > 0x1_0000 || g.rows < 0 || g.rows > 0x1_0000 {
        return false;
    }
    if g.left < -0x1_0000 || g.left > 0x1_0000 || g.top < -0x1_0000 || g.top > 0x1_0000 {
        return false;
    }
    if g.advance < 0 || g.advance > 0x40_0000 {
        return false;
    }
    let w: u64 = g.width as u64;
    let rows: u64 = g.rows as u64;
    assert(w <= 0x1_0000 && rows <= 0x1_0000);
    assert(w * rows <= 0x1_0000_0000) by (nonlinear_arith)
        requires
            w <= 0x1_0000,
            rows <= 0x1_0000,
    ;
    g.pixels.len() as u64 == w * rows
}

/// The record a valid rasterizer answer turns into, under texture handle
/// `tex`: the bitmap's dimensions and advance carried over, and the bearing
/// adjusted so independently drawn glyphs share a baseline. The vertical
/// bearing is shifted by the font's descent; a zero-width glyph (a combining
/// mark) additionally has its horizontal bearing increased by the font's
/// average advance, so it does not visually collide with the glyph it would
/// combine with when drawn on its own.
pub open spec fn adjusted_record_spec(g: RawGlyph, m: FontMetrics, tex: u32) -> GlyphRecord {
    GlyphRecord {
        tex,
        width: g.width as u32,
        height: g.rows as u32,
        bearing_x: if g.width == 0 {
            (g.left + m.average_advance) as i32
        } else {
            g.left
        },
        bearing_y: (g.top + m.descent) as i32,
        advance: g.advance,
    }
}

/// Builds the cached record for a rasterized glyph: [`adjusted_record_spec`]
/// in executable form, with the result provably within [`valid_record`].
pub fn adjust_record(g: &RawGlyph, m: &FontMetrics, tex: u32) -> (r: GlyphRecord)
    requires
        valid_raw(*g),
        valid_metrics(*m),
    ensures
        r == adjusted_record_spec(*g, *m, tex),
        valid_record(r),
{
    GlyphRecord {
        tex,
        width: g.width as u32,
        height: g.rows as u32,
        bearing_x: if g.width == 0 {
            g.left + m.average_advance
        } else {
            g.left
        },
        bearing_y: g.top + m.descent,
        advance: g.advance,
    }
}

/// The degraded glyph used when rasterization fails outright: zero-sized,
/// no bearing, no advance, but still backed by its own texture `tex`.
pub open spec fn default_record_spec(tex: u32) -> GlyphRecord {
    GlyphRecord { tex, width: 0, height: 0, bearing_x: 0, bearing_y: 0, advance: 0 }
}

/// A 1/64-pixel metric converted to whole pixels, rounding toward zero;
/// values outside the trusted range fall back to zero.
pub open spec fn metric_px_spec(v: i64) -> int {
    if 0 <= v <= 0x1000_0000 {
        (v as int) / 64
    } else if -0x1000_0000 <= v < 0 {
        -((-(v as int)) / 64)
    } else {
        0
    }
}

/// Exec counterpart of [`metric_px_spec`], with the result provably within
/// the [`valid_metrics`] bounds.
pub fn metric_px(v: i64) -> (p: i32)
    ensures
        p as int == metric_px_spec(v),
        -0x40_0000 <= p <= 0x40_0000,
{
    if 0 <= v && v <= 0x1000_0000 {
        let q: u64 = (v as u64) / 64;
        q as i32
    } else if -0x1000_0000 <= v && v < 0 {
        let q: u64 = ((-v) as u64) / 64;
        -(q as i32)
    } else {
        0
    }
}

/// The font-wide metrics a construction-time probe yields: ascender and
/// descender from the rasterizer's size metrics, the average advance from
/// the representative probe glyph's advance, each converted from 1/64-pixel
/// units to whole pixels and zero when the probe gave no answer.
pub open spec fn derive_metrics_spec(sm: Option<(i64, i64)>, probe_advance: Option<i64>) -> FontMetrics {
    FontMetrics {
        ascent: (match sm {
            Some(p) => metric_px_spec(p.0),
            None => 0,
        }) as i32,
        descent: (match sm {
            Some(p) => metric_px_spec(p.1),
            None => 0,
        }) as i32,
        average_advance: (match probe_advance {
            Some(a) => metric_px_spec(a),
            None => 0,
        }) as i32,
    }
}

/// Exec counterpart of [`derive_metrics_spec`].
pub fn derive_metrics(sm: Option<(i64, i64)>, probe_advance: Option<i64>) -> (m: FontMetrics)
    ensures
        m == derive_metrics_spec(sm, probe_advance),
        valid_metrics(m),
{
    let ascent: i32 = match sm {
        Some(p) => metric_px(p.0),
        None => 0,
    };
    let descent: i32 = match sm {
        Some(p) => metric_px(p.1),
        None => 0,
    };
    let average_advance: i32 = match probe_advance {
        Some(a) => metric_px(a),
        None => 0,
    };
    FontMetrics { ascent, descent, average_advance }
}

/// A zero-width glyph's horizontal bearing is offset by exactly the font's
/// average advance; a glyph with visible width keeps the bearing the
/// rasterizer reported.
pub proof fn lemma_zero_width_bearing(g: RawGlyph, m: FontMetrics, tex: u32)
    requires
        valid_raw(g),
        valid_metrics(m),
    ensures
        g.width == 0 ==> adjusted_record_spec(g, m, tex).bearing_x == g.left + m.average_advance,
        g.width != 0 ==> adjusted_record_spec(g, m, tex).bearing_x == g.left,
{
}

} // verus!
