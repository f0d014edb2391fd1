//! The text layout and draw pipeline: walks a string as Unicode scalars,
//! resolves each through the glyph cache, and emits one positioned,
//! textured quad per character while the pen advances by each glyph's own
//! metric — strictly left to right, no wrapping, no kerning.
//!
//! Positions are in 1/64-pixel fixed point of the target coordinate space.
//! The `scale` factor is in the same unit: 64 is natural size, 128 doubles
//! every dimension.

use vstd::prelude::*;

use crate::cache::{GlyphCache, ResolveOutcome, ResolveResult};
use crate::color::Color;
use crate::glyph::{valid_record, GlyphRecord};
use crate::gpu::{GlyphDraw, QuadVertex};
use crate::shader::CharShaderProgram;

verus! {

/// A glyph's advance in whole pixels: the rasterizer reports 1/64-pixel
/// units, so the pen moves by the advance shifted down six bits.
pub open spec fn advance_px_spec(rec: GlyphRecord) -> int {
    (rec.advance as int) / 64
}

/// Where the pen stands after drawing `records` left to right from `x0`:
/// each glyph moves it right by its whole-pixel advance times the scale.
pub open spec fn pen_after(records: Seq<GlyphRecord>, x0: int, scale: int) -> int
    decreases records.len(),
{
    if records.len() == 0 {
        x0
    } else {
        pen_after(records.drop_last(), x0, scale) + advance_px_spec(records.last()) * scale
    }
}

/// Appending one glyph moves the final pen right by that glyph's scaled
/// advance.
pub proof fn lemma_pen_after_push(records: Seq<GlyphRecord>, rec: GlyphRecord, x0: int, scale: int)
    ensures
        pen_after(records.push(rec), x0, scale) == pen_after(records, x0, scale)
            + advance_px_spec(rec) * scale,
{
    assert(records.push(rec).drop_last() =~= records);
    assert(records.push(rec).last() == rec);
}

/// The quad's left edge: the pen plus the glyph's scaled horizontal
/// bearing.
pub open spec fn quad_left(rec: GlyphRecord, pen_x: int, scale: int) -> int {
    pen_x + (rec.bearing_x as int) * scale
}

/// The quad's bottom edge: the pen's baseline minus the scaled descent of
/// the bitmap below it.
pub open spec fn quad_bottom(rec: GlyphRecord, pen_y: int, scale: int) -> int {
    pen_y - ((rec.height as int) - (rec.bearing_y as int)) * scale
}

/// The quad's width: the bitmap width times the scale.
pub open spec fn quad_width(rec: GlyphRecord, scale: int) -> int {
    (rec.width as int) * scale
}

/// The quad's height: the bitmap height times the scale.
pub open spec fn quad_height(rec: GlyphRecord, scale: int) -> int {
    (rec.height as int) * scale
}

/// The six vertices (two triangles) of one glyph quad, with texture
/// coordinates spanning the full [0,1]x[0,1] extent of the glyph's
/// texture, vertically flipped relative to bitmap row order.
pub open spec fn quad_verts_spec(rec: GlyphRecord, pen_x: int, pen_y: int, scale: int) -> Seq<
    QuadVertex,
> {
    let l = quad_left(rec, pen_x, scale);
    let b = quad_bottom(rec, pen_y, scale);
    let w = quad_width(rec, scale);
    let h = quad_height(rec, scale);
    seq![
        QuadVertex { x: l as i64, y: (b + h) as i64, u: 0, v: 0 },
        QuadVertex { x: l as i64, y: b as i64, u: 0, v: 1 },
        QuadVertex { x: (l + w) as i64, y: b as i64, u: 1, v: 1 },
        QuadVertex { x: l as i64, y: (b + h) as i64, u: 0, v: 0 },
        QuadVertex { x: (l + w) as i64, y: b as i64, u: 1, v: 1 },
        QuadVertex { x: (l + w) as i64, y: (b + h) as i64, u: 1, v: 0 },
    ]
}

/// Builds the draw call of one glyph at the given pen position: its
/// texture bound, and exactly the six vertices of [`quad_verts_spec`].
pub fn glyph_quad(rec: &GlyphRecord, pen_x: i64, pen_y: i64, scale: i64) -> (d: GlyphDraw)
    requires
        valid_record(*rec),
        -0x4_0000_0000_0000 <= pen_x <= 0x4_0000_0000_0000,
        -0x4_0000_0000_0000 <= pen_y <= 0x4_0000_0000_0000,
        0 <= scale <= 0x1000,
    ensures
        d.tex == rec.tex,
        d.verts@ == quad_verts_spec(*rec, pen_x as int, pen_y as int, scale as int),
{
    proof {
        assert((-0x8_0000_0000_0000 <= (rec.bearing_x as int) * (scale as int)
            <= 0x8_0000_0000_0000) && (-0x8_0000_0000_0000 <= ((rec.height as int) - (
        rec.bearing_y as int)) * (scale as int) <= 0x8_0000_0000_0000) && (0 <= (
        rec.width as int) * (scale as int) <= 0x8_0000_0000_0000) && (0 <= (rec.height as int)
            * (scale as int) <= 0x8_0000_0000_0000)) by (nonlinear_arith)
            requires
                -0x80_0000 <= rec.bearing_x <= 0x80_0000,
                -0x80_0000 <= rec.bearing_y <= 0x80_0000,
                rec.width <= 0x1_0000,
                rec.height <= 0x1_0000,
                0 <= scale <= 0x1000,
        ;
    }
    let l: i64 = pen_x + (rec.bearing_x as i64) * scale;
    let b: i64 = pen_y - ((rec.height as i64) - (rec.bearing_y as i64)) * scale;
    let w: i64 = (rec.width as i64) * scale;
    let h: i64 = (rec.height as i64) * scale;
    let mut verts: Vec<QuadVertex> = Vec::new();
    verts.push(QuadVertex { x: l, y: b + h, u: 0, v: 0 });
    verts.push(QuadVertex { x: l, y: b, u: 0, v: 1 });
    verts.push(QuadVertex { x: l + w, y: b, u: 1, v: 1 });
    verts.push(QuadVertex { x: l, y: b + h, u: 0, v: 0 });
    verts.push(QuadVertex { x: l + w, y: b, u: 1, v: 1 });
    verts.push(QuadVertex { x: l + w, y: b + h, u: 1, v: 0 });
    proof {
        assert(verts@ =~= quad_verts_spec(*rec, pen_x as int, pen_y as int, scale as int));
    }
    GlyphDraw { tex: rec.tex, verts }
}

/// The records a sequence of resolve results carries, in order.
pub open spec fn records_of(rs: Seq<ResolveResult>) -> Seq<GlyphRecord> {
    rs.map_values(|rr: ResolveResult| rr.record)
}

/// Everything one `draw_text` call asks of the GPU, in order: bind
/// `program` and set its color uniform to `color`, perform the texture
/// uploads carried inside `resolved`, then play the `draws` — one
/// six-vertex triangle draw per input character. `pen_x` is where the pen
/// came to rest.
pub struct DrawOutput {
    pub program: u32,
    pub color: (u8, u8, u8, u8),
    pub resolved: Vec<ResolveResult>,
    pub draws: Vec<GlyphDraw>,
    pub pen_x: i64,
}

/// Draws `text` at `(x, y)` scaled by `scale` in `color`: resolves every
/// character through the cache (missing glyphs fall back to the shared
/// placeholder), emits one quad per character, and advances the pen by each
/// glyph's scaled whole-pixel advance. Total over all of Unicode: every
/// character yields a quad, possibly zero-sized, and the call never fails
/// part way through a string.
#[verifier::loop_isolation(false)]
pub fn draw_text(
    program: &CharShaderProgram,
    cache: &mut GlyphCache,
    face: Option<&freetype::face::Face>,
    text: &[char],
    x: i64,
    y: i64,
    scale: i64,
    color: &Color,
) -> (out: DrawOutput)
    requires
        old(cache).wf(),
        old(cache).next_handle as int + text@.len() < 0xFFFF_FFFF,
        old(cache).raster_calls as int + text@.len() < 0xFFFF_FFFF_FFFF_FFFF,
        -0x8000_0000 <= x <= 0x8000_0000,
        -0x8000_0000 <= y <= 0x8000_0000,
        0 <= scale <= 0x1000,
        text@.len() <= 0x1000,
    ensures
        final(cache).wf(),
        old(cache).same_font(*final(cache)),
        old(cache).glyphs@.submap_of(final(cache).glyphs@),
        out.program == program.id,
        out.color == color.as_rgba8_spec(),
        out.resolved@.len() == text@.len(),
        out.draws@.len() == text@.len(),
        forall|i: int|
            #![trigger out.draws@[i]]
            0 <= i < text@.len() ==> out.draws@[i].tex == out.resolved@[i].record.tex
                && out.draws@[i].verts@ == quad_verts_spec(
                out.resolved@[i].record,
                pen_after(records_of(out.resolved@).take(i), x as int, scale as int),
                y as int,
                scale as int,
            ),
        forall|i: int|
            #![trigger out.resolved@[i]]
            0 <= i < text@.len() ==> valid_record(out.resolved@[i].record),
        forall|i: int|
            #![trigger out.resolved@[i]]
            0 <= i < text@.len() ==> (out.resolved@[i].upload matches Some(u) ==> u.handle
                == out.resolved@[i].record.tex),
        out.pen_x == pen_after(records_of(out.resolved@), x as int, scale as int),
        forall|i: int|
            #![trigger out.resolved@[i]]
            0 <= i < text@.len() && old(cache).contains_spec(text@[i]) ==> out.resolved@[i].record
                == old(cache).record_spec(text@[i]) && out.resolved@[i].outcome
                == ResolveOutcome::Hit,
        text@.len() == 0 ==> *final(cache) == *old(cache) && out.pen_x == x,
{
    let ghost cache0 = *old(cache);
    let color_rgba = color.as_rgba8();
    let mut resolved: Vec<ResolveResult> = Vec::new();
    let mut draws: Vec<GlyphDraw> = Vec::new();
    let mut pen: i64 = x;
    let mut i: usize = 0;
    while i < text.len()
        invariant
            i <= text@.len(),
            text@.len() <= 0x1000,
            -0x8000_0000 <= x <= 0x8000_0000,
            -0x8000_0000 <= y <= 0x8000_0000,
            0 <= scale <= 0x1000,
            resolved@.len() == i,
            draws@.len() == i,
            cache.wf(),
            cache0.same_font(*cache),
            cache.next_handle as int <= cache0.next_handle as int + i,
            cache0.next_handle as int + text@.len() < 0xFFFF_FFFF,
            cache.raster_calls as int <= cache0.raster_calls as int + i,
            cache0.raster_calls as int + text@.len() < 0xFFFF_FFFF_FFFF_FFFF,
            cache0.glyphs@.submap_of(cache.glyphs@),
            pen == pen_after(records_of(resolved@), x as int, scale as int),
            x <= pen <= x + i * 0x1000_0000,
            forall|j: int|
                #![trigger draws@[j]]
                0 <= j < i ==> draws@[j].tex == resolved@[j].record.tex && draws@[j].verts@
                    == quad_verts_spec(
                    resolved@[j].record,
                    pen_after(records_of(resolved@).take(j), x as int, scale as int),
                    y as int,
                    scale as int,
                ),
            forall|j: int|
                #![trigger resolved@[j]]
                0 <= j < i ==> valid_record(resolved@[j].record),
            forall|j: int|
                #![trigger resolved@[j]]
                0 <= j < i ==> (resolved@[j].upload matches Some(u) ==> u.handle
                    == resolved@[j].record.tex),
            forall|j: int|
                #![trigger resolved@[j]]
                0 <= j < i && cache0.contains_spec(text@[j]) ==> resolved@[j].record == cache0.record_spec(text@[j]) && resolved@[j].outcome == ResolveOutcome::Hit,
            i == 0 ==> *cache == cache0,
        decreases text@.len() - i,
    {
        let ch = text[i];
        let ghost pre = *cache;
        let ghost old_res = resolved@;
        let ghost old_pen = pen as int;
        let r = cache.resolve(face, ch, true);
        let d = glyph_quad(&r.record, pen, y, scale);
        let adv_px: i64 = ((r.record.advance as u64) / 64) as i64;
        proof {
            assert(adv_px == advance_px_spec(r.record));
            assert(0 <= adv_px <= 0x1_0000);
            assert(0 <= adv_px * (scale as int) <= 0x1000_0000) by (nonlinear_arith)
                requires
                    0 <= adv_px <= 0x1_0000,
                    0 <= scale <= 0x1000,
            ;
            lemma_pen_after_push(records_of(old_res), r.record, x as int, scale as int);
        }
        pen = pen + adv_px * scale;
        resolved.push(r);
        draws.push(d);
        proof {
            assert(records_of(resolved@) =~= records_of(old_res).push(r.record));
            assert(pen == pen_after(records_of(resolved@), x as int, scale as int));
            assert(cache0.glyphs@.submap_of(pre.glyphs@));
            assert(pre.glyphs@.submap_of(cache.glyphs@)) by {
                assert forall|k: u64| #[trigger] pre.glyphs@.dom().contains(k) implies
                    cache.glyphs@.dom().contains(k) && pre.glyphs@[k] == cache.glyphs@[k] by {
                    // name the entry so the resolve call's frame facts
                    // instantiate at this key
                    let entry = pre.glyphs@[k];
                    assert(pre.glyphs@.contains_key(k));
                    assert(cache.glyphs@.contains_key(k));
                }
            }
            vstd::map_lib::lemma_submap_of_trans(cache0.glyphs@, pre.glyphs@, cache.glyphs@);
            assert forall|j: int| 0 <= j < i + 1 implies (#[trigger] draws@[j]).tex
                == resolved@[j].record.tex && draws@[j].verts@ == quad_verts_spec(
                resolved@[j].record,
                pen_after(records_of(resolved@).take(j), x as int, scale as int),
                y as int,
                scale as int,
            ) by {
                if j < i {
                    assert(resolved@[j] == old_res[j]);
                    assert(records_of(resolved@).take(j) =~= records_of(old_res).take(j));
                } else {
                    assert(resolved@[j] == r);
                    assert(draws@[j] == d);
                    assert(records_of(resolved@).take(j) =~= records_of(old_res));
                    assert(old_pen == pen_after(records_of(old_res), x as int, scale as int));
                }
            }
            assert forall|j: int| 0 <= j < i + 1 && cache0.contains_spec(text@[j]) implies (
            #[trigger] resolved@[j]).record == cache0.record_spec(text@[j])
                && resolved@[j].outcome == ResolveOutcome::Hit by {
                if j < i {
                    assert(resolved@[j] == old_res[j]);
                } else {
                    assert(pre.key_of(ch) == cache0.key_of(ch));
                    assert(cache0.glyphs@.dom().contains(cache0.key_of(ch)));
                    assert(pre.glyphs@.contains_key(cache0.key_of(ch)));
                    assert(pre.contains_spec(ch));
                    assert(r.outcome == ResolveOutcome::Hit);
                    assert(pre.record_spec(ch) == cache0.record_spec(ch));
                }
            }
        }
        i = i + 1;
    }
    proof {
        assert(records_of(resolved@).take(text@.len() as int) =~= records_of(resolved@));
    }
    DrawOutput { program: program.id, color: color_rgba, resolved, draws, pen_x: pen }
}

} // verus!
