//! Draw pipeline behavior: pen movement, quad geometry, scaling, and the
//! emitted command data.

use glyphcache::cache::GlyphCache;
use glyphcache::color::Color;
use glyphcache::draw::draw_text;
use glyphcache::glyph::{FontMetrics, RawGlyph};
use glyphcache::shader::CharShaderProgram;

fn metrics() -> FontMetrics {
    FontMetrics { ascent: 12, descent: 0, average_advance: 7 }
}

fn program() -> CharShaderProgram {
    CharShaderProgram { id: 9, projection: 4, vao: 1, vbo: 2 }
}

fn raw(width: i32, rows: i32, left: i32, top: i32, advance: i64) -> RawGlyph {
    let mut pixels = Vec::new();
    let mut i = 0;
    while i < width * rows {
        pixels.push(255u8);
        i += 1;
    }
    RawGlyph { width, rows, pixels, left, top, advance }
}

#[test]
fn empty_text_issues_no_draw_calls_and_keeps_the_pen() {
    let mut cache = GlyphCache::new(1, 16, metrics());
    let text: Vec<char> = Vec::new();
    let out = draw_text(&program(), &mut cache, None, &text, 640, 320, 64, &Color::Preset);
    assert_eq!(out.draws.len(), 0);
    assert_eq!(out.resolved.len(), 0);
    assert_eq!(out.pen_x, 640);
    assert_eq!(out.program, 9);
    assert_eq!(cache.glyphs.len(), 0);
    assert_eq!(cache.raster_calls, 0);
}

#[test]
fn single_glyph_advances_pen_by_its_advance_at_natural_scale() {
    let mut cache = GlyphCache::new(1, 16, metrics());
    // advance of 10 whole pixels, in 1/64 units
    let a = cache.insert_glyph('A', &raw(6, 8, 1, 8, 10 * 64));
    let text = vec!['A'];
    // scale 64 is 1.0; positions are in 1/64-pixel units
    let out = draw_text(&program(), &mut cache, None, &text, 0, 0, 64, &Color::Preset);
    // exactly one six-vertex draw call, bound to A's texture
    assert_eq!(out.draws.len(), 1);
    assert_eq!(out.draws[0].tex, a.record.tex);
    assert_eq!(out.draws[0].verts.len(), 6);
    // the pen advanced by exactly (advance >> 6) * 1.0 pixels
    assert_eq!(out.pen_x, (10 * 64 >> 6) * 64);
    assert_eq!(out.pen_x, 10 * 64);
}

#[test]
fn two_glyphs_at_double_scale_offset_by_scaled_advance() {
    let mut cache = GlyphCache::new(1, 16, metrics());
    // equal bearings so the quad offset is exactly the pen offset
    let a = cache.insert_glyph('A', &raw(6, 8, 1, 8, 10 * 64));
    let b = cache.insert_glyph('B', &raw(5, 7, 1, 7, 9 * 64));
    let text = vec!['A', 'B'];
    // scale 128 is 2.0
    let out = draw_text(&program(), &mut cache, None, &text, 256, 0, 128, &Color::Preset);
    assert_eq!(out.draws.len(), 2);
    assert_eq!(out.draws[0].tex, a.record.tex);
    assert_eq!(out.draws[1].tex, b.record.tex);
    // B's quad sits exactly (advance_A >> 6) * 2.0 pixels right of A's
    let offset = out.draws[1].verts[0].x - out.draws[0].verts[0].x;
    assert_eq!(offset, (10 * 64 >> 6) * 128);
    // both quads' heights scale by exactly 2.0 over the native bitmaps
    let height_a = out.draws[0].verts[0].y - out.draws[0].verts[1].y;
    let height_b = out.draws[1].verts[0].y - out.draws[1].verts[1].y;
    assert_eq!(height_a, 8 * 128);
    assert_eq!(height_b, 7 * 128);
    // and the pen walked both scaled advances
    assert_eq!(out.pen_x, 256 + 10 * 128 + 9 * 128);
}

#[test]
fn quad_corners_follow_pen_bearing_and_bitmap() {
    let mut cache = GlyphCache::new(1, 16, metrics());
    cache.insert_glyph('A', &raw(6, 8, 2, 5, 10 * 64));
    let text = vec!['A'];
    let out = draw_text(&program(), &mut cache, None, &text, 64, 320, 64, &Color::Preset);
    let v = &out.draws[0].verts;
    // left edge: pen + bearing_x * scale; bottom: y - (h - bearing_y) * scale
    let left = 64 + 2 * 64;
    let bottom = 320 - (8 - 5) * 64;
    let w = 6 * 64;
    let h = 8 * 64;
    // vertex order: two triangles, vertically flipped texture coordinates
    assert_eq!((v[0].x, v[0].y, v[0].u, v[0].v), (left, bottom + h, 0, 0));
    assert_eq!((v[1].x, v[1].y, v[1].u, v[1].v), (left, bottom, 0, 1));
    assert_eq!((v[2].x, v[2].y, v[2].u, v[2].v), (left + w, bottom, 1, 1));
    assert_eq!((v[3].x, v[3].y, v[3].u, v[3].v), (left, bottom + h, 0, 0));
    assert_eq!((v[4].x, v[4].y, v[4].u, v[4].v), (left + w, bottom, 1, 1));
    assert_eq!((v[5].x, v[5].y, v[5].u, v[5].v), (left + w, bottom + h, 1, 0));
}

#[test]
fn drawing_is_total_even_without_a_rasterizer() {
    let mut cache = GlyphCache::new(1, 16, metrics());
    cache.insert_glyph('h', &raw(4, 6, 1, 6, 8 * 64));
    // 'h' is cached, '∅' cannot be rasterized: the draw still covers both
    let text = vec!['h', '\u{2205}'];
    let out = draw_text(&program(), &mut cache, None, &text, 0, 0, 64, &Color::Preset);
    assert_eq!(out.draws.len(), 2);
    // the degraded quad is zero-sized and advances the pen by nothing
    assert_eq!(out.pen_x, 8 * 64);
    let v = &out.draws[1].verts;
    assert_eq!(v[0].x, v[2].x);
    assert_eq!(v[0].y, v[1].y);
    // the failure was not cached, so the character may be retried later
    assert!(cache.lookup('\u{2205}').is_none());
}

#[test]
fn color_uniform_is_set_once_from_the_requested_color() {
    let mut cache = GlyphCache::new(1, 16, metrics());
    let text = vec![];
    let out = draw_text(
        &program(),
        &mut cache,
        None,
        &text,
        0,
        0,
        64,
        &Color::rgb(200, 30, 30, 255),
    );
    assert_eq!(out.color, (200, 30, 30, 255));
    let out2 = draw_text(&program(), &mut cache, None, &text, 0, 0, 64, &Color::Preset);
    assert_eq!(out2.color, (8, 8, 8, 255));
}
