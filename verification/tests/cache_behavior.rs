//! Cache behavior: hits, misses, the missing-glyph sentinel, degradation,
//! and entry independence.

use glyphcache::cache::{GlyphCache, ResolveOutcome};
use glyphcache::glyph::{FontMetrics, RawGlyph};
use glyphcache::identity::{identity_key, GlyphIdentity, MISSING_SENTINEL};

fn metrics() -> FontMetrics {
    FontMetrics { ascent: 12, descent: -3, average_advance: 7 }
}

fn raw(width: i32, rows: i32, left: i32, top: i32, advance: i64) -> RawGlyph {
    let mut pixels = Vec::new();
    let mut i = 0;
    while i < width * rows {
        pixels.push((i % 251) as u8);
        i += 1;
    }
    RawGlyph { width, rows, pixels, left, top, advance }
}

#[test]
fn distinct_characters_pack_to_distinct_keys() {
    let a = GlyphIdentity { font_id: 1, size: 16, ch: 'a' };
    let b = GlyphIdentity { font_id: 1, size: 16, ch: 'b' };
    let s = GlyphIdentity { font_id: 1, size: 16, ch: MISSING_SENTINEL };
    assert_ne!(identity_key(a), identity_key(b));
    assert_ne!(identity_key(a), identity_key(s));
    let other_font = GlyphIdentity { font_id: 2, size: 16, ch: 'a' };
    let other_size = GlyphIdentity { font_id: 1, size: 17, ch: 'a' };
    assert_ne!(identity_key(a), identity_key(other_font));
    assert_ne!(identity_key(a), identity_key(other_size));
}

#[test]
fn entries_of_distinct_characters_are_never_aliased() {
    let mut cache = GlyphCache::new(1, 16, metrics());
    let ra = cache.insert_glyph('a', &raw(4, 6, 1, 5, 640));
    let rb = cache.insert_glyph('b', &raw(3, 6, 1, 5, 320));
    // each entry owns its own texture
    assert_ne!(ra.record.tex, rb.record.tex);
    // and mutating the cache for b left a's entry untouched
    let got_a = cache.lookup('a').unwrap();
    let got_b = cache.lookup('b').unwrap();
    assert_eq!(got_a, ra.record);
    assert_eq!(got_b, rb.record);
}

#[test]
fn repeated_resolution_is_idempotent_and_never_rerasterizes() {
    let mut cache = GlyphCache::new(1, 16, metrics());
    let inserted = cache.insert_glyph('q', &raw(5, 7, 2, 6, 704));
    assert_eq!(inserted.outcome, ResolveOutcome::Inserted);
    let calls_after_insert = cache.raster_calls;
    let first = cache.resolve(None, 'q', true);
    let second = cache.resolve(None, 'q', true);
    assert_eq!(first.outcome, ResolveOutcome::Hit);
    assert_eq!(second.outcome, ResolveOutcome::Hit);
    // bit-identical metrics and the same texture handle every time
    assert_eq!(first.record, inserted.record);
    assert_eq!(second.record, inserted.record);
    // no rasterizer call and no new GPU work on a hit
    assert_eq!(cache.raster_calls, calls_after_insert);
    assert!(first.upload.is_none());
    assert!(second.upload.is_none());
    assert_eq!(cache.glyphs.len(), 1);
}

#[test]
fn missing_placeholder_is_cached_once_under_the_sentinel() {
    let mut cache = GlyphCache::new(1, 16, metrics());
    let placeholder = cache.insert_missing_placeholder(&raw(6, 8, 0, 8, 768));
    assert_eq!(placeholder.outcome, ResolveOutcome::MissingInserted);
    assert!(placeholder.upload.is_some());
    // exactly one entry, filed under the reserved null character
    assert_eq!(cache.glyphs.len(), 1);
    let shared = cache.lookup(MISSING_SENTINEL).unwrap();
    assert_eq!(shared, placeholder.record);
    // ordinary characters are still absent: the sentinel aliases nobody
    assert!(cache.lookup('x').is_none());
}

#[test]
fn rasterization_failure_degrades_without_caching() {
    let mut cache = GlyphCache::new(1, 16, metrics());
    // no rasterizer at all: every miss degrades to the zero-sized default
    let r = cache.resolve(None, 'z', true);
    assert_eq!(r.outcome, ResolveOutcome::Degraded);
    assert_eq!(r.record.width, 0);
    assert_eq!(r.record.height, 0);
    assert_eq!(r.record.advance, 0);
    // a texture was still allocated and owed an (empty) upload
    let up = r.upload.unwrap();
    assert_eq!(up.handle, r.record.tex);
    assert_eq!(up.pixels.len(), 0);
    // nothing was cached, so a later call may retry
    assert!(cache.lookup('z').is_none());
    assert_eq!(cache.glyphs.len(), 0);
    // and the retry allocates a fresh texture rather than aliasing
    let r2 = cache.resolve(None, 'z', true);
    assert_ne!(r2.record.tex, r.record.tex);
}

#[test]
fn inserted_record_carries_adjusted_bearings() {
    let mut cache = GlyphCache::new(1, 16, metrics());
    let g = raw(4, 6, 2, 5, 640);
    let r = cache.insert_glyph('g', &g);
    // visible width: horizontal bearing is the rasterizer's, vertical is
    // shifted by the font's descent so all glyphs share a baseline
    assert_eq!(r.record.bearing_x, 2);
    assert_eq!(r.record.bearing_y, 5 + metrics().descent);
    assert_eq!(r.record.width, 4);
    assert_eq!(r.record.height, 6);
    assert_eq!(r.record.advance, 640);
    // the upload carries the bitmap verbatim under the record's texture
    let up = r.upload.unwrap();
    assert_eq!(up.handle, r.record.tex);
    assert_eq!(up.width, 4);
    assert_eq!(up.height, 6);
    assert_eq!(up.pixels, g.pixels);
}

#[test]
fn zero_width_glyph_gets_average_advance_bearing_offset() {
    let mut cache = GlyphCache::new(1, 16, metrics());
    let combining = raw(0, 0, 3, 4, 0);
    let r = cache.insert_glyph('\u{0301}', &combining);
    // the bearing-x offset equals the font-wide average advance exactly
    assert_eq!(r.record.bearing_x, 3 + metrics().average_advance);
    let visible = raw(2, 2, 3, 4, 128);
    let v = cache.insert_glyph('o', &visible);
    assert_eq!(v.record.bearing_x, 3);
}
