//! The glyph cache: resolves a glyph identity to a cached record,
//! rasterizing and uploading on first use.

use vstd::prelude::*;

use std::collections::HashMap;

use crate::glyph::{
    adjust_record, adjusted_record_spec, default_record_spec, derive_metrics, raw_is_valid,
    valid_metrics, valid_raw, valid_record, FontMetrics, GlyphRecord, RawGlyph,
};
use crate::gpu::TextureUpload;
use crate::identity::{
    identity_key, identity_key_spec, lemma_identity_key_injective, GlyphIdentity, MISSING_SENTINEL,
};
use crate::raster;

verus! {

broadcast use vstd::std_specs::hash::group_hash_axioms;

/// How a resolve call was satisfied.
#[derive(Clone, Copy, PartialEq, Eq, Structural, Debug)]
pub enum ResolveOutcome {
    /// The identity was already cached: no rasterization, no GPU work.
    Hit,
    /// First use of the identity: rasterized, uploaded, inserted.
    Inserted,
    /// The character has no glyph in the font and the shared missing-glyph
    /// placeholder was already cached: returned as-is, no rasterization.
    MissingHit,
    /// The character has no glyph in the font; the font's placeholder was
    /// rasterized, uploaded and inserted under the sentinel identity.
    MissingInserted,
    /// Rasterization failed (or was unavailable): a zero-sized default was
    /// uploaded and returned but not cached, so a later call may retry.
    Degraded,
}

/// What one resolve call hands back: the record to draw with, how it was
/// obtained, and, when a new texture came into being, the bitmap the GPU
/// still has to be given for it.
#[derive(Clone, Debug)]
pub struct ResolveResult {
    pub record: GlyphRecord,
    pub outcome: ResolveOutcome,
    pub upload: Option<TextureUpload>,
}

/// `u` is the upload of raw bitmap `g` under texture handle `handle`.
pub open spec fn upload_of_raw(u: TextureUpload, g: RawGlyph, handle: u32) -> bool {
    &&& u.handle == handle
    &&& u.width == g.width as u32
    &&& u.height == g.rows as u32
    &&& u.pixels@ == g.pixels@
}

/// `u` is the zero-sized upload backing a degraded default glyph.
pub open spec fn empty_upload(u: TextureUpload, handle: u32) -> bool {
    &&& u.handle == handle
    &&& u.width == 0
    &&& u.height == 0
    &&& u.pixels@.len() == 0
}

/// The glyph cache for one font face at one pixel size. It owns the mapping
/// from packed glyph identities to resident records, assigns every uploaded
/// texture a fresh handle, and counts its calls into the rasterizer.
pub struct GlyphCache {
    pub font_id: u16,
    pub size: u16,
    pub metrics: FontMetrics,
    pub glyphs: HashMap<u64, GlyphRecord>,
    pub next_handle: u32,
    pub raster_calls: u64,
}

impl GlyphCache {
    /// The identity this cache files character `ch` under.
    pub open spec fn identity_spec(self, ch: char) -> GlyphIdentity {
        GlyphIdentity { font_id: self.font_id, size: self.size, ch }
    }

    /// The packed map key of character `ch` in this cache.
    pub open spec fn key_of(self, ch: char) -> u64 {
        identity_key_spec(self.identity_spec(ch))
    }

    /// Whether `ch` has a cached record.
    pub open spec fn contains_spec(self, ch: char) -> bool {
        self.glyphs@.contains_key(self.key_of(ch))
    }

    /// The cached record of `ch`.
    pub open spec fn record_spec(self, ch: char) -> GlyphRecord {
        self.glyphs@[self.key_of(ch)]
    }

    /// Well-formedness: metrics and every record are within bounds, every
    /// record's texture handle was assigned below the allocation cursor, and
    /// no two entries share a texture — each record owns its GPU storage.
    pub open spec fn wf(self) -> bool {
        &&& valid_metrics(self.metrics)
        &&& 1 <= self.next_handle
        &&& forall|k: u64|
            self.glyphs@.contains_key(k) ==> valid_record(#[trigger] self.glyphs@[k])
                && self.glyphs@[k].tex < self.next_handle
        &&& forall|k1: u64, k2: u64|
            self.glyphs@.contains_key(k1) && self.glyphs@.contains_key(k2) && k1 != k2
                ==> #[trigger] self.glyphs@[k1].tex != #[trigger] self.glyphs@[k2].tex
    }

    /// The parts of the cache that no resolve call may change: which font it
    /// is for, and the font-wide metrics.
    pub open spec fn same_font(self, other: GlyphCache) -> bool {
        &&& self.font_id == other.font_id
        &&& self.size == other.size
        &&& self.metrics == other.metrics
    }

    /// An empty cache for font `font_id` at pixel size `size` with the given
    /// probed font-wide metrics.
    pub fn new(font_id: u16, size: u16, metrics: FontMetrics) -> (c: GlyphCache)
        requires
            valid_metrics(metrics),
        ensures
            c.wf(),
            c.font_id == font_id,
            c.size == size,
            c.metrics == metrics,
            c.glyphs@ == Map::<u64, GlyphRecord>::empty(),
            c.next_handle == 1,
            c.raster_calls == 0,
    {
        GlyphCache {
            font_id,
            size,
            metrics,
            glyphs: HashMap::new(),
            next_handle: 1,
            raster_calls: 0,
        }
    }

    /// Looks `ch` up without any side effect: `Some` exactly when a record
    /// is cached, and then that record.
    pub fn lookup(&self, ch: char) -> (r: Option<GlyphRecord>)
        ensures
            match r {
                Some(rec) => self.contains_spec(ch) && rec == self.record_spec(ch),
                None => !self.contains_spec(ch),
            },
    {
        let key: u64 = identity_key(GlyphIdentity { font_id: self.font_id, size: self.size, ch });
        match self.glyphs.get(&key) {
            Some(rec) => Some(*rec),
            None => None,
        }
    }

    /// Rasterized `g` becomes the cached record of `ch`: adjusted, uploaded
    /// under a fresh texture handle, and inserted. The first success for an
    /// identity; every later resolve of `ch` returns this same record.
    pub fn insert_glyph(&mut self, ch: char, g: &RawGlyph) -> (r: ResolveResult)
        requires
            old(self).wf(),
            valid_raw(*g),
            !old(self).contains_spec(ch),
            old(self).next_handle < 0xFFFF_FFFFu32,
        ensures
            final(self).wf(),
            old(self).same_font(*final(self)),
            final(self).raster_calls == old(self).raster_calls,
            final(self).next_handle == old(self).next_handle + 1,
            r.record == adjusted_record_spec(*g, old(self).metrics, old(self).next_handle),
            valid_record(r.record),
            final(self).glyphs@ == old(self).glyphs@.insert(old(self).key_of(ch), r.record),
            r.outcome == ResolveOutcome::Inserted,
            r.upload matches Some(u) && upload_of_raw(u, *g, old(self).next_handle),
    {
        let (rec, up) = self.put(ch, g);
        ResolveResult { record: rec, outcome: ResolveOutcome::Inserted, upload: Some(up) }
    }

    /// The rasterizer's placeholder bitmap becomes the shared missing-glyph
    /// record, cached once per (font, size) under the sentinel identity.
    pub fn insert_missing_placeholder(&mut self, g: &RawGlyph) -> (r: ResolveResult)
        requires
            old(self).wf(),
            valid_raw(*g),
            !old(self).contains_spec(MISSING_SENTINEL),
            old(self).next_handle < 0xFFFF_FFFFu32,
        ensures
            final(self).wf(),
            old(self).same_font(*final(self)),
            final(self).raster_calls == old(self).raster_calls,
            final(self).next_handle == old(self).next_handle + 1,
            r.record == adjusted_record_spec(*g, old(self).metrics, old(self).next_handle),
            valid_record(r.record),
            final(self).glyphs@ == old(self).glyphs@.insert(
                old(self).key_of(MISSING_SENTINEL),
                r.record,
            ),
            r.outcome == ResolveOutcome::MissingInserted,
            r.upload matches Some(u) && upload_of_raw(u, *g, old(self).next_handle),
    {
        let (rec, up) = self.put(MISSING_SENTINEL, g);
        ResolveResult { record: rec, outcome: ResolveOutcome::MissingInserted, upload: Some(up) }
    }

    /// Adjusts, allocates a fresh texture handle, inserts under `ch`'s key.
    fn put(&mut self, ch: char, g: &RawGlyph) -> (out: (GlyphRecord, TextureUpload))
        requires
            old(self).wf(),
            valid_raw(*g),
            !old(self).contains_spec(ch),
            old(self).next_handle < 0xFFFF_FFFFu32,
        ensures
            final(self).wf(),
            old(self).same_font(*final(self)),
            final(self).raster_calls == old(self).raster_calls,
            final(self).next_handle == old(self).next_handle + 1,
            out.0 == adjusted_record_spec(*g, old(self).metrics, old(self).next_handle),
            valid_record(out.0),
            final(self).glyphs@ == old(self).glyphs@.insert(old(self).key_of(ch), out.0),
            upload_of_raw(out.1, *g, old(self).next_handle),
    {
        let tex: u32 = self.next_handle;
        let rec = adjust_record(g, &self.metrics, tex);
        let key: u64 = identity_key(GlyphIdentity {
            font_id: self.font_id,
            size: self.size,
            ch,
        });
        self.glyphs.insert(key, rec);
        self.next_handle = tex + 1;
        let upload = TextureUpload {
            handle: tex,
            width: rec.width,
            height: rec.height,
            pixels: copy_pixels(&g.pixels),
        };
        proof {
            let old_map = old(self).glyphs@;
            let new_map = self.glyphs@;
            assert forall|k: u64| new_map.contains_key(k) implies valid_record(
                #[trigger] new_map[k],
            ) && new_map[k].tex < self.next_handle by {
                if k != key {
                    assert(old_map.contains_key(k));
                }
            }
            assert forall|k1: u64, k2: u64|
                new_map.contains_key(k1) && new_map.contains_key(k2) && k1 != k2 implies #[trigger] new_map[k1].tex
                != #[trigger] new_map[k2].tex by {
                if k1 != key && k2 != key {
                    assert(old_map.contains_key(k1) && old_map.contains_key(k2));
                } else if k1 == key {
                    assert(old_map.contains_key(k2) && old_map[k2].tex < tex);
                } else {
                    assert(old_map.contains_key(k1) && old_map[k1].tex < tex);
                }
            }
        }
        (rec, upload)
    }

    /// Builds a cache over a resolved FreeType face: selects the pixel
    /// size, probes the font-wide metrics — ascent and descent from the
    /// face's size metrics, the average advance from a representative
    /// lowercase "m" — and starts with an empty glyph map. The probe only
    /// feeds the metrics; it is not inserted into the map.
    pub fn for_face(face: &freetype::face::Face, font_id: u16, size: u16) -> (c: GlyphCache)
        ensures
            c.wf(),
            c.font_id == font_id,
            c.size == size,
            c.glyphs@ == Map::<u64, GlyphRecord>::empty(),
            c.next_handle == 1,
            c.raster_calls == 1,
    {
        let _accepted = raster::set_pixel_sizes(face, size as u32);
        let sm = raster::size_metrics(face);
        let probe = raster::rasterize_char(face, 'm');
        let probe_advance: Option<i64> = match &probe {
            Some(g) => Some(g.advance),
            None => None,
        };
        let metrics = derive_metrics(sm, probe_advance);
        let mut c = GlyphCache::new(font_id, size, metrics);
        c.raster_calls = 1;
        c
    }

    /// Resolves `ch` to its glyph record, rasterizing and uploading through
    /// the given FreeType face on first use. A cached identity is returned
    /// as-is, with no rasterizer call and no GPU work. On a miss, a
    /// character the face has no glyph for is served from the shared
    /// missing-glyph placeholder when `allow_missing_fallback` is set —
    /// cached once per (font, size) under the sentinel identity — and any
    /// other rasterization failure degrades to an uncached zero-sized
    /// default, so resolving is total over all of Unicode. With `face`
    /// `None` no rasterizer is available and every miss degrades.
    pub fn resolve(
        &mut self,
        face: Option<&freetype::face::Face>,
        ch: char,
        allow_missing_fallback: bool,
    ) -> (r: ResolveResult)
        requires
            old(self).wf(),
            old(self).next_handle < 0xFFFF_FFFFu32,
            old(self).raster_calls < 0xFFFF_FFFF_FFFF_FFFFu64,
        ensures
            final(self).wf(),
            old(self).same_font(*final(self)),
            valid_record(r.record),
            forall|k: u64|
                old(self).glyphs@.contains_key(k) ==> final(self).glyphs@.contains_key(k)
                    && final(self).glyphs@[k] == #[trigger] old(self).glyphs@[k],
            forall|k: u64|
                final(self).glyphs@.contains_key(k) && !old(self).glyphs@.contains_key(k) ==> k
                    == old(self).key_of(ch) || k == old(self).key_of(MISSING_SENTINEL),
            match r.outcome {
                ResolveOutcome::Hit => {
                    &&& old(self).contains_spec(ch)
                    &&& r.record == old(self).record_spec(ch)
                    &&& final(self).glyphs@ == old(self).glyphs@
                    &&& final(self).next_handle == old(self).next_handle
                    &&& final(self).raster_calls == old(self).raster_calls
                    &&& r.upload is None
                },
                ResolveOutcome::Inserted => {
                    &&& !old(self).contains_spec(ch)
                    &&& final(self).glyphs@ == old(self).glyphs@.insert(
                        old(self).key_of(ch),
                        r.record,
                    )
                    &&& final(self).next_handle == old(self).next_handle + 1
                    &&& final(self).raster_calls == old(self).raster_calls + 1
                    &&& exists|g: RawGlyph|
                        {
                            &&& #[trigger] valid_raw(g)
                            &&& r.record == adjusted_record_spec(
                                g,
                                old(self).metrics,
                                old(self).next_handle,
                            )
                            &&& r.upload matches Some(u) && upload_of_raw(
                                u,
                                g,
                                old(self).next_handle,
                            )
                        }
                },
                ResolveOutcome::MissingHit => {
                    &&& allow_missing_fallback
                    &&& !old(self).contains_spec(ch)
                    &&& old(self).contains_spec(MISSING_SENTINEL)
                    &&& r.record == old(self).record_spec(MISSING_SENTINEL)
                    &&& final(self).glyphs@ == old(self).glyphs@
                    &&& final(self).next_handle == old(self).next_handle
                    &&& final(self).raster_calls == old(self).raster_calls
                    &&& r.upload is None
                },
                ResolveOutcome::MissingInserted => {
                    &&& allow_missing_fallback
                    &&& !old(self).contains_spec(ch)
                    &&& !old(self).contains_spec(MISSING_SENTINEL)
                    &&& final(self).glyphs@ == old(self).glyphs@.insert(
                        old(self).key_of(MISSING_SENTINEL),
                        r.record,
                    )
                    &&& final(self).next_handle == old(self).next_handle + 1
                    &&& final(self).raster_calls == old(self).raster_calls + 1
                    &&& exists|g: RawGlyph|
                        {
                            &&& #[trigger] valid_raw(g)
                            &&& r.record == adjusted_record_spec(
                                g,
                                old(self).metrics,
                                old(self).next_handle,
                            )
                            &&& r.upload matches Some(u) && upload_of_raw(
                                u,
                                g,
                                old(self).next_handle,
                            )
                        }
                },
                ResolveOutcome::Degraded => {
                    &&& !old(self).contains_spec(ch)
                    &&& final(self).glyphs@ == old(self).glyphs@
                    &&& final(self).next_handle == old(self).next_handle + 1
                    &&& r.record == default_record_spec(old(self).next_handle)
                    &&& old(self).raster_calls <= final(self).raster_calls <= old(
                        self,
                    ).raster_calls + 1
                    &&& r.upload matches Some(u) && empty_upload(u, old(self).next_handle)
                },
            },
            face is None ==> final(self).raster_calls == old(self).raster_calls && (r.outcome
                == ResolveOutcome::Hit || r.outcome == ResolveOutcome::Degraded),
            r.upload matches Some(u) ==> u.handle == r.record.tex,
    {
        if let Some(rec) = self.lookup(ch) {
            return ResolveResult { record: rec, outcome: ResolveOutcome::Hit, upload: None };
        }
        match face {
            None => self.degrade(),
            Some(f) => {
                let has_glyph = raster::char_index(f, ch).is_some();
                if !has_glyph && allow_missing_fallback {
                    if let Some(rec) = self.lookup(MISSING_SENTINEL) {
                        return ResolveResult {
                            record: rec,
                            outcome: ResolveOutcome::MissingHit,
                            upload: None,
                        };
                    }
                    self.raster_calls = self.raster_calls + 1;
                    match raster::rasterize_placeholder(f) {
                        Some(g) => {
                            if raw_is_valid(&g) {
                                self.insert_missing_placeholder(&g)
                            } else {
                                self.degrade()
                            }
                        },
                        None => self.degrade(),
                    }
                } else {
                    self.raster_calls = self.raster_calls + 1;
                    match raster::rasterize_char(f, ch) {
                        Some(g) => {
                            if raw_is_valid(&g) {
                                self.insert_glyph(ch, &g)
                            } else {
                                self.degrade()
                            }
                        },
                        None => self.degrade(),
                    }
                }
            },
        }
    }

    /// Rasterization failed for `ch` and there is nothing to fall back on:
    /// uploads and returns a zero-sized default glyph without caching it, so
    /// a later resolve may retry, and drawing stays total.
    fn degrade(&mut self) -> (r: ResolveResult)
        requires
            old(self).wf(),
            old(self).next_handle < 0xFFFF_FFFFu32,
        ensures
            final(self).wf(),
            old(self).same_font(*final(self)),
            final(self).raster_calls == old(self).raster_calls,
            final(self).next_handle == old(self).next_handle + 1,
            final(self).glyphs@ == old(self).glyphs@,
            r.record == default_record_spec(old(self).next_handle),
            valid_record(r.record),
            r.outcome == ResolveOutcome::Degraded,
            r.upload matches Some(u) && empty_upload(u, old(self).next_handle),
    {
        let tex: u32 = self.next_handle;
        self.next_handle = tex + 1;
        ResolveResult {
            record: GlyphRecord { tex, width: 0, height: 0, bearing_x: 0, bearing_y: 0, advance: 0 },
            outcome: ResolveOutcome::Degraded,
            upload: Some(TextureUpload { handle: tex, width: 0, height: 0, pixels: Vec::new() }),
        }
    }
}

/// Entries of distinct characters are independent and never aliased: for
/// any two different characters of one cache — for any font and size, and
/// whether or not either is the reserved sentinel — the identities pack to
/// different map keys, and when both are cached their records own
/// different textures.
pub proof fn lemma_entries_independent(c: GlyphCache, c1: char, c2: char)
    requires
        c.wf(),
        c1 != c2,
    ensures
        c.key_of(c1) != c.key_of(c2),
        c.contains_spec(c1) && c.contains_spec(c2) ==> c.record_spec(c1).tex != c.record_spec(
            c2,
        ).tex,
{
    if c.key_of(c1) == c.key_of(c2) {
        lemma_identity_key_injective(c.identity_spec(c1), c.identity_spec(c2));
    }
    if c.contains_spec(c1) && c.contains_spec(c2) {
        assert(c.glyphs@[c.key_of(c1)].tex != c.glyphs@[c.key_of(c2)].tex);
    }
}

/// Copies a pixel buffer so the texture upload owns its bytes.
fn copy_pixels(src: &Vec<u8>) -> (out: Vec<u8>)
    ensures
        out@ == src@,
{
    let mut out: Vec<u8> = Vec::new();
    let mut i: usize = 0;
    while i < src.len()
        invariant
            i <= src@.len(),
            out@ == src@.take(i as int),
        decreases src@.len() - i,
    {
        out.push(src[i]);
        proof {
            assert(out@ =~= src@.take(i as int + 1));
        }
        i = i + 1;
    }
    proof {
        assert(out@ =~= src@);
    }
    out
}

} // verus!
