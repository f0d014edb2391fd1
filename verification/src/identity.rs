//! Glyph identities: the composite cache key {font, size, character}.

use vstd::prelude::*;

verus! {

/// Reserved character value. The cache stores the shared "missing glyph"
/// placeholder under this character, one entry per (font, size), so ordinary
/// characters never collide with it.
pub const MISSING_SENTINEL: char = '\0';

/// Immutable cache key: one font handle, one pixel size, one Unicode scalar.
/// Two identities are equal iff all three fields match exactly.
#[derive(Clone, Copy, PartialEq, Eq, Structural, Debug)]
pub struct GlyphIdentity {
    pub font_id: u16,
    pub size: u16,
    pub ch: char,
}

impl GlyphIdentity {
    /// The identity under which the missing-glyph placeholder of this
    /// identity's (font, size) pair is cached.
    pub open spec fn sentinel_spec(self) -> GlyphIdentity {
        GlyphIdentity { font_id: self.font_id, size: self.size, ch: MISSING_SENTINEL }
    }

    /// Exec counterpart of [`Self::sentinel_spec`].
    pub fn sentinel(self) -> (s: GlyphIdentity)
        ensures
            s == self.sentinel_spec(),
    {
        GlyphIdentity { font_id: self.font_id, size: self.size, ch: MISSING_SENTINEL }
    }
}

/// The packed form of an identity as a mathematical integer. Unicode scalars
/// fit in 21 bits, so the three fields occupy disjoint ranges and the packing
/// is injective.
pub open spec fn identity_key_int(id: GlyphIdentity) -> int {
    (id.font_id as int) * 0x20_0000_0000 + (id.size as int) * 0x20_0000 + (id.ch as u32) as int
}

/// The packed 64-bit form of an identity, used as the hash-map key.
pub open spec fn identity_key_spec(id: GlyphIdentity) -> u64 {
    identity_key_int(id) as u64
}

/// Packs an identity into its 64-bit cache key.
pub fn identity_key(id: GlyphIdentity) -> (k: u64)
    ensures
        k == identity_key_spec(id),
{
    proof {
        vstd::utf8::char_is_scalar(id.ch);
    }
    (id.font_id as u64) * 0x20_0000_0000 + (id.size as u64) * 0x20_0000 + ((id.ch as u32) as u64)
}

/// Distinct identities never share a cache key: entries for two different
/// characters of the same font and size (or of different fonts or sizes) are
/// kept under different keys and are therefore independent map entries.
pub proof fn lemma_identity_key_injective(a: GlyphIdentity, b: GlyphIdentity)
    requires
        identity_key_spec(a) == identity_key_spec(b),
    ensures
        a == b,
{
    vstd::utf8::char_is_scalar(a.ch);
    vstd::utf8::char_is_scalar(b.ch);
    assert(identity_key_int(a) == identity_key_int(b));
    let ra = (a.size as int) * 0x20_0000 + (a.ch as u32) as int;
    let rb = (b.size as int) * 0x20_0000 + (b.ch as u32) as int;
    vstd::arithmetic::div_mod::lemma_fundamental_div_mod_converse(
        identity_key_int(a),
        0x20_0000_0000,
        a.font_id as int,
        ra,
    );
    vstd::arithmetic::div_mod::lemma_fundamental_div_mod_converse(
        identity_key_int(b),
        0x20_0000_0000,
        b.font_id as int,
        rb,
    );
    assert(a.font_id == b.font_id && ra == rb);
    vstd::arithmetic::div_mod::lemma_fundamental_div_mod_converse(
        ra,
        0x20_0000,
        a.size as int,
        (a.ch as u32) as int,
    );
    vstd::arithmetic::div_mod::lemma_fundamental_div_mod_converse(
        rb,
        0x20_0000,
        b.size as int,
        (b.ch as u32) as int,
    );
    assert(a.size == b.size && a.ch as u32 == b.ch as u32);
    assert(a.ch == b.ch);
}

} // verus!
