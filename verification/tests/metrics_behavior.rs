//! Exact values of the metric conversions and the identity packing.

use glyphcache::glyph::{derive_metrics, metric_px, FontMetrics};
use glyphcache::identity::{identity_key, GlyphIdentity};

#[test]
fn identity_packs_fields_into_disjoint_bit_ranges() {
    let id = GlyphIdentity { font_id: 1, size: 16, ch: 'a' };
    // font_id * 2^37 + size * 2^21 + scalar value
    let expected = (1u64 << 37) + (16u64 << 21) + 97;
    assert_eq!(identity_key(id), expected);
    let zero = GlyphIdentity { font_id: 0, size: 0, ch: '\0' };
    assert_eq!(identity_key(zero), 0);
}

#[test]
fn subpixel_metrics_convert_to_whole_pixels_toward_zero() {
    assert_eq!(metric_px(0), 0);
    assert_eq!(metric_px(64), 1);
    assert_eq!(metric_px(63), 0);
    assert_eq!(metric_px(199), 3);
    // negative values round toward zero, not down
    assert_eq!(metric_px(-199), -3);
    assert_eq!(metric_px(-64), -1);
    // values outside the trusted range fall back to zero
    assert_eq!(metric_px(1 << 60), 0);
    assert_eq!(metric_px(-(1 << 60)), 0);
}

#[test]
fn probed_metrics_derive_from_size_metrics_and_probe_advance() {
    let m = derive_metrics(Some((12 * 64 + 5, -(3 * 64 + 7))), Some(10 * 64 + 63));
    assert_eq!(m, FontMetrics { ascent: 12, descent: -3, average_advance: 10 });
    // a failed probe leaves every metric at zero
    let none = derive_metrics(None, None);
    assert_eq!(none, FontMetrics { ascent: 0, descent: 0, average_advance: 0 });
}
