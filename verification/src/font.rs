//! Font configuration and the resolution-failure policy.
//!
//! Loading a font file is I/O and happens in the embedding. What to try
//! next when a family fails to load — substitute the single hardcoded
//! fallback family once, then give up — is decided here, so the policy is
//! verified even though the loading is not.

use vstd::prelude::*;

verus! {

/// Style (slant/weight) of a requested font face.
#[derive(Clone, Copy, PartialEq, Eq, Structural, Debug)]
pub enum FontStyle {
    Regular,
    Bold,
    Italic,
    BoldItalic,
}

/// What font to resolve: a family name, a style, and the pixel size the
/// cache will rasterize at. `degraded` marks the substituted fallback
/// configuration, so the fallback is attempted exactly once.
#[derive(Clone, Debug)]
pub struct FontConfig {
    pub family: String,
    pub style: FontStyle,
    pub size: u16,
    pub degraded: bool,
}

/// Both the requested family and the fallback failed to load. Fatal to
/// cache construction: no cache is produced.
#[derive(Clone, Copy, PartialEq, Eq, Structural, Debug)]
pub struct FontResolutionError;

/// The view of the hardcoded fallback family name.
pub open spec fn fallback_family_spec() -> Seq<char> {
    "monospace"@
}

/// The single hardcoded fallback family.
pub fn fallback_family() -> (s: String)
    ensures
        s@ == fallback_family_spec(),
{
    "monospace".to_owned()
}

impl FontConfig {
    /// A fresh, non-degraded configuration.
    pub fn new(family: String, style: FontStyle, size: u16) -> (c: FontConfig)
        ensures
            c.family == family,
            c.style == style,
            c.size == size,
            !c.degraded,
    {
        FontConfig { family, style, size, degraded: false }
    }

    /// The configuration to try after this one failed to resolve: the
    /// fallback family at the same style and size. When the failed attempt
    /// already was the fallback, resolution has failed for good and the
    /// fatal error is returned instead.
    pub fn fallback(&self) -> (r: Result<FontConfig, FontResolutionError>)
        ensures
            match r {
                Ok(f) => {
                    &&& !self.degraded
                    &&& f.family@ == fallback_family_spec()
                    &&& f.style == self.style
                    &&& f.size == self.size
                    &&& f.degraded
                },
                Err(e) => self.degraded && e == FontResolutionError,
            },
    {
        if self.degraded {
            Err(FontResolutionError)
        } else {
            Ok(
                FontConfig {
                    family: fallback_family(),
                    style: self.style,
                    size: self.size,
                    degraded: true,
                },
            )
        }
    }
}

} // verus!
