//! Image types for bitmap (emoji) glyphs.

use vstd::prelude::*;
use std::sync::Arc;
use peniko::ImageQuality;

verus! {

/// An image paint for an uncached bitmap glyph.
///
/// `P` is the renderer's pixel buffer type (the premultiplied RGBA8 pixmap
/// shared across the Vello crates).
pub struct GlyphImage<P> {
    /// The pixel data of the glyph.
    pub pixmap: Arc<P>,
    /// The suggested sampling quality, derived from the glyph's transform.
    pub quality: ImageQuality,
}

} // verus!
