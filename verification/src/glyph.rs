//! Glyphs prepared for drawing: their outlines, bitmaps or COLR paint areas,
//! the transforms they are drawn at, and what a cacher needs to know of them.

use vstd::prelude::*;
use std::sync::Arc;
use kurbo::{Affine, BezPath, Rect};
use peniko::ImageQuality;
use crate::cache::CacheableGlyph;

verus! {

/// A prepared outline glyph.
pub struct OutlineGlyph {
    /// The glyph path (in outline-cache units).
    pub path: Arc<BezPath>,
    /// Precise bounding box of the path at the cached outline size.
    pub bbox: Rect,
    /// Bit pattern of the `f64` scale from the cached outline size to the
    /// requested draw size.
    pub scale_bits: u64,
    /// The glyph's outline transform pre-scaled by its scale: the transform
    /// the path is drawn at.
    pub scaled_transform: Affine,
}

/// A prepared bitmap glyph.
pub struct GlyphBitmap<P> {
    /// The decoded pixel data.
    pub pixmap: Arc<P>,
    /// The rectangular area that should be filled with the bitmap.
    pub area: Rect,
    /// The sampling quality chosen from the glyph transform's downscale.
    pub quality: ImageQuality,
}

/// A prepared COLR glyph.
pub struct GlyphColr {
    /// The rectangular area covered by the rendered glyph.
    pub area: Rect,
    /// The glyph's area as a path, the clip the glyph is painted in.
    pub clip: BezPath,
    /// The width in pixels of a texture the glyph is rendered to.
    pub pix_width: u16,
    /// The height in pixels of a texture the glyph is rendered to.
    pub pix_height: u16,
    /// Whether the glyph paint graph uses a non-default blend mode.
    pub has_non_default_blend: bool,
}

/// The kind of a prepared glyph, with what drawing it needs.
pub enum GlyphType<P> {
    /// An outline glyph.
    Outline(OutlineGlyph),
    /// A bitmap glyph.
    Bitmap(GlyphBitmap<P>),
    /// A COLR glyph.
    Colr(GlyphColr),
}

/// A glyph ready to be drawn.
pub struct PreparedGlyph<'a, P> {
    /// The glyph and what drawing it needs.
    pub glyph_type: GlyphType<P>,
    /// The transform the glyph is drawn at.
    pub outline_transform: Affine,
    /// The paint transform, relative to the glyph.
    pub relative_paint_transform: Affine,
    /// What a cacher needs to know of the glyph, when it may be cached.
    pub cacheable: Option<CacheableGlyph<'a>>,
}

} // verus!
