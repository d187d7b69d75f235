//! Parts of the atlas-backed glyph cacher: which glyphs it takes, which atlas
//! slot a glyph needs, and what it records into an atlas page.

use vstd::prelude::*;
use kurbo::{Affine, BezPath};
use peniko::color::{AlphaColor, Srgb};
use crate::cache::{CacheRunConfig, CacheableGlyphKind};
use crate::commands::AtlasCommand;
use crate::interface::{DrawCall, DrawSink, GlyphPaint};

verus! {

/// The constant `BLACK` of the CSS palette of the `color` crate (opaque black,
/// `AlphaColor::from_rgb8(0, 0, 0)`). Its floating-point components are not
/// stated here.
#[verifier::external_body]
fn css_black() -> (black: AlphaColor<Srgb>) {
    peniko::color::palette::css::BLACK
}

/// Pixel size and bearings of a glyph's slot in the atlas.
#[derive(Clone, Copy, Debug, PartialEq, Eq, Structural)]
pub struct RasterMetrics {
    /// Width of the slot in pixels.
    pub width: u16,
    /// Height of the slot in pixels.
    pub height: u16,
    /// Horizontal offset of the slot's left edge from the glyph origin.
    pub bearing_x: i16,
    /// Vertical offset of the slot's top edge from the glyph origin (y down).
    pub bearing_y: i16,
}

impl RasterMetrics {
    /// A slot of the given pixel size whose origin is the glyph origin, as
    /// bitmap and COLR glyphs use.
    pub fn at_origin(width: u16, height: u16) -> (metrics: Self)
        ensures
            metrics.width == width,
            metrics.height == height,
            metrics.bearing_x == 0,
            metrics.bearing_y == 0,
    {
        RasterMetrics { width, height, bearing_x: 0, bearing_y: 0 }
    }
}

/// Raster metrics of an outline glyph from its bounding box rounded outward to
/// whole pixels: `min_x` is the floor of the left edge and `ceil_x1` the
/// ceiling of the right edge; `flipped_min_y` and `flipped_max_y` are the
/// floor and ceiling of the box's y extent after flipping font y-up to screen
/// y-down.
///
/// The width gets one extra pixel for the horizontal subpixel offset applied
/// when the glyph is rasterised into the atlas. Sizes and bearings are
/// truncated to their 16-bit types, which keeps them exact at reasonable
/// sizes.
pub fn calculate_raster_metrics(
    min_x: i32,
    ceil_x1: i32,
    flipped_min_y: i32,
    flipped_max_y: i32,
) -> (metrics: RasterMetrics)
    requires
        ceil_x1 < i32::MAX,
        i32::MIN <= ceil_x1 + 1 - min_x <= i32::MAX,
        i32::MIN <= flipped_max_y - flipped_min_y <= i32::MAX,
    ensures
        metrics.width == (ceil_x1 + 1 - min_x) as u16,
        metrics.height == (flipped_max_y - flipped_min_y) as u16,
        metrics.bearing_x == min_x as i16,
        metrics.bearing_y == flipped_min_y as i16,
        0 <= ceil_x1 + 1 - min_x <= u16::MAX ==> metrics.width == ceil_x1 + 1 - min_x,
        0 <= flipped_max_y - flipped_min_y <= u16::MAX ==> metrics.height == flipped_max_y
            - flipped_min_y,
{
    let max_x = ceil_x1 + 1;
    let width = max_x - min_x;
    let height = flipped_max_y - flipped_min_y;
    RasterMetrics {
        width: width as u16,
        height: height as u16,
        bearing_x: min_x as i16,
        bearing_y: flipped_min_y as i16,
    }
}

/// What glyph caching needs to know of the transform at which a glyph is
/// drawn, its coefficients `[a, b, c, d, e, f]` each compared with a small
/// tolerance.
#[derive(Clone, Copy, Debug, PartialEq, Eq, Structural)]
pub struct TransformShape {
    /// `|b|` or `|c|` exceeds the tolerance.
    pub has_skew: bool,
    /// `|a|` and `|d|` are both within the tolerance of 1.
    pub unit_scale: bool,
    /// The sign bit of `a` is clear.
    pub x_sign_positive: bool,
    /// The sign bit of `d` is clear.
    pub y_sign_positive: bool,
}

/// Whether a glyph drawn at a transform of this shape can be drawn from the
/// atlas.
///
/// Outline and COLR glyphs must have had all scaling absorbed: no skew, unit
/// scale, and the y-flip that outlines are drawn with (positive x scale,
/// negative y scale). Bitmap glyphs have a fixed size of their own, so only
/// skew and mirroring rule them out.
pub fn supports_atlas_caching(transform: &TransformShape, kind: &CacheableGlyphKind) -> (ok: bool)
    ensures
        ok == match *kind {
            CacheableGlyphKind::Outline | CacheableGlyphKind::Colr(_) => !transform.has_skew
                && transform.unit_scale && transform.x_sign_positive
                && !transform.y_sign_positive,
            CacheableGlyphKind::Bitmap => !transform.has_skew && transform.x_sign_positive
                && transform.y_sign_positive,
        },
{
    match kind {
        CacheableGlyphKind::Outline | CacheableGlyphKind::Colr(_) => {
            !transform.has_skew && transform.unit_scale && transform.x_sign_positive
                && !transform.y_sign_positive
        },
        CacheableGlyphKind::Bitmap => {
            !transform.has_skew && transform.x_sign_positive && transform.y_sign_positive
        },
    }
}

/// A glyph cacher backed by a shared glyph atlas and image cache.
pub struct AtlasGlyphCacher<'a, A, I> {
    /// The glyph atlas cache (entries, LRU, pending uploads/commands).
    pub glyph_atlas: &'a mut A,
    /// The image cache providing atlas page allocation.
    pub image_cache: &'a mut I,
}

impl<'a, A, I> AtlasGlyphCacher<'a, A, I> {
    /// Create a cacher for the given atlas and image cache.
    pub fn new(glyph_atlas: &'a mut A, image_cache: &'a mut I) -> (cacher: Self)
        ensures
            *cacher.glyph_atlas == *old(glyph_atlas),
            *cacher.image_cache == *old(image_cache),
            *final(glyph_atlas) == *final(cacher.glyph_atlas),
            *final(image_cache) == *final(cacher.image_cache),
    {
        Self { glyph_atlas, image_cache }
    }

    /// Which glyph kinds to take for a run: none when the run's font size is
    /// above the atlas's largest cached size; outlines only when the current
    /// paint is a solid color, since cached outlines are colored by tinting.
    pub fn run_config(within_size_limit: bool, solid_paint: bool) -> (config: CacheRunConfig)
        ensures
            config.cache_outlines == (within_size_limit && solid_paint),
            config.cache_colr_bitmap == within_size_limit,
            config.cache_outlines ==> config.cache_colr_bitmap,
    {
        CacheRunConfig {
            cache_outlines: within_size_limit && solid_paint,
            cache_colr_bitmap: within_size_limit,
        }
    }
}

/// Record an outline glyph's draw commands into an atlas page's recorder:
/// the transform that places the glyph in its slot, a black paint (the glyph
/// is tinted when drawn from the atlas), and the glyph's path.
pub fn record_outline_to_atlas<S: DrawSink + ?Sized>(
    recorder: &mut S,
    outline_transform: Affine,
    path: &BezPath,
)
    ensures
        (*final(recorder)).drawn().len() == (*old(recorder)).drawn().len() + 3,
        (*final(recorder)).drawn().subrange(0, (*old(recorder)).drawn().len() as int)
            == (*old(recorder)).drawn(),
        (*final(recorder)).drawn()[(*old(recorder)).drawn().len() as int]
            == DrawCall::Command(AtlasCommand::SetTransform(outline_transform)),
        (*final(recorder)).drawn()[(*old(recorder)).drawn().len() + 1int] matches DrawCall::Command(
            AtlasCommand::SetPaint(GlyphPaint::Solid(_)),
        ),
        (*final(recorder)).drawn()[(*old(recorder)).drawn().len() + 2int] == DrawCall::Command(
            AtlasCommand::FillPath(*path),
        ),
{
    let ghost before = (*recorder).drawn();
    recorder.set_transform(outline_transform);
    recorder.set_paint(GlyphPaint::from(css_black()));
    recorder.fill_path(path);
    proof {
        assert((*recorder).drawn().subrange(0, before.len() as int) =~= before);
    }
}

} // verus!
