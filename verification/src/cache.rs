//! What a glyph cacher is told and offered, packed context colors, and the
//! cacher that never caches.

use vstd::prelude::*;
use std::sync::Arc;
use kurbo::{Affine, BezPath, Rect};
use peniko::color::{AlphaColor, PremulColor, PremulRgba8, Srgb};
use crate::cacher::RasterMetrics;
use crate::commands::AtlasCommand;
use crate::interface::{carried_out, DrawCall, DrawSink, GlyphRenderer};

verus! {

/// The premultiplied color that `AlphaColor::premultiply` of the `color`
/// crate makes of `color`: its components multiplied by alpha, in floating
/// point.
pub uninterp spec fn premultiplied(color: AlphaColor<Srgb>) -> PremulColor<Srgb>;

/// The bytes `[r, g, b, a]` of the `PremulRgba8` that `PremulColor::to_rgba8`
/// of the `color` crate makes of `color`: each component scaled to 0..=255,
/// rounded and clamped.
pub uninterp spec fn premul_rgba8_bytes(color: PremulColor<Srgb>) -> Seq<u8>;

/// The `u32` whose bytes, in the target's native byte order, are `bytes`, as
/// `PremulRgba8::to_u32` of the `color` crate packs them.
pub uninterp spec fn native_packed_rgba8(bytes: Seq<u8>) -> u32;

/// Calls `AlphaColor::premultiply` of the `color` crate, which multiplies the
/// color components by alpha. The floating-point result is only named here.
#[verifier::external_body]
fn premultiply(color: AlphaColor<Srgb>) -> (premul: PremulColor<Srgb>)
    ensures
        premul == premultiplied(color),
{
    color.premultiply()
}

/// Calls `PremulColor::to_rgba8` of the `color` crate and returns the four
/// bytes `[r, g, b, a]` of the result. The bytes are the components rounded
/// and clamped from floating point; they are only named here.
#[verifier::external_body]
fn premul_to_rgba8(color: PremulColor<Srgb>) -> (bytes: [u8; 4])
    ensures
        bytes@ == premul_rgba8_bytes(color),
{
    color.to_rgba8().to_u8_array()
}

/// Calls `PremulRgba8::to_u32` of the `color` crate on the color with bytes
/// `[r, g, b, a]`. Its body is `u32::from_ne_bytes([r, g, b, a])`: the bytes
/// in the target's native byte order, so the little-endian packing
/// ([`packed_rgba8`]) on little-endian targets and the packing of the reversed
/// bytes on big-endian ones. Being a bijection, no other four bytes pack to
/// the same value.
#[verifier::external_body]
fn premul_rgba8_to_u32(bytes: [u8; 4]) -> (packed: u32)
    ensures
        packed == native_packed_rgba8(bytes@),
        packed as int == packed_rgba8(bytes@) || packed as int == packed_rgba8(bytes@.reverse()),
        forall|other: Seq<u8>|
            other.len() == 4 && #[trigger] native_packed_rgba8(other) == packed ==> other
                == bytes@,
{
    PremulRgba8::from_u8_array(bytes).to_u32()
}

/// The little-endian packing of four bytes `[r, g, b, a]` into one integer,
/// `r` the least significant byte.
pub open spec fn packed_rgba8(bytes: Seq<u8>) -> int
    recommends
        bytes.len() == 4,
{
    bytes[0] + 256 * bytes[1] + 65536 * bytes[2] + 16777216 * bytes[3]
}

/// Two byte quadruples have the same little-endian packing only when they are
/// equal.
pub proof fn lemma_packed_rgba8_injective(a: [u8; 4], b: [u8; 4])
    requires
        packed_rgba8(a@) == packed_rgba8(b@),
    ensures
        a@ == b@,
{
    let (a0, a1, a2, a3) = (a@[0] as int, a@[1] as int, a@[2] as int, a@[3] as int);
    let (b0, b1, b2, b3) = (b@[0] as int, b@[1] as int, b@[2] as int, b@[3] as int);
    assert(a0 == b0 && a1 == b1 && a2 == b2 && a3 == b3) by (nonlinear_arith)
        requires
            0 <= a0 < 256, 0 <= a1 < 256, 0 <= a2 < 256, 0 <= a3 < 256,
            0 <= b0 < 256, 0 <= b1 < 256, 0 <= b2 < 256, 0 <= b3 < 256,
            a0 + 256 * a1 + 65536 * a2 + 16777216 * a3
                == b0 + 256 * b1 + 65536 * b2 + 16777216 * b3,
    ;
    assert(a@ =~= b@);
}

/// Premultiply and pack an RGBA color into a `u32` for bitwise
/// hashing/comparison: the premultiplied RGBA8 bytes of the color, in the
/// target's native byte order (`r` in the least significant byte and `a` in
/// the most significant on little-endian targets).
///
/// No other premultiplied RGBA8 bytes pack to the same value, so two colors
/// pack alike exactly when their premultiplied RGBA8 bytes are equal.
pub fn pack_color(color: AlphaColor<Srgb>) -> (packed: u32)
    ensures
        premul_rgba8_bytes(premultiplied(color)).len() == 4,
        packed == native_packed_rgba8(premul_rgba8_bytes(premultiplied(color))),
        packed as int == packed_rgba8(premul_rgba8_bytes(premultiplied(color))) || packed as int
            == packed_rgba8(premul_rgba8_bytes(premultiplied(color)).reverse()),
        forall|other: Seq<u8>|
            other.len() == 4 && #[trigger] native_packed_rgba8(other) == packed ==> other
                == premul_rgba8_bytes(premultiplied(color)),
{
    let bytes = premul_to_rgba8(premultiply(color));
    premul_rgba8_to_u32(bytes)
}

/// Pack premultiplied RGBA8 bytes `[r, g, b, a]` into a `u32` in the
/// target's native byte order, as [`pack_color`] does with the bytes of a
/// premultiplied color; no other bytes pack to the same value.
pub fn pack_premul_rgba8(bytes: [u8; 4]) -> (packed: u32)
    ensures
        packed == native_packed_rgba8(bytes@),
        packed as int == packed_rgba8(bytes@) || packed as int == packed_rgba8(bytes@.reverse()),
        forall|other: Seq<u8>|
            other.len() == 4 && #[trigger] native_packed_rgba8(other) == packed ==> other
                == bytes@,
{
    premul_rgba8_to_u32(bytes)
}

/// Which glyph kinds a glyph cacher wants to be offered for the current run.
#[derive(Clone, Copy, Debug, PartialEq, Eq, Structural)]
pub struct CacheRunConfig {
    /// Whether outline glyphs should be offered to the cacher.
    pub cache_outlines: bool,
    /// Whether COLR and bitmap glyphs should be offered to the cacher.
    pub cache_colr_bitmap: bool,
}

impl Default for CacheRunConfig {
    /// Offer nothing.
    fn default() -> (config: Self)
        ensures
            !config.cache_outlines,
            !config.cache_colr_bitmap,
    {
        CacheRunConfig { cache_outlines: false, cache_colr_bitmap: false }
    }
}

/// The kind of a cacheable glyph.
#[derive(Clone, Copy, Debug)]
pub enum CacheableGlyphKind {
    /// An outline glyph.
    Outline,
    /// A bitmap glyph.
    Bitmap,
    /// A COLR glyph. The `Rect` contains the fractional area dimensions used
    /// to preserve sub-pixel accuracy when drawing from a cache.
    Colr(Rect),
}

/// A prepared COLR glyph offered to a glyph cacher for insertion.
#[derive(Debug)]
pub struct ColrGlyphData {
    /// The rectangular area covered by the rendered glyph.
    pub area: Rect,
    /// The width in pixels of the texture the glyph should be rendered to.
    pub pix_width: u16,
    /// The height in pixels of the texture the glyph should be rendered to.
    pub pix_height: u16,
    /// Whether the glyph paint graph uses a non-default blend mode.
    pub has_non_default_blend: bool,
}

impl ColrGlyphData {
    /// The atlas slot a COLR glyph needs: its texture size, with no bearing
    /// offset (the glyph is painted into the slot at the slot's origin).
    pub fn raster_metrics(&self) -> (metrics: RasterMetrics)
        ensures
            metrics == (RasterMetrics {
                width: self.pix_width,
                height: self.pix_height,
                bearing_x: 0,
                bearing_y: 0,
            }),
    {
        RasterMetrics::at_origin(self.pix_width, self.pix_height)
    }
}

/// Everything a backend cache needs to identify and position a glyph.
///
/// This contains the cache key "ingredients" (font identity, size, hinting,
/// subpixel position, context color and variation coordinates) plus the
/// transform at which the glyph would be drawn. The font size and subpixel
/// offset are held as the IEEE bit patterns of their `f32` values, which is
/// the form a cache key compares them in.
pub struct CacheableGlyph<'a> {
    /// Unique identifier for the font blob.
    pub font_id: u64,
    /// Index within font collection (for TTC files).
    pub font_index: u32,
    /// Glyph index within the font.
    pub glyph_id: u32,
    /// Bit pattern of the font size in pixels per em. For bitmap glyphs this
    /// is the strike's own ppem.
    pub font_size_bits: u32,
    /// Whether hinting was applied. Always `false` for COLR/bitmap glyphs.
    pub hinted: bool,
    /// Bit pattern of the horizontal fractional pixel offset of the glyph.
    /// Only meaningful for outline glyphs.
    pub fractional_x_bits: u32,
    /// Context color for COLR glyphs (the run's solid paint color).
    pub context_color: AlphaColor<Srgb>,
    /// Pre-packed premultiplied RGBA8 version of `context_color` (see
    /// [`pack_color`]), suitable for hashing/comparison.
    pub context_color_packed: u32,
    /// Normalized variation coordinates for variable fonts. Empty for bitmap
    /// glyphs.
    pub var_coords: &'a [i16],
    /// The kind of glyph.
    pub kind: CacheableGlyphKind,
    /// The transform at which the glyph is drawn.
    pub transform: Affine,
}

/// A prepared outline glyph offered to a glyph cacher for insertion.
pub struct OutlineGlyphData<'a> {
    /// The glyph path (in outline-cache units).
    pub path: &'a Arc<BezPath>,
    /// Precise bounding box of the path at the cached outline size.
    pub bbox: Rect,
    /// Bit pattern of the `f64` scale from the cached outline size to the
    /// requested draw size.
    pub scale_bits: u64,
}

/// A prepared bitmap glyph offered to a glyph cacher for insertion.
pub struct BitmapGlyphData<'a, P> {
    /// The decoded pixel data.
    pub pixmap: &'a Arc<P>,
    /// The rectangular area that should be filled with the bitmap when painting.
    pub area: Rect,
}

/// Replays a COLR glyph's draw commands into a sink.
///
/// Painting only ever adds to what the sink has drawn, as every drawing
/// method of a [`DrawSink`] does.
pub trait ColrPaint {
    /// The commands this painter asks of a sink when it paints its glyph with
    /// `context_color`.
    ///
    /// A painter whose `paint` is verified defines this; the default is only
    /// a stand-in for painters that are not.
    closed spec fn painting(&self, context_color: AlphaColor<Srgb>) -> Seq<AtlasCommand> {
        Seq::empty()
    }

    /// Paint the glyph into `sink`, resolving context-dependent colors with
    /// `context_color`: the sink carries out the painter's commands, in order.
    fn paint<S: DrawSink + ?Sized>(&mut self, context_color: AlphaColor<Srgb>, sink: &mut S)
        ensures
            (*old(sink)).drawn().is_prefix_of((*final(sink)).drawn()),
            carried_out(
                (*old(sink)).drawn(),
                (*final(sink)).drawn(),
                old(self).painting(context_color),
            ),
    ;
}

/// A backend-provided glyph cache, called from the glyph rendering loop.
///
/// All drawing methods return `true` if the cacher drew the glyph (from cache
/// or after inserting it), in which case the glyph is not rendered directly;
/// a cacher that does not draw a glyph leaves the renderer as it was.
pub trait GlyphCacher<R: GlyphRenderer + ?Sized> {
    /// What drawing an already-cached glyph gives, for this cacher and the
    /// renderer in their current states: the renderer's calls afterwards when
    /// the cacher draws it, `None` when it does not.
    ///
    /// A cacher whose methods are verified defines this and the other offer
    /// functions; the defaults are only stand-ins for cachers that are not.
    closed spec fn cached_draw(&self, renderer: &R, glyph: CacheableGlyph<'_>) -> Option<
        Seq<DrawCall>,
    > {
        None
    }

    /// What offering a prepared outline glyph gives: the renderer's calls
    /// afterwards when the cacher draws it, `None` when it declines.
    closed spec fn outline_offer(
        &self,
        renderer: &R,
        data: OutlineGlyphData<'_>,
        glyph: CacheableGlyph<'_>,
    ) -> Option<Seq<DrawCall>> {
        None
    }

    /// What offering a decoded bitmap glyph gives: the renderer's calls
    /// afterwards when the cacher draws it, `None` when it declines.
    closed spec fn bitmap_offer(
        &self,
        renderer: &R,
        data: BitmapGlyphData<'_, R::Pixmap>,
        glyph: CacheableGlyph<'_>,
    ) -> Option<Seq<DrawCall>> {
        None
    }

    /// What offering a prepared COLR glyph gives, when its painter asks for
    /// `painting` in the renderer's context color: the renderer's calls
    /// afterwards when the cacher draws it, `None` when it declines.
    closed spec fn colr_offer(
        &self,
        renderer: &R,
        data: ColrGlyphData,
        glyph: CacheableGlyph<'_>,
        painting: Seq<AtlasCommand>,
    ) -> Option<Seq<DrawCall>> {
        None
    }

    /// Decide which glyph kinds should be offered to the cacher for a run at
    /// the given (post-absorption) font size, as its `f32` bit pattern.
    fn run_config(&self, renderer: &R, font_size_bits: u32) -> (config: CacheRunConfig);

    /// Attempt to draw an already-cached glyph.
    fn draw_cached_glyph(&mut self, renderer: &mut R, glyph: &CacheableGlyph<'_>) -> (drawn:
        bool)
        ensures
            drawn == (old(self).cached_draw(&*old(renderer), *glyph) is Some),
            drawn ==> (*final(renderer)).drawn() == old(self).cached_draw(&*old(renderer), *glyph)->0,
            !drawn ==> (*final(renderer)).drawn() == (*old(renderer)).drawn(),
    ;

    /// Insert a freshly prepared outline glyph and draw it from the cache.
    fn draw_and_cache_outline(
        &mut self,
        renderer: &mut R,
        data: &OutlineGlyphData<'_>,
        glyph: &CacheableGlyph<'_>,
    ) -> (drawn: bool)
        ensures
            drawn == (old(self).outline_offer(&*old(renderer), *data, *glyph) is Some),
            drawn ==> (*final(renderer)).drawn() == old(self).outline_offer(&*old(renderer), *data, *glyph)->0,
            !drawn ==> (*final(renderer)).drawn() == (*old(renderer)).drawn(),
    ;

    /// Insert a freshly decoded bitmap glyph and draw it from the cache.
    fn draw_and_cache_bitmap(
        &mut self,
        renderer: &mut R,
        data: &BitmapGlyphData<'_, R::Pixmap>,
        glyph: &CacheableGlyph<'_>,
    ) -> (drawn: bool)
        ensures
            drawn == (old(self).bitmap_offer(&*old(renderer), *data, *glyph) is Some),
            drawn ==> (*final(renderer)).drawn() == old(self).bitmap_offer(&*old(renderer), *data, *glyph)->0,
            !drawn ==> (*final(renderer)).drawn() == (*old(renderer)).drawn(),
    ;

    /// Insert a freshly prepared COLR glyph and draw it from the cache;
    /// `paint` replays the glyph's draw commands into any sink.
    fn draw_and_cache_colr<P: ColrPaint>(
        &mut self,
        renderer: &mut R,
        data: &ColrGlyphData,
        glyph: &CacheableGlyph<'_>,
        paint: &mut P,
    ) -> (drawn: bool)
        ensures
            drawn == (old(self).colr_offer(&*old(renderer), *data, *glyph, old(paint).painting(old(renderer).context_color())) is Some),
            drawn ==> (*final(renderer)).drawn() == old(self).colr_offer(&*old(renderer), *data, *glyph, old(paint).painting(old(renderer).context_color()))->0,
            !drawn ==> (*final(renderer)).drawn() == (*old(renderer)).drawn(),
            !drawn ==> *final(paint) == *old(paint),
    ;
}

impl<R: GlyphRenderer + ?Sized, C: GlyphCacher<R>> GlyphCacher<R> for &mut C {
    open spec fn cached_draw(&self, renderer: &R, glyph: CacheableGlyph<'_>) -> Option<
        Seq<DrawCall>,
    > {
        (**self).cached_draw(renderer, glyph)
    }

    open spec fn outline_offer(
        &self,
        renderer: &R,
        data: OutlineGlyphData<'_>,
        glyph: CacheableGlyph<'_>,
    ) -> Option<Seq<DrawCall>> {
        (**self).outline_offer(renderer, data, glyph)
    }

    open spec fn bitmap_offer(
        &self,
        renderer: &R,
        data: BitmapGlyphData<'_, R::Pixmap>,
        glyph: CacheableGlyph<'_>,
    ) -> Option<Seq<DrawCall>> {
        (**self).bitmap_offer(renderer, data, glyph)
    }

    open spec fn colr_offer(
        &self,
        renderer: &R,
        data: ColrGlyphData,
        glyph: CacheableGlyph<'_>,
        painting: Seq<AtlasCommand>,
    ) -> Option<Seq<DrawCall>> {
        (**self).colr_offer(renderer, data, glyph, painting)
    }

    fn run_config(&self, renderer: &R, font_size_bits: u32) -> (config: CacheRunConfig) {
        (**self).run_config(renderer, font_size_bits)
    }

    fn draw_cached_glyph(&mut self, renderer: &mut R, glyph: &CacheableGlyph<'_>) -> (drawn:
        bool) {
        (**self).draw_cached_glyph(renderer, glyph)
    }

    fn draw_and_cache_outline(
        &mut self,
        renderer: &mut R,
        data: &OutlineGlyphData<'_>,
        glyph: &CacheableGlyph<'_>,
    ) -> (drawn: bool) {
        (**self).draw_and_cache_outline(renderer, data, glyph)
    }

    fn draw_and_cache_bitmap(
        &mut self,
        renderer: &mut R,
        data: &BitmapGlyphData<'_, R::Pixmap>,
        glyph: &CacheableGlyph<'_>,
    ) -> (drawn: bool) {
        (**self).draw_and_cache_bitmap(renderer, data, glyph)
    }

    fn draw_and_cache_colr<P: ColrPaint>(
        &mut self,
        renderer: &mut R,
        data: &ColrGlyphData,
        glyph: &CacheableGlyph<'_>,
        paint: &mut P,
    ) -> (drawn: bool) {
        (**self).draw_and_cache_colr(renderer, data, glyph, paint)
    }
}

/// A glyph cacher that never caches; all glyphs render directly.
#[derive(Clone, Copy, Debug, Default)]
pub struct NoCache;

impl<R: GlyphRenderer + ?Sized> GlyphCacher<R> for NoCache {
    /// Never draws a cached glyph.
    open spec fn cached_draw(&self, renderer: &R, glyph: CacheableGlyph<'_>) -> Option<
        Seq<DrawCall>,
    > {
        None
    }

    /// Declines every outline glyph.
    open spec fn outline_offer(
        &self,
        renderer: &R,
        data: OutlineGlyphData<'_>,
        glyph: CacheableGlyph<'_>,
    ) -> Option<Seq<DrawCall>> {
        None
    }

    /// Declines every bitmap glyph.
    open spec fn bitmap_offer(
        &self,
        renderer: &R,
        data: BitmapGlyphData<'_, R::Pixmap>,
        glyph: CacheableGlyph<'_>,
    ) -> Option<Seq<DrawCall>> {
        None
    }

    /// Declines every COLR glyph.
    open spec fn colr_offer(
        &self,
        renderer: &R,
        data: ColrGlyphData,
        glyph: CacheableGlyph<'_>,
        painting: Seq<AtlasCommand>,
    ) -> Option<Seq<DrawCall>> {
        None
    }

    /// Offer no glyph kind to the cacher.
    fn run_config(&self, _renderer: &R, _font_size_bits: u32) -> (config: CacheRunConfig)
        ensures
            !config.cache_outlines,
            !config.cache_colr_bitmap,
    {
        CacheRunConfig::default()
    }

    /// Never draws a glyph from a cache.
    fn draw_cached_glyph(&mut self, _renderer: &mut R, _glyph: &CacheableGlyph<'_>) -> (drawn:
        bool)
        ensures
            !drawn,
    {
        false
    }

    /// Never caches an outline glyph; it renders directly.
    fn draw_and_cache_outline(
        &mut self,
        _renderer: &mut R,
        _data: &OutlineGlyphData<'_>,
        _glyph: &CacheableGlyph<'_>,
    ) -> (drawn: bool)
        ensures
            !drawn,
    {
        false
    }

    /// Never caches a bitmap glyph; it renders directly.
    fn draw_and_cache_bitmap(
        &mut self,
        _renderer: &mut R,
        _data: &BitmapGlyphData<'_, R::Pixmap>,
        _glyph: &CacheableGlyph<'_>,
    ) -> (drawn: bool)
        ensures
            !drawn,
    {
        false
    }

    /// Never caches a COLR glyph; it renders directly.
    fn draw_and_cache_colr<P: ColrPaint>(
        &mut self,
        _renderer: &mut R,
        _data: &ColrGlyphData,
        _glyph: &CacheableGlyph<'_>,
        _paint: &mut P,
    ) -> (drawn: bool)
        ensures
            !drawn,
    {
        false
    }
}

} // verus!
