use glyph_atlas::bitmap::GlyphImage;
use glyph_atlas::commands::AtlasCommand;
use glyph_atlas::interface::{DrawCall, DrawSink, GlyphPaint, GlyphRenderer};
use glyph_atlas::cache::{
    BitmapGlyphData, CacheRunConfig, CacheableGlyph, CacheableGlyphKind, ColrGlyphData, ColrPaint,
    GlyphCacher, NoCache, OutlineGlyphData,
};
use glyph_atlas::glyph::{GlyphBitmap, GlyphColr, GlyphType, OutlineGlyph, PreparedGlyph};
use glyph_atlas::renderer::{
    fill_glyph, fill_uncached_outline_glyph, render_uncached_bitmap_glyph, stroke_glyph,
    stroke_uncached_outline_glyph,
};
use kurbo::{Affine, BezPath, Rect, Shape};
use peniko::color::{AlphaColor, Srgb};
use peniko::{BlendMode, ImageQuality};
use std::sync::Arc;

/// A renderer that writes down each call it receives.
#[derive(Default)]
struct TraceRenderer {
    trace: Vec<String>,
    depth: u32,
}

impl DrawSink for TraceRenderer {
    // Spec-only model; the unverified test renderer never evaluates it.
    fn drawn(&self) -> vstd::seq::Seq<DrawCall> {
        vstd::seq::Seq::empty()
    }
    fn surface_width(&self) -> u16 {
        100
    }
    fn surface_height(&self) -> u16 {
        50
    }
    fn set_transform(&mut self, t: Affine) {
        self.trace.push(format!("transform {:?}", t.as_coeffs()));
    }
    fn set_paint(&mut self, _paint: GlyphPaint) {
        self.trace.push("paint".to_string());
    }
    fn set_paint_transform(&mut self, t: Affine) {
        self.trace.push(format!("paint transform {:?}", t.as_coeffs()));
    }
    fn fill_path(&mut self, path: &BezPath) {
        self.trace.push(format!("fill path {}", path.elements().len()));
    }
    fn fill_rect(&mut self, rect: &Rect) {
        self.trace.push(format!("fill rect {}x{}", rect.width(), rect.height()));
    }
    fn push_clip_layer(&mut self, _clip: &BezPath) {
        self.trace.push("clip layer".to_string());
    }
    fn push_blend_layer(&mut self, _blend_mode: BlendMode) {
        self.trace.push("blend layer".to_string());
    }
    fn pop_layer(&mut self) {
        self.trace.push("pop layer".to_string());
    }
    fn width(&self) -> u16 {
        100
    }
    fn height(&self) -> u16 {
        50
    }
}

impl GlyphRenderer for TraceRenderer {
    type SavedState = u32;
    type Pixmap = Vec<u8>;

    // Spec-only model; the unverified test renderer never evaluates it.
    fn context_color(&self) -> AlphaColor<Srgb> {
        AlphaColor::from_rgba8(0, 0, 0, 255)
    }
    fn save_state(&mut self) -> u32 {
        self.depth += 1;
        self.trace.push("save".to_string());
        self.depth
    }
    fn restore_state(&mut self, state: u32) {
        self.trace.push(format!("restore {state}"));
        self.depth -= 1;
    }
    fn stroke_path(&mut self, path: &BezPath) {
        self.trace.push(format!("stroke path {}", path.elements().len()));
    }
    fn set_paint_image(&mut self, image: GlyphImage<Vec<u8>>) {
        self.trace.push(format!("image {} {:?}", image.pixmap.len(), image.quality));
    }
    fn get_context_color(&self) -> AlphaColor<Srgb> {
        AlphaColor::from_rgba8(0, 0, 0, 255)
    }
}

#[test]
fn uncached_outline_fill_is_bracketed_by_save_and_restore() {
    let mut r = TraceRenderer::default();
    let path = Rect::new(0.0, 0.0, 1.0, 1.0).to_path(0.1);
    fill_uncached_outline_glyph(&mut r, &path, Affine::scale(2.0), Affine::translate((1.0, 0.0)));
    assert_eq!(
        r.trace,
        vec![
            "save",
            "transform [2.0, 0.0, 0.0, 2.0, 0.0, 0.0]",
            "paint transform [1.0, 0.0, 0.0, 1.0, 1.0, 0.0]",
            "fill path 5",
            "restore 1",
        ]
    );
    assert_eq!(r.depth, 0);
}

#[test]
fn uncached_outline_stroke_strokes_the_path() {
    let mut r = TraceRenderer::default();
    let path = Rect::new(0.0, 0.0, 1.0, 1.0).to_path(0.1);
    stroke_uncached_outline_glyph(&mut r, &path, Affine::IDENTITY, Affine::IDENTITY);
    assert_eq!(r.trace[3], "stroke path 5");
    assert_eq!(r.trace.len(), 5);
    assert_eq!(r.depth, 0);
}

#[test]
fn uncached_bitmap_paints_its_image_over_its_area() {
    let mut r = TraceRenderer::default();
    let area = Rect::new(0.0, 0.0, 3.0, 4.0);
    render_uncached_bitmap_glyph(
        &mut r,
        Arc::new(vec![0u8; 48]),
        &area,
        Affine::translate((5.0, 6.0)),
        ImageQuality::High,
    );
    assert_eq!(
        r.trace,
        vec![
            "save",
            "transform [1.0, 0.0, 0.0, 1.0, 5.0, 6.0]",
            "image 48 High",
            "fill rect 3x4",
            "restore 1",
        ]
    );
}

#[test]
fn draw_calls_wrap_commands() {
    let call = DrawCall::Command(AtlasCommand::PopLayer);
    assert!(matches!(call, DrawCall::Command(AtlasCommand::PopLayer)));
}

/// A COLR painter that fills one rectangle.
struct RectPainter;

impl ColrPaint for RectPainter {
    fn paint<S: DrawSink + ?Sized>(&mut self, _context_color: AlphaColor<Srgb>, sink: &mut S) {
        sink.fill_rect(&Rect::new(0.0, 0.0, 1.0, 1.0));
    }
}

/// A cacher that draws every glyph it is offered, marking the renderer.
struct AlwaysCaches {
    offers: Vec<&'static str>,
}

impl GlyphCacher<TraceRenderer> for AlwaysCaches {
    fn run_config(&self, _renderer: &TraceRenderer, _font_size_bits: u32) -> CacheRunConfig {
        CacheRunConfig { cache_outlines: true, cache_colr_bitmap: true }
    }
    fn draw_cached_glyph(&mut self, r: &mut TraceRenderer, _glyph: &CacheableGlyph<'_>) -> bool {
        r.trace.push("from cache".to_string());
        true
    }
    fn draw_and_cache_outline(
        &mut self,
        r: &mut TraceRenderer,
        _data: &OutlineGlyphData<'_>,
        _glyph: &CacheableGlyph<'_>,
    ) -> bool {
        self.offers.push("outline");
        r.trace.push("from cache".to_string());
        true
    }
    fn draw_and_cache_bitmap(
        &mut self,
        r: &mut TraceRenderer,
        _data: &BitmapGlyphData<'_, Vec<u8>>,
        _glyph: &CacheableGlyph<'_>,
    ) -> bool {
        self.offers.push("bitmap");
        r.trace.push("from cache".to_string());
        true
    }
    fn draw_and_cache_colr<P: ColrPaint>(
        &mut self,
        r: &mut TraceRenderer,
        _data: &ColrGlyphData,
        _glyph: &CacheableGlyph<'_>,
        _paint: &mut P,
    ) -> bool {
        self.offers.push("colr");
        r.trace.push("from cache".to_string());
        true
    }
}

fn cacheable(kind: CacheableGlyphKind) -> CacheableGlyph<'static> {
    CacheableGlyph {
        font_id: 1,
        font_index: 0,
        glyph_id: 42,
        font_size_bits: 16.0f32.to_bits(),
        hinted: false,
        fractional_x_bits: 0.0f32.to_bits(),
        context_color: AlphaColor::from_rgba8(0, 0, 0, 255),
        context_color_packed: 0xff00_0000,
        var_coords: &[],
        kind,
        transform: Affine::IDENTITY,
    }
}

fn outline_glyph(cached: bool) -> PreparedGlyph<'static, Vec<u8>> {
    PreparedGlyph {
        glyph_type: GlyphType::Outline(OutlineGlyph {
            path: Arc::new(Rect::new(0.0, 0.0, 1.0, 1.0).to_path(0.1)),
            bbox: Rect::new(0.0, 0.0, 1.0, 1.0),
            scale_bits: 2.0f64.to_bits(),
            scaled_transform: Affine::scale(2.0),
        }),
        outline_transform: Affine::IDENTITY,
        relative_paint_transform: Affine::IDENTITY,
        cacheable: if cached { Some(cacheable(CacheableGlyphKind::Outline)) } else { None },
    }
}

fn colr_glyph(cached: bool, blend: bool) -> PreparedGlyph<'static, Vec<u8>> {
    let area = Rect::new(0.0, 0.0, 2.0, 2.0);
    PreparedGlyph {
        glyph_type: GlyphType::Colr(GlyphColr {
            area,
            clip: area.to_path(0.1),
            pix_width: 2,
            pix_height: 2,
            has_non_default_blend: blend,
        }),
        outline_transform: Affine::translate((1.0, 1.0)),
        relative_paint_transform: Affine::IDENTITY,
        cacheable: if cached { Some(cacheable(CacheableGlyphKind::Colr(area))) } else { None },
    }
}

#[test]
fn no_cache_never_caches() {
    let mut r = TraceRenderer::default();
    let mut cacher = NoCache;
    let config = GlyphCacher::<TraceRenderer>::run_config(&cacher, &r, 12.0f32.to_bits());
    assert_eq!(config, CacheRunConfig { cache_outlines: false, cache_colr_bitmap: false });
    let glyph = cacheable(CacheableGlyphKind::Outline);
    assert!(!cacher.draw_cached_glyph(&mut r, &glyph));
    assert!(r.trace.is_empty());
}

#[test]
fn uncacheable_glyph_is_rendered_directly() {
    let mut r = TraceRenderer::default();
    let mut cacher = AlwaysCaches { offers: vec![] };
    let by_cacher = fill_glyph(&mut r, &mut cacher, outline_glyph(false), &mut RectPainter);
    assert!(!by_cacher);
    assert!(cacher.offers.is_empty());
    assert_eq!(r.trace[0], "save");
    assert_eq!(r.trace[3], "fill path 5");
    assert_eq!(r.trace.len(), 5);
}

#[test]
fn glyph_drawn_by_cacher_is_not_rendered_directly() {
    let mut r = TraceRenderer::default();
    let mut cacher = AlwaysCaches { offers: vec![] };
    let by_cacher = fill_glyph(&mut r, &mut cacher, outline_glyph(true), &mut RectPainter);
    assert!(by_cacher);
    assert_eq!(cacher.offers, vec!["outline"]);
    assert_eq!(r.trace, vec!["from cache"]);
}

#[test]
fn glyph_refused_by_cacher_falls_back() {
    let mut r = TraceRenderer::default();
    let by_cacher = fill_glyph(&mut r, &mut NoCache, outline_glyph(true), &mut RectPainter);
    assert!(!by_cacher);
    assert_eq!(r.trace.len(), 5);
    assert_eq!(r.trace[1], "transform [2.0, 0.0, 0.0, 2.0, 0.0, 0.0]");
}

#[test]
fn colr_glyph_rendered_directly_in_its_clip() {
    let mut r = TraceRenderer::default();
    fill_glyph(&mut r, &mut NoCache, colr_glyph(true, true), &mut RectPainter);
    assert_eq!(
        r.trace,
        vec![
            "save",
            "transform [1.0, 0.0, 0.0, 1.0, 1.0, 1.0]",
            "clip layer",
            "fill rect 1x1",
            "pop layer",
            "restore 1",
        ]
    );
    let mut cacher = AlwaysCaches { offers: vec![] };
    let mut r2 = TraceRenderer::default();
    assert!(fill_glyph(&mut r2, &mut cacher, colr_glyph(true, false), &mut RectPainter));
    assert_eq!(cacher.offers, vec!["colr"]);
}

#[test]
fn bitmap_glyph_offered_then_drawn() {
    let glyph = PreparedGlyph {
        glyph_type: GlyphType::Bitmap(GlyphBitmap {
            pixmap: Arc::new(vec![0u8; 16]),
            area: Rect::new(0.0, 0.0, 2.0, 2.0),
            quality: ImageQuality::Medium,
        }),
        outline_transform: Affine::IDENTITY,
        relative_paint_transform: Affine::IDENTITY,
        cacheable: Some(cacheable(CacheableGlyphKind::Bitmap)),
    };
    let mut r = TraceRenderer::default();
    assert!(!fill_glyph(&mut r, &mut NoCache, glyph, &mut RectPainter));
    assert_eq!(r.trace[2], "image 16 Medium");
}

#[test]
fn stroked_outline_is_never_offered() {
    let mut r = TraceRenderer::default();
    let mut cacher = AlwaysCaches { offers: vec![] };
    let by_cacher = stroke_glyph(&mut r, &mut cacher, outline_glyph(true), &mut RectPainter);
    assert!(!by_cacher);
    assert!(cacher.offers.is_empty());
    assert_eq!(r.trace[3], "stroke path 5");
    let by_cacher = stroke_glyph(&mut r, &mut cacher, colr_glyph(true, false), &mut RectPainter);
    assert!(by_cacher);
    assert_eq!(cacher.offers, vec!["colr"]);
}
