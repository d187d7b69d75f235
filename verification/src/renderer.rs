//! Direct (uncached) glyph rendering, and the clip in which a COLR glyph is
//! painted.

use vstd::prelude::*;
use std::sync::Arc;
use kurbo::{Affine, BezPath, Rect};
use peniko::ImageQuality;
use crate::bitmap::GlyphImage;
use crate::commands::AtlasCommand;
use peniko::color::{AlphaColor, Srgb};
use crate::cache::{
    BitmapGlyphData, ColrGlyphData, ColrPaint, GlyphCacher, NoCache, OutlineGlyphData,
};
use crate::glyph::{GlyphColr, GlyphType, PreparedGlyph};
use crate::interface::{carried_out, carries_out, DrawCall, DrawSink, GlyphRenderer};

verus! {

/// Open the clip that a COLR glyph is painted in, given the glyph's area as a
/// path.
///
/// A glyph whose paint graph uses a non-default blend mode is isolated in a
/// clip layer, so that its blending cannot reach what is already drawn; any
/// other glyph only needs its area clipped, which the sink may do without a
/// layer.
pub fn push_colr_clip<S: DrawSink + ?Sized>(sink: &mut S, clip: &BezPath, has_non_default_blend: bool)
    ensures
        has_non_default_blend ==> (*final(sink)).drawn() == (*old(sink)).drawn().push(
            DrawCall::Command(AtlasCommand::PushClipLayer(*clip)),
        ),
        !has_non_default_blend ==> carried_out(
            (*old(sink)).drawn(),
            (*final(sink)).drawn(),
            seq![AtlasCommand::PushClipPath(*clip)],
        ),
{
    if has_non_default_blend {
        sink.push_clip_layer(clip);
    } else {
        sink.push_clip_path(clip);
    }
}

/// Close the clip opened by [`push_colr_clip`] for the same glyph.
pub fn pop_colr_clip<S: DrawSink + ?Sized>(sink: &mut S, has_non_default_blend: bool)
    ensures
        has_non_default_blend ==> (*final(sink)).drawn() == (*old(sink)).drawn().push(
            DrawCall::Command(AtlasCommand::PopLayer),
        ),
        !has_non_default_blend ==> carried_out(
            (*old(sink)).drawn(),
            (*final(sink)).drawn(),
            seq![AtlasCommand::PopClipPath],
        ),
{
    if has_non_default_blend {
        sink.pop_layer();
    } else {
        sink.pop_clip_path();
    }
}

/// Fill an outline glyph directly: within a saved renderer state, set the
/// glyph's transform (the outline transform pre-scaled by the glyph's scale)
/// and paint transform, and fill the glyph's path.
pub fn fill_uncached_outline_glyph<R: GlyphRenderer + ?Sized>(
    renderer: &mut R,
    path: &BezPath,
    scaled_transform: Affine,
    paint_transform: Affine,
)
    ensures
        (*final(renderer)).drawn() == (*old(renderer)).drawn() + seq![
            DrawCall::SaveState,
            DrawCall::Command(AtlasCommand::SetTransform(scaled_transform)),
            DrawCall::Command(AtlasCommand::SetPaintTransform(paint_transform)),
            DrawCall::Command(AtlasCommand::FillPath(*path)),
            DrawCall::RestoreState,
        ],
{
    let ghost before = (*renderer).drawn();
    let state = renderer.save_state();
    renderer.set_transform(scaled_transform);
    renderer.set_paint_transform(paint_transform);
    renderer.fill_path(path);
    renderer.restore_state(state);
    proof {
        assert((*renderer).drawn() =~= before + seq![
            DrawCall::SaveState,
            DrawCall::Command(AtlasCommand::SetTransform(scaled_transform)),
            DrawCall::Command(AtlasCommand::SetPaintTransform(paint_transform)),
            DrawCall::Command(AtlasCommand::FillPath(*path)),
            DrawCall::RestoreState,
        ]);
    }
}

/// Stroke an outline glyph directly: within a saved renderer state, set the
/// glyph's transform (the outline transform pre-scaled by the glyph's scale)
/// and paint transform, and stroke the glyph's path.
pub fn stroke_uncached_outline_glyph<R: GlyphRenderer + ?Sized>(
    renderer: &mut R,
    path: &BezPath,
    scaled_transform: Affine,
    paint_transform: Affine,
)
    ensures
        (*final(renderer)).drawn() == (*old(renderer)).drawn() + seq![
            DrawCall::SaveState,
            DrawCall::Command(AtlasCommand::SetTransform(scaled_transform)),
            DrawCall::Command(AtlasCommand::SetPaintTransform(paint_transform)),
            DrawCall::StrokePath(*path),
            DrawCall::RestoreState,
        ],
{
    let ghost before = (*renderer).drawn();
    let state = renderer.save_state();
    renderer.set_transform(scaled_transform);
    renderer.set_paint_transform(paint_transform);
    renderer.stroke_path(path);
    renderer.restore_state(state);
    proof {
        assert((*renderer).drawn() =~= before + seq![
            DrawCall::SaveState,
            DrawCall::Command(AtlasCommand::SetTransform(scaled_transform)),
            DrawCall::Command(AtlasCommand::SetPaintTransform(paint_transform)),
            DrawCall::StrokePath(*path),
            DrawCall::RestoreState,
        ]);
    }
}

/// Render a bitmap glyph directly: within a saved renderer state, set the
/// outline transform, paint with the glyph's pixels sampled at `quality`
/// (chosen from the transform's downscale), and fill the glyph's area.
pub fn render_uncached_bitmap_glyph<R: GlyphRenderer + ?Sized>(
    renderer: &mut R,
    pixmap: Arc<R::Pixmap>,
    area: &Rect,
    outline_transform: Affine,
    quality: ImageQuality,
)
    ensures
        (*final(renderer)).drawn() == (*old(renderer)).drawn() + seq![
            DrawCall::SaveState,
            DrawCall::Command(AtlasCommand::SetTransform(outline_transform)),
            DrawCall::SetPaintImage(quality),
            DrawCall::Command(AtlasCommand::FillRect(*area)),
            DrawCall::RestoreState,
        ],
{
    let ghost before = (*renderer).drawn();
    let image = GlyphImage { pixmap, quality };
    let state = renderer.save_state();
    renderer.set_transform(outline_transform);
    renderer.set_paint_image(image);
    renderer.fill_rect(area);
    renderer.restore_state(state);
    proof {
        assert((*renderer).drawn() =~= before + seq![
            DrawCall::SaveState,
            DrawCall::Command(AtlasCommand::SetTransform(outline_transform)),
            DrawCall::SetPaintImage(quality),
            DrawCall::Command(AtlasCommand::FillRect(*area)),
            DrawCall::RestoreState,
        ]);
    }
}

/// `after` is `before` followed by a COLR glyph painted in its clip: first
/// the clip is opened (an isolating clip layer for a glyph with non-default
/// blending, otherwise the glyph's clip path), then the sink carries out the
/// painter's commands `painting`, in order, and last the clip is closed (a
/// layer pop, or the clip-path pop).
pub open spec fn colr_painted(
    before: Seq<DrawCall>,
    after: Seq<DrawCall>,
    clip: BezPath,
    has_non_default_blend: bool,
    painting: Seq<AtlasCommand>,
) -> bool {
    &&& after.len() == before.len() + painting.len() + 2
    &&& after.subrange(0, before.len() as int) == before
    &&& has_non_default_blend ==> after[before.len() as int] == DrawCall::Command(
        AtlasCommand::PushClipLayer(clip),
    )
    &&& !has_non_default_blend ==> carries_out(
        after[before.len() as int],
        AtlasCommand::PushClipPath(clip),
    )
    &&& carried_out(
        after.subrange(0, before.len() + 1int),
        after.subrange(0, before.len() + 1int + painting.len()),
        painting,
    )
    &&& has_non_default_blend ==> after.last() == DrawCall::Command(AtlasCommand::PopLayer)
    &&& !has_non_default_blend ==> carries_out(after.last(), AtlasCommand::PopClipPath)
}

/// `after` is `before` followed by a COLR glyph rendered directly at
/// `outline_transform`: within a saved state, the transform is set and the
/// glyph is painted in its clip.
pub open spec fn colr_rendered(
    before: Seq<DrawCall>,
    after: Seq<DrawCall>,
    glyph: GlyphColr,
    outline_transform: Affine,
    painting: Seq<AtlasCommand>,
) -> bool {
    &&& after.len() >= before.len() + 3
    &&& after.last() == DrawCall::RestoreState
    &&& colr_painted(
        before + seq![
            DrawCall::SaveState,
            DrawCall::Command(AtlasCommand::SetTransform(outline_transform)),
        ],
        after.drop_last(),
        glyph.clip,
        glyph.has_non_default_blend,
        painting,
    )
}

/// `after` is `before` followed by the direct (uncached) rendering of a
/// filled glyph; a COLR glyph's painter asks for `painting`.
pub open spec fn rendered_directly<P>(
    before: Seq<DrawCall>,
    after: Seq<DrawCall>,
    glyph: PreparedGlyph<'_, P>,
    painting: Seq<AtlasCommand>,
) -> bool {
    match glyph.glyph_type {
        GlyphType::Outline(outline) => after == before + seq![
            DrawCall::SaveState,
            DrawCall::Command(AtlasCommand::SetTransform(outline.scaled_transform)),
            DrawCall::Command(AtlasCommand::SetPaintTransform(glyph.relative_paint_transform)),
            DrawCall::Command(AtlasCommand::FillPath(*outline.path)),
            DrawCall::RestoreState,
        ],
        GlyphType::Bitmap(bitmap) => after == before + seq![
            DrawCall::SaveState,
            DrawCall::Command(AtlasCommand::SetTransform(glyph.outline_transform)),
            DrawCall::SetPaintImage(bitmap.quality),
            DrawCall::Command(AtlasCommand::FillRect(bitmap.area)),
            DrawCall::RestoreState,
        ],
        GlyphType::Colr(colr) => colr_rendered(
            before,
            after,
            colr,
            glyph.outline_transform,
            painting,
        ),
    }
}

/// What offering a prepared glyph to `cacher` gives, with `renderer` in its
/// current state and a COLR glyph's painter asking for `painting`: `None`
/// for a glyph that may not be cached, otherwise the cacher's answer to the
/// offer of the glyph's kind.
pub open spec fn fill_offer<R: GlyphRenderer + ?Sized, C: GlyphCacher<R>>(
    cacher: C,
    renderer: &R,
    glyph: PreparedGlyph<'_, R::Pixmap>,
    painting: Seq<AtlasCommand>,
) -> Option<Seq<DrawCall>> {
    match glyph.cacheable {
        None => None,
        Some(info) => match glyph.glyph_type {
            GlyphType::Outline(outline) => cacher.outline_offer(
                renderer,
                OutlineGlyphData {
                    path: &outline.path,
                    bbox: outline.bbox,
                    scale_bits: outline.scale_bits,
                },
                info,
            ),
            GlyphType::Bitmap(bitmap) => cacher.bitmap_offer(
                renderer,
                BitmapGlyphData { pixmap: &bitmap.pixmap, area: bitmap.area },
                info,
            ),
            GlyphType::Colr(colr) => cacher.colr_offer(
                renderer,
                ColrGlyphData {
                    area: colr.area,
                    pix_width: colr.pix_width,
                    pix_height: colr.pix_height,
                    has_non_default_blend: colr.has_non_default_blend,
                },
                info,
                painting,
            ),
        },
    }
}

/// Paint a COLR glyph into a sink, wrapped in the clip it is painted in (see
/// [`push_colr_clip`]): the painter paints once, with `context_color`,
/// between the clip's push and pop. The sink is expected to already have the
/// desired base transform set.
pub fn paint_colr_glyph<S: DrawSink + ?Sized, P: ColrPaint>(
    glyph: &GlyphColr,
    context_color: AlphaColor<Srgb>,
    sink: &mut S,
    painter: &mut P,
)
    ensures
        colr_painted(
            (*old(sink)).drawn(),
            (*final(sink)).drawn(),
            glyph.clip,
            glyph.has_non_default_blend,
            old(painter).painting(context_color),
        ),
{
    let ghost before = (*sink).drawn();
    let ghost painting = painter.painting(context_color);
    push_colr_clip(sink, &glyph.clip, glyph.has_non_default_blend);
    let ghost opened = (*sink).drawn();
    painter.paint(context_color, sink);
    let ghost painted = (*sink).drawn();
    pop_colr_clip(sink, glyph.has_non_default_blend);
    proof {
        let after = (*sink).drawn();
        let b = before.len() as int;
        assert(opened.len() == b + 1);
        assert(opened.subrange(0, b) =~= before);
        if !glyph.has_non_default_blend {
            assert(seq![AtlasCommand::PushClipPath(glyph.clip)][0] == AtlasCommand::PushClipPath(
                glyph.clip,
            ));
            assert(seq![AtlasCommand::PopClipPath][0] == AtlasCommand::PopClipPath);
        }
        assert(painted.len() == opened.len() + painting.len());
        assert(painted.subrange(0, opened.len() as int) == opened);
        assert(after.len() == painted.len() + 1);
        assert(after.subrange(0, painted.len() as int) =~= painted);
        assert(after.subrange(0, b + 1) =~= opened) by {
            assert forall|k: int| 0 <= k < b + 1 implies after[k] == opened[k] by {
                assert(after[k] == painted[k]);
                assert(painted[k] == painted.subrange(0, opened.len() as int)[k]);
            }
        }
        assert(after.subrange(0, b + 1 + painting.len()) =~= painted);
        assert(after[b] == opened[b]);
        assert(after.subrange(0, b) =~= before) by {
            assert forall|k: int| 0 <= k < b implies after[k] == before[k] by {
                assert(after[k] == opened[k]);
                assert(opened[k] == opened.subrange(0, b)[k]);
            }
        }
        assert(after.last() == after[painted.len() as int]);
    }
}

/// Render a COLR glyph directly: within a saved renderer state, set the
/// outline transform and paint the glyph in its clip.
pub fn render_uncached_colr_glyph<R: GlyphRenderer + ?Sized, P: ColrPaint>(
    renderer: &mut R,
    glyph: &GlyphColr,
    outline_transform: Affine,
    context_color: AlphaColor<Srgb>,
    painter: &mut P,
)
    ensures
        colr_rendered(
            (*old(renderer)).drawn(),
            (*final(renderer)).drawn(),
            *glyph,
            outline_transform,
            old(painter).painting(context_color),
        ),
{
    let ghost before = (*renderer).drawn();
    let state = renderer.save_state();
    renderer.set_transform(outline_transform);
    let ghost framed = (*renderer).drawn();
    paint_colr_glyph(glyph, context_color, renderer, painter);
    let ghost painted = (*renderer).drawn();
    renderer.restore_state(state);
    proof {
        assert(framed =~= before + seq![
            DrawCall::SaveState,
            DrawCall::Command(AtlasCommand::SetTransform(outline_transform)),
        ]);
        assert((*renderer).drawn().drop_last() =~= painted);
    }
}

/// Fill a prepared glyph, offering it to the cacher first (when it may be
/// cached) and rendering it directly only when the cacher did not draw it.
///
/// Returns whether the cacher drew the glyph: exactly when the glyph may be
/// cached and the cacher takes it ([`fill_offer`]). Then the renderer is left
/// as the cacher drew it, with no direct rendering; otherwise the glyph is
/// rendered directly, after a cacher that declined left the renderer as it
/// was. A COLR glyph's painter paints in the renderer's context color.
pub fn fill_glyph<R: GlyphRenderer + ?Sized, C: GlyphCacher<R>, P: ColrPaint>(
    renderer: &mut R,
    cacher: &mut C,
    prepared_glyph: PreparedGlyph<'_, R::Pixmap>,
    painter: &mut P,
) -> (by_cacher: bool)
    ensures
        prepared_glyph.cacheable is None ==> !by_cacher,
        by_cacher == (fill_offer(
            *old(cacher),
            &*old(renderer),
            prepared_glyph,
            old(painter).painting(old(renderer).context_color()),
        ) is Some),
        by_cacher ==> (*final(renderer)).drawn() == fill_offer(
            *old(cacher),
            &*old(renderer),
            prepared_glyph,
            old(painter).painting(old(renderer).context_color()),
        )->0,
        !by_cacher ==> rendered_directly(
            (*old(renderer)).drawn(),
            (*final(renderer)).drawn(),
            prepared_glyph,
            old(painter).painting(old(renderer).context_color()),
        ),
{
    let PreparedGlyph {
        glyph_type,
        outline_transform: transform,
        relative_paint_transform: paint_transform,
        cacheable,
    } = prepared_glyph;
    match glyph_type {
        GlyphType::Outline(glyph) => {
            if let Some(info) = &cacheable {
                let data = OutlineGlyphData {
                    path: &glyph.path,
                    bbox: glyph.bbox,
                    scale_bits: glyph.scale_bits,
                };
                if cacher.draw_and_cache_outline(renderer, &data, info) {
                    return true;
                }
            }
            fill_uncached_outline_glyph(renderer, &glyph.path, glyph.scaled_transform, paint_transform);
            false
        },
        GlyphType::Bitmap(glyph) => {
            if let Some(info) = &cacheable {
                let data = BitmapGlyphData { pixmap: &glyph.pixmap, area: glyph.area };
                if cacher.draw_and_cache_bitmap(renderer, &data, info) {
                    return true;
                }
            }
            render_uncached_bitmap_glyph(renderer, glyph.pixmap, &glyph.area, transform, glyph.quality);
            false
        },
        GlyphType::Colr(glyph) => {
            let context_color = renderer.get_context_color();
            if let Some(info) = &cacheable {
                let data = ColrGlyphData {
                    area: glyph.area,
                    pix_width: glyph.pix_width,
                    pix_height: glyph.pix_height,
                    has_non_default_blend: glyph.has_non_default_blend,
                };
                if cacher.draw_and_cache_colr(renderer, &data, info, painter) {
                    return true;
                }
            }
            render_uncached_colr_glyph(renderer, &glyph, transform, context_color, painter);
            false
        },
    }
}

/// Stroke a prepared glyph.
///
/// Stroked outlines are never offered to the cacher (the stroke parameters
/// would need to be part of the cache key) and are stroked directly; COLR
/// and bitmap glyphs are always filled, through [`fill_glyph`], with the
/// same result and effect.
pub fn stroke_glyph<R: GlyphRenderer + ?Sized, C: GlyphCacher<R>, P: ColrPaint>(
    renderer: &mut R,
    cacher: &mut C,
    prepared_glyph: PreparedGlyph<'_, R::Pixmap>,
    painter: &mut P,
) -> (by_cacher: bool)
    ensures
        prepared_glyph.glyph_type is Outline ==> !by_cacher && (*final(renderer)).drawn() == (
        *old(renderer)).drawn() + seq![
            DrawCall::SaveState,
            DrawCall::Command(
                AtlasCommand::SetTransform(prepared_glyph.glyph_type->Outline_0.scaled_transform),
            ),
            DrawCall::Command(
                AtlasCommand::SetPaintTransform(prepared_glyph.relative_paint_transform),
            ),
            DrawCall::StrokePath(*prepared_glyph.glyph_type->Outline_0.path),
            DrawCall::RestoreState,
        ],
        !(prepared_glyph.glyph_type is Outline) && prepared_glyph.cacheable is None ==> !by_cacher,
        !(prepared_glyph.glyph_type is Outline) ==> by_cacher == (fill_offer(
            *old(cacher),
            &*old(renderer),
            prepared_glyph,
            old(painter).painting(old(renderer).context_color()),
        ) is Some),
        !(prepared_glyph.glyph_type is Outline) && by_cacher ==> (*final(renderer)).drawn()
            == fill_offer(
            *old(cacher),
            &*old(renderer),
            prepared_glyph,
            old(painter).painting(old(renderer).context_color()),
        )->0,
        !(prepared_glyph.glyph_type is Outline) && !by_cacher ==> rendered_directly(
            (*old(renderer)).drawn(),
            (*final(renderer)).drawn(),
            prepared_glyph,
            old(painter).painting(old(renderer).context_color()),
        ),
{
    match prepared_glyph.glyph_type {
        GlyphType::Outline(ref glyph) => {
            stroke_uncached_outline_glyph(
                renderer,
                &glyph.path,
                glyph.scaled_transform,
                prepared_glyph.relative_paint_transform,
            );
            false
        },
        GlyphType::Bitmap(_) | GlyphType::Colr(_) => fill_glyph(renderer, cacher, prepared_glyph, painter),
    }
}

/// A glyph that may not be cached is never taken by a cacher: whatever the
/// cacher, [`fill_glyph`] and [`stroke_glyph`] render it directly.
pub proof fn lemma_uncacheable_glyph_is_not_offered<R: GlyphRenderer + ?Sized, C: GlyphCacher<R>>(
    cacher: C,
    renderer: &R,
    glyph: PreparedGlyph<'_, R::Pixmap>,
    painting: Seq<AtlasCommand>,
)
    requires
        glyph.cacheable is None,
    ensures
        fill_offer(cacher, renderer, glyph, painting) is None,
{
}

/// The cacher that never caches declines every glyph, so [`fill_glyph`] with
/// it renders every glyph directly.
pub proof fn lemma_no_cache_declines_every_glyph<R: GlyphRenderer + ?Sized>(
    renderer: &R,
    glyph: PreparedGlyph<'_, R::Pixmap>,
    painting: Seq<AtlasCommand>,
)
    ensures
        fill_offer(NoCache, renderer, glyph, painting) is None,
{
}

/// Between the clip's push and its pop, a COLR glyph painted in its clip
/// holds exactly one command carried out for each of the painter's
/// commands, in order, whether or not the glyph blends by default.
pub proof fn lemma_colr_painting_is_inside_the_clip(
    before: Seq<DrawCall>,
    after: Seq<DrawCall>,
    clip: BezPath,
    has_non_default_blend: bool,
    painting: Seq<AtlasCommand>,
)
    requires
        colr_painted(before, after, clip, has_non_default_blend, painting),
    ensures
        after.len() == before.len() + painting.len() + 2,
        forall|i: int|
            #![trigger painting[i]]
            0 <= i < painting.len() ==> carries_out(after[before.len() + 1 + i], painting[i]),
{
    let b = before.len() as int;
    let opened = after.subrange(0, b + 1);
    let painted = after.subrange(0, b + 1 + painting.len());
    assert forall|i: int| #![trigger painting[i]] 0 <= i < painting.len() implies carries_out(
        after[before.len() + 1 + i],
        painting[i],
    ) by {
        assert(carries_out(painted[opened.len() + i], painting[i]));
        assert(painted[opened.len() + i] == after[b + 1 + i]);
    }
}

} // verus!
