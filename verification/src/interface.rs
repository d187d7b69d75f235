//! Renderer-neutral glyph paints and the sink that low-level glyph drawing
//! commands go to.

use vstd::prelude::*;
use kurbo::{Affine, BezPath, Rect};
use peniko::{BlendMode, Gradient, ImageQuality};
use peniko::color::{AlphaColor, Srgb};
use crate::bitmap::GlyphImage;
use crate::commands::AtlasCommand;

verus! {

/// A renderer-neutral paint for glyph drawing.
///
/// COLR glyphs only require solid colors and gradients.
#[derive(Clone, Debug)]
pub enum GlyphPaint {
    /// A solid color.
    Solid(AlphaColor<Srgb>),
    /// A gradient.
    Gradient(Gradient),
}

impl From<AlphaColor<Srgb>> for GlyphPaint {
    fn from(color: AlphaColor<Srgb>) -> (paint: Self) {
        GlyphPaint::Solid(color)
    }
}

impl vstd::std_specs::convert::FromSpecImpl<AlphaColor<Srgb>> for GlyphPaint {
    open spec fn obeys_from_spec() -> bool {
        true
    }

    open spec fn from_spec(v: AlphaColor<Srgb>) -> Self {
        GlyphPaint::Solid(v)
    }
}

impl From<Gradient> for GlyphPaint {
    fn from(gradient: Gradient) -> (paint: Self) {
        GlyphPaint::Gradient(gradient)
    }
}

impl vstd::std_specs::convert::FromSpecImpl<Gradient> for GlyphPaint {
    open spec fn obeys_from_spec() -> bool {
        true
    }

    open spec fn from_spec(v: Gradient) -> Self {
        GlyphPaint::Gradient(v)
    }
}

/// One call that a sink or glyph renderer has taken effect of.
pub enum DrawCall {
    /// A low-level drawing command.
    Command(AtlasCommand),
    /// The renderer's state was saved.
    SaveState,
    /// The renderer's state was restored.
    RestoreState,
    /// A path was stroked with the current paint and stroke settings.
    StrokePath(BezPath),
    /// The paint was set to a bitmap glyph image sampled at this quality.
    SetPaintImage(ImageQuality),
}

/// Whether `drawn`, a command that a sink took effect of, carries out the
/// request `asked`: it is the same command, or `asked` is a clip path (or the
/// pop of one) and `drawn` is the clip layer (or layer pop) that can stand for it.
pub open spec fn carries_out(drawn: DrawCall, asked: AtlasCommand) -> bool {
    ||| drawn == DrawCall::Command(asked)
    ||| (asked matches AtlasCommand::PushClipPath(clip) && drawn == DrawCall::Command(
        AtlasCommand::PushClipLayer(clip),
    ))
    ||| (asked is PopClipPath && drawn == DrawCall::Command(AtlasCommand::PopLayer))
}

/// `after` is `before` followed by one command for each request of `asked`,
/// in order, each carrying its request out.
pub open spec fn carried_out(
    before: Seq<DrawCall>,
    after: Seq<DrawCall>,
    asked: Seq<AtlasCommand>,
) -> bool {
    &&& after.len() == before.len() + asked.len()
    &&& after.subrange(0, before.len() as int) == before
    &&& forall|i: int|
        #![trigger asked[i]]
        0 <= i < asked.len() ==> carries_out(after[before.len() + i], asked[i])
}

/// A sink for low-level glyph drawing commands.
///
/// A sink is modelled by the commands it has taken effect of, oldest first
/// ([`DrawSink::drawn`]): each drawing method adds the command it was asked
/// for, except that a clip path may be taken as the clip layer that can stand
/// for it, and its pop as a layer pop.
pub trait DrawSink {
    /// The commands this sink has taken effect of, oldest first.
    spec fn drawn(&self) -> Seq<DrawCall>;

    /// Set the current transform.
    fn set_transform(&mut self, t: Affine)
        ensures
            (*final(self)).drawn() == (*old(self)).drawn().push(DrawCall::Command(AtlasCommand::SetTransform(t))),
    ;

    /// Set the current paint.
    fn set_paint(&mut self, paint: GlyphPaint)
        ensures
            (*final(self)).drawn() == (*old(self)).drawn().push(DrawCall::Command(AtlasCommand::SetPaint(paint))),
    ;

    /// Set the paint transform.
    fn set_paint_transform(&mut self, t: Affine)
        ensures
            (*final(self)).drawn() == (*old(self)).drawn().push(
                DrawCall::Command(AtlasCommand::SetPaintTransform(t)),
            ),
    ;

    /// Fill a path with the current paint and transform.
    fn fill_path(&mut self, path: &BezPath)
        ensures
            (*final(self)).drawn() == (*old(self)).drawn().push(DrawCall::Command(AtlasCommand::FillPath(*path))),
    ;

    /// Fill a rectangle with the current paint and transform.
    fn fill_rect(&mut self, rect: &Rect)
        ensures
            (*final(self)).drawn() == (*old(self)).drawn().push(DrawCall::Command(AtlasCommand::FillRect(*rect))),
    ;

    /// Push a clip layer defined by a path.
    fn push_clip_layer(&mut self, clip: &BezPath)
        ensures
            (*final(self)).drawn() == (*old(self)).drawn().push(
                DrawCall::Command(AtlasCommand::PushClipLayer(*clip)),
            ),
    ;

    /// Push a clip path.
    ///
    /// By default this pushes a clip layer, which is correct; a sink may
    /// instead clip more cheaply, without an isolated layer, and then overrides
    /// [`DrawSink::pop_clip_path`] to match.
    fn push_clip_path(&mut self, clip: &BezPath)
        ensures
            carried_out(
                (*old(self)).drawn(),
                (*final(self)).drawn(),
                seq![AtlasCommand::PushClipPath(*clip)],
            ),
        default_ensures
            (*final(self)).drawn() == (*old(self)).drawn().push(
                DrawCall::Command(AtlasCommand::PushClipLayer(*clip)),
            ),
    {
        self.push_clip_layer(clip);
        proof {
            let before = (*old(self)).drawn();
            assert((*self).drawn().subrange(0, before.len() as int) =~= before);
            assert(carries_out(
                (*self).drawn()[before.len() as int],
                seq![AtlasCommand::PushClipPath(*clip)][0],
            ));
        }
    }

    /// Push a blend/compositing layer.
    fn push_blend_layer(&mut self, blend_mode: BlendMode)
        ensures
            (*final(self)).drawn() == (*old(self)).drawn().push(
                DrawCall::Command(AtlasCommand::PushBlendLayer(blend_mode)),
            ),
    ;

    /// Pop the most recent clip or blend layer.
    fn pop_layer(&mut self)
        ensures
            (*final(self)).drawn() == (*old(self)).drawn().push(DrawCall::Command(AtlasCommand::PopLayer)),
    ;

    /// Pop the most recent clip path.
    ///
    /// By default this pops a layer, matching the default of
    /// [`DrawSink::push_clip_path`].
    fn pop_clip_path(&mut self)
        ensures
            carried_out(
                (*old(self)).drawn(),
                (*final(self)).drawn(),
                seq![AtlasCommand::PopClipPath],
            ),
        default_ensures
            (*final(self)).drawn() == (*old(self)).drawn().push(DrawCall::Command(AtlasCommand::PopLayer)),
    {
        self.pop_layer();
        proof {
            let before = (*old(self)).drawn();
            assert((*self).drawn().subrange(0, before.len() as int) =~= before);
            assert(carries_out(
                (*self).drawn()[before.len() as int],
                seq![AtlasCommand::PopClipPath][0],
            ));
        }
    }

    /// Width of the surface.
    fn width(&self) -> (w: u16)
        ensures
            w == self.surface_width(),
    ;

    /// Height of the surface.
    fn height(&self) -> (h: u16)
        ensures
            h == self.surface_height(),
    ;

    /// The width of the surface this sink draws to.
    spec fn surface_width(&self) -> u16;

    /// The height of the surface this sink draws to.
    spec fn surface_height(&self) -> u16;
}

impl<T: DrawSink + ?Sized> DrawSink for &mut T {
    open spec fn drawn(&self) -> Seq<DrawCall> {
        (**self).drawn()
    }

    open spec fn surface_width(&self) -> u16 {
        (**self).surface_width()
    }

    open spec fn surface_height(&self) -> u16 {
        (**self).surface_height()
    }

    fn set_transform(&mut self, t: Affine) {
        (**self).set_transform(t);
    }

    fn set_paint(&mut self, paint: GlyphPaint) {
        (**self).set_paint(paint);
    }

    fn set_paint_transform(&mut self, t: Affine) {
        (**self).set_paint_transform(t);
    }

    fn fill_path(&mut self, path: &BezPath) {
        (**self).fill_path(path);
    }

    fn fill_rect(&mut self, rect: &Rect) {
        (**self).fill_rect(rect);
    }

    fn push_clip_layer(&mut self, clip: &BezPath) {
        (**self).push_clip_layer(clip);
    }

    fn push_clip_path(&mut self, clip: &BezPath) {
        (**self).push_clip_path(clip);
    }

    fn push_blend_layer(&mut self, blend_mode: BlendMode) {
        (**self).push_blend_layer(blend_mode);
    }

    fn pop_layer(&mut self) {
        (**self).pop_layer();
    }

    fn pop_clip_path(&mut self) {
        (**self).pop_clip_path();
    }

    fn width(&self) -> (w: u16) {
        (**self).width()
    }

    fn height(&self) -> (h: u16) {
        (**self).height()
    }
}

/// A stateful renderer that can draw sequences of glyphs.
///
/// Besides the sink's drawing commands, [`DrawSink::drawn`] holds the
/// renderer's own calls: state saves and restores, stroked paths and image
/// paints.
pub trait GlyphRenderer: DrawSink {
    /// The type of state used by the renderer.
    type SavedState;

    /// The pixel buffer type of the bitmap glyph images this renderer paints.
    type Pixmap;

    /// The color the renderer's current paint gives context-dependent COLR
    /// colors.
    spec fn context_color(&self) -> AlphaColor<Srgb>;

    /// Save the current state.
    fn save_state(&mut self) -> (state: Self::SavedState)
        ensures
            (*final(self)).drawn() == (*old(self)).drawn().push(DrawCall::SaveState),
    ;

    /// Restore the current state.
    fn restore_state(&mut self, state: Self::SavedState)
        ensures
            (*final(self)).drawn() == (*old(self)).drawn().push(DrawCall::RestoreState),
    ;

    /// Stroke a path with the current paint and stroke settings.
    fn stroke_path(&mut self, path: &BezPath)
        ensures
            (*final(self)).drawn() == (*old(self)).drawn().push(DrawCall::StrokePath(*path)),
    ;

    /// Set the current paint to a bitmap glyph image.
    fn set_paint_image(&mut self, image: GlyphImage<Self::Pixmap>)
        ensures
            (*final(self)).drawn() == (*old(self)).drawn().push(
                DrawCall::SetPaintImage(image.quality),
            ),
    ;

    /// Get the context color from the renderer's current paint, used for
    /// resolving the context-dependent colors of COLR glyphs.
    fn get_context_color(&self) -> (color: AlphaColor<Srgb>)
        ensures
            color == self.context_color(),
    ;
}

} // verus!
