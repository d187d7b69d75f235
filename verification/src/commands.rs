//! Recorded draw commands for atlas pages, and their replay into a sink.

use vstd::prelude::*;
use kurbo::{Affine, BezPath, Rect};
use peniko::BlendMode;
use crate::interface::{carried_out, carries_out, DrawCall, DrawSink, GlyphPaint};

verus! {

/// One recorded low-level drawing command, replayed later into a
/// [`DrawSink`] that targets an atlas page.
#[derive(Debug)]
pub enum AtlasCommand {
    /// Set the current transform.
    SetTransform(Affine),
    /// Set the current paint.
    SetPaint(GlyphPaint),
    /// Set the paint transform.
    SetPaintTransform(Affine),
    /// Fill a path.
    FillPath(BezPath),
    /// Fill a rectangle.
    FillRect(Rect),
    /// Push a clip layer.
    PushClipLayer(BezPath),
    /// Push a clip path.
    PushClipPath(BezPath),
    /// Push a blend layer.
    PushBlendLayer(BlendMode),
    /// Pop a clip or blend layer.
    PopLayer,
    /// Pop a clip path.
    PopClipPath,
}

/// Carrying out requests one after another carries out the whole sequence.
proof fn lemma_carried_out_step(
    before: Seq<DrawCall>,
    mid: Seq<DrawCall>,
    after: Seq<DrawCall>,
    asked: Seq<AtlasCommand>,
    next: AtlasCommand,
)
    requires
        carried_out(before, mid, asked),
        after.len() == mid.len() + 1,
        after.subrange(0, mid.len() as int) == mid,
        carries_out(after[mid.len() as int], next),
    ensures
        carried_out(before, after, asked.push(next)),
{
    let asked2 = asked.push(next);
    assert(after.subrange(0, before.len() as int) =~= before) by {
        assert forall|k: int| 0 <= k < before.len() implies after[k] == before[k] by {
            assert(after[k] == mid[k]);
            assert(mid[k] == mid.subrange(0, before.len() as int)[k]);
        }
    }
    assert forall|i: int| 0 <= i < asked2.len() implies #[trigger] carries_out(
        after[before.len() + i],
        asked2[i],
    ) by {
        if i < asked.len() {
            assert(after[before.len() + i] == mid[before.len() + i]);
            assert(asked2[i] == asked[i]);
        }
    }
}

/// Play one command into `target`.
fn play_command<S: DrawSink + ?Sized>(cmd: AtlasCommand, target: &mut S)
    ensures
        (*final(target)).drawn().len() == (*old(target)).drawn().len() + 1,
        (*final(target)).drawn().subrange(0, (*old(target)).drawn().len() as int)
            == (*old(target)).drawn(),
        carries_out((*final(target)).drawn()[(*old(target)).drawn().len() as int], cmd),
{
    let ghost before = (*target).drawn();
    match cmd {
        AtlasCommand::SetTransform(t) => target.set_transform(t),
        AtlasCommand::SetPaint(p) => target.set_paint(p),
        AtlasCommand::SetPaintTransform(t) => target.set_paint_transform(t),
        AtlasCommand::FillPath(p) => target.fill_path(&p),
        AtlasCommand::FillRect(r) => target.fill_rect(&r),
        AtlasCommand::PushClipLayer(c) => target.push_clip_layer(&c),
        AtlasCommand::PushClipPath(c) => {
            target.push_clip_path(&c);
            assert(seq![AtlasCommand::PushClipPath(c)][0] == AtlasCommand::PushClipPath(c));
        },
        AtlasCommand::PushBlendLayer(m) => target.push_blend_layer(m),
        AtlasCommand::PopLayer => target.pop_layer(),
        AtlasCommand::PopClipPath => {
            target.pop_clip_path();
            assert(seq![AtlasCommand::PopClipPath][0] == AtlasCommand::PopClipPath);
        },
    }
    proof {
        assert((*target).drawn().subrange(0, before.len() as int) =~= before);
    }
}

/// Replay recorded atlas commands into a [`DrawSink`].
///
/// The commands `Vec` is emptied: `target` takes effect of every command, in
/// order, and `commands` is left empty.
pub fn replay_atlas_commands<S: DrawSink + ?Sized>(
    commands: &mut Vec<AtlasCommand>,
    target: &mut S,
)
    ensures
        final(commands)@.len() == 0,
        carried_out((*old(target)).drawn(), (*final(target)).drawn(), old(commands)@),
{
    let mut pending: Vec<AtlasCommand> = Vec::new();
    std::mem::swap(&mut pending, commands);
    let ghost start = (*target).drawn();
    let ghost all = pending@;
    proof {
        assert(start.subrange(0, start.len() as int) =~= start);
        assert(all.take(0) =~= Seq::<AtlasCommand>::empty());
    }
    for cmd in it: pending.into_iter()
        invariant
            it.seq() == all,
            carried_out(start, (*target).drawn(), all.take(it.index() as int)),
    {
        let ghost mid = (*target).drawn();
        let ghost k = it.index() as int;
        play_command(cmd, target);
        proof {
            lemma_carried_out_step(start, mid, (*target).drawn(), all.take(k), all[k]);
            assert(all.take(k).push(all[k]) =~= all.take(k + 1));
        }
    }
    proof {
        assert(all.take(all.len() as int) =~= all);
    }
}

} // verus!
