use glyph_atlas::commands::{replay_atlas_commands, AtlasCommand};
use glyph_atlas::interface::{DrawSink, GlyphPaint};
use kurbo::{Affine, BezPath, Rect, Shape};
use peniko::BlendMode;

/// A sink that remembers a short name for every call it receives.
#[derive(Default)]
struct LogSink {
    log: Vec<String>,
}

impl DrawSink for LogSink {
    // Spec-only model; the unverified test sink never evaluates it.
    fn drawn(&self) -> vstd::seq::Seq<glyph_atlas::interface::DrawCall> {
        vstd::seq::Seq::empty()
    }
    fn surface_width(&self) -> u16 {
        64
    }
    fn surface_height(&self) -> u16 {
        32
    }
    fn set_transform(&mut self, t: Affine) {
        self.log.push(format!("transform {:?}", t.as_coeffs()));
    }
    fn set_paint(&mut self, paint: GlyphPaint) {
        match paint {
            GlyphPaint::Solid(c) => self.log.push(format!("solid {:?}", c.components)),
            GlyphPaint::Gradient(_) => self.log.push("gradient".to_string()),
        }
    }
    fn set_paint_transform(&mut self, t: Affine) {
        self.log.push(format!("paint transform {:?}", t.as_coeffs()));
    }
    fn fill_path(&mut self, path: &BezPath) {
        self.log.push(format!("fill path {}", path.elements().len()));
    }
    fn fill_rect(&mut self, rect: &Rect) {
        self.log.push(format!("fill rect {}", rect.width()));
    }
    fn push_clip_layer(&mut self, clip: &BezPath) {
        self.log.push(format!("clip layer {}", clip.elements().len()));
    }
    fn push_blend_layer(&mut self, _blend_mode: BlendMode) {
        self.log.push("blend layer".to_string());
    }
    fn pop_layer(&mut self) {
        self.log.push("pop layer".to_string());
    }
    fn width(&self) -> u16 {
        64
    }
    fn height(&self) -> u16 {
        32
    }
}

#[test]
fn default_clip_path_is_a_clip_layer() {
    let mut sink = LogSink::default();
    let path = Rect::new(0.0, 0.0, 2.0, 2.0).to_path(0.1);
    sink.push_clip_path(&path);
    sink.pop_clip_path();
    assert_eq!(sink.log, vec!["clip layer 5".to_string(), "pop layer".to_string()]);
}

#[test]
fn mut_ref_sink_forwards() {
    let mut sink = LogSink::default();
    {
        let r = &mut sink;
        r.set_transform(Affine::translate((3.0, 4.0)));
        r.pop_layer();
        assert_eq!(r.width(), 64);
        assert_eq!(r.height(), 32);
    }
    assert_eq!(
        sink.log,
        vec!["transform [1.0, 0.0, 0.0, 1.0, 3.0, 4.0]".to_string(), "pop layer".to_string()]
    );
}

#[test]
fn replay_plays_every_command_in_order_and_empties() {
    let path = Rect::new(0.0, 0.0, 1.0, 1.0).to_path(0.1);
    let mut commands = vec![
        AtlasCommand::SetTransform(Affine::translate((1.0, 2.0))),
        AtlasCommand::SetPaint(GlyphPaint::from(peniko::color::palette::css::BLACK)),
        AtlasCommand::SetPaintTransform(Affine::scale(2.0)),
        AtlasCommand::PushClipPath(path.clone()),
        AtlasCommand::FillPath(path.clone()),
        AtlasCommand::FillRect(Rect::new(0.0, 0.0, 7.0, 1.0)),
        AtlasCommand::PopClipPath,
        AtlasCommand::PushBlendLayer(BlendMode::default()),
        AtlasCommand::PushClipLayer(path),
        AtlasCommand::PopLayer,
    ];
    let mut sink = LogSink::default();
    replay_atlas_commands(&mut commands, &mut sink);
    assert!(commands.is_empty());
    assert_eq!(
        sink.log,
        vec![
            "transform [1.0, 0.0, 0.0, 1.0, 1.0, 2.0]",
            "solid [0.0, 0.0, 0.0, 1.0]",
            "paint transform [2.0, 0.0, 0.0, 2.0, 0.0, 0.0]",
            "clip layer 5",
            "fill path 5",
            "fill rect 7",
            "pop layer",
            "blend layer",
            "clip layer 5",
            "pop layer",
        ]
    );
}

#[test]
fn replay_of_nothing_leaves_sink_untouched() {
    let mut commands = Vec::new();
    let mut sink = LogSink::default();
    replay_atlas_commands(&mut commands, &mut sink);
    assert!(commands.is_empty());
    assert!(sink.log.is_empty());
}
