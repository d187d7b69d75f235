# glyph_atlas

Verified logic shared by the Vello glyph renderers: the draw-command sink and
glyph renderer that glyphs are painted into, filling and stroking prepared
glyphs (offered to a glyph cacher before direct rendering), the replay of
commands recorded for atlas pages, parts of the atlas-backed glyph cacher,
packed context colors, and corner radii of blurred rounded rectangles.

- `src/` is the library, verified with Verus. A `DrawSink` (and a
  `GlyphRenderer`) is modelled by the sequence of calls it has taken effect of.
  Replaying recorded commands is proved to carry out each of them, in order,
  where a clip path may be carried out as the clip layer that can stand for it
  (a sink's default clip-path methods are the layer methods); direct glyph
  rendering is proved to issue its exact call sequence, and a glyph that may
  not be cached, or that the cacher did not draw, is rendered directly.
- `app/` holds the floating-point side (reading transforms, rounding glyph
  bounds, building transforms and paths), which hands plain values to the
  library.
- `tests/` runs the library on concrete values.
