//! Glyph drawing commands, glyph-cache decisions and the small value types that
//! the Vello glyph renderers share.
//!
//! - [`interface`]: renderer-neutral glyph paints, the [`interface::DrawSink`]
//!   and [`interface::GlyphRenderer`] traits, whose contracts model a sink by
//!   the calls it has taken effect of.
//! - [`bitmap`]: the image paint of an uncached bitmap glyph.
//! - [`commands`]: recorded atlas draw commands and their replay into a sink.
//! - [`cache`]: the [`cache::GlyphCacher`] trait, what a cacher is offered,
//!   packed colors, and the cacher that never caches.
//! - [`cacher`]: the atlas-backed glyph cacher's eligibility test, run
//!   configuration, slot metrics and outline recording.
//! - [`glyph`]: glyphs prepared for drawing.
//! - [`renderer`]: filling and stroking prepared glyphs, offering each to the
//!   cacher before rendering it directly, and the clip a COLR glyph is
//!   painted in.
//! - [`blurred_rounded_rect`]: per-corner radii of blurred rounded rectangles.
//! - [`outside`]: the `kurbo` and `peniko` types that the library carries.

pub mod outside;
pub mod bitmap;
pub mod interface;
pub mod commands;
pub mod cache;
pub mod cacher;
pub mod glyph;
pub mod renderer;
pub mod blurred_rounded_rect;
