//! Glyph caching and text layout for labels drawn from FreeType faces.
//!
//! A [`TextRenderer`] owns the loaded faces and a [`GlyphCache`] of rasterized
//! glyphs keyed by face, size and character.  Text is laid out by
//! [`lay_out`], which turns a run of glyph metrics and kerning adjustments
//! into pen positions, placement rectangles and a bounding box.  A [`Label`]
//! holds the display state of one piece of text and the layout last computed
//! for it.
//!
//! All distances that can be fractional are kept in 16.16 fixed point: one
//! pixel is 65536 units.

pub mod bitmap;
pub mod cache;
pub mod error;
pub mod fixed;
pub mod font;
pub mod glyph;
pub mod gui;
pub mod label;
pub mod layout;
pub mod renderer;
pub mod usage;
pub mod worker;

pub use bitmap::{BitmapError, PixelMode, TexturableBitmap};
pub use cache::GlyphCache;
pub use error::TextError;
pub use fixed::{ceil_pixels, from_kerning, from_pixels};
pub use glyph::{CacheKey, FaceHandle, GlyphMetrics, GlyphRecord};
pub use gui::Gui;
pub use label::{Color, Label, Quad};
pub use layout::{lay_out, GlyphStep, LayoutResult, Placement};
pub use renderer::{
    buffer_refusal, char_height, format_refusal, glyph_from_raster, glyph_index_or_missing,
    kerning_from_vector, kerning_pairs, with_kerning, TextRenderer,
};
pub use usage::print_usage;
pub use worker::{LoadEvent, LoadState};
