//! Failures of glyph lookup, layout and face loading.

use vstd::prelude::*;
use crate::bitmap::BitmapError;

verus! {

/// Why a face could not be loaded, a glyph not rasterized or a text not laid
/// out.  None of these is transient: nothing is retried.
#[derive(Clone, Copy, Debug, PartialEq, Eq, Structural)]
pub enum TextError {
    /// FreeType refused; `code` is its error code.
    Freetype { code: i32 },
    /// The face gave the glyph as a ready bitmap, not as an outline to
    /// render.
    NotAnOutline,
    /// The rasterized bitmap is in a shape that cannot be uploaded.
    Bitmap(BitmapError),
    /// The rasterized bitmap has a negative size, or its buffer does not
    /// hold one byte for each of its pixels.
    MalformedBitmap,
    /// A bearing, advance or kerning distance does not fit 32 bits.
    MetricsOutOfRange,
    /// The pixel size is too large to be given to the face.
    SizeOutOfRange,
    /// The face handle names no face of this renderer.
    UnknownFace,
    /// The renderer holds as many faces as a handle can name.
    TooManyFaces,
}

} // verus!
