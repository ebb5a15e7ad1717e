//! Glyph records and the keys they are cached under.

use vstd::prelude::*;

verus! {

/// Names a face loaded by a renderer.  Two handles name the same face
/// exactly when they hold the same index.
#[derive(Clone, Copy, Debug, PartialEq, Eq, Structural)]
pub struct FaceHandle {
    pub index: u32,
}

/// What a rasterized glyph is cached under: the face, the pixel size it was
/// rasterized at, and the character.  Keys are equal only where all three
/// are.
#[derive(Clone, Copy, Debug, PartialEq, Eq, Structural)]
pub struct CacheKey {
    pub face: FaceHandle,
    pub size: isize,
    pub ch: char,
}

/// What layout needs to know of a rasterized glyph.
///
/// The bitmap is `width` by `height` pixels.  Its top-left corner lies
/// `bearing_left` pixels right of the pen and `bearing_top` pixels above the
/// baseline.  After the glyph is drawn the pen moves by `advance_x` and
/// `advance_y`, both in 16.16 fixed point.
#[derive(Clone, Copy, Debug, PartialEq, Eq, Structural)]
pub struct GlyphMetrics {
    pub width: u32,
    pub height: u32,
    pub bearing_left: i32,
    pub bearing_top: i32,
    pub advance_x: i32,
    pub advance_y: i32,
    /// Index of the glyph within its face, as kerning lookups need it.
    pub glyph_index: u32,
}

/// A rasterized glyph: its key, its metrics and its coverage bitmap, one
/// byte per pixel in rows from the top down.
#[derive(Clone, Debug)]
pub struct GlyphRecord {
    pub key: CacheKey,
    pub metrics: GlyphMetrics,
    pub coverage: Vec<u8>,
}

/// The number under which a key is indexed: the face in the top 32 bits,
/// the size in the next 64, the character in the low 32.
pub open spec fn code_of(key: CacheKey) -> int {
    key.face.index * 0x1_0000_0000_0000_0000_0000_0000 + (key.size + 0x8000_0000_0000_0000)
        * 0x1_0000_0000 + (key.ch as u32)
}

/// Different keys have different codes.
pub proof fn lemma_code_is_injective(a: CacheKey, b: CacheKey)
    requires
        code_of(a) == code_of(b),
    ensures
        a == b,
{
    let ca = a.ch as u32;
    let cb = b.ch as u32;
    assert(0 <= a.size + 0x8000_0000_0000_0000 < 0x1_0000_0000_0000_0000);
    assert(0 <= b.size + 0x8000_0000_0000_0000 < 0x1_0000_0000_0000_0000);
    assert(ca == cb);
    assert(a.size == b.size);
    assert(a.face.index == b.face.index);
    assert(a.ch == b.ch);
}

impl CacheKey {
    pub fn new(face: FaceHandle, size: isize, ch: char) -> (r: CacheKey)
        ensures
            r == (CacheKey { face, size, ch }),
    {
        CacheKey { face, size, ch }
    }

    /// The number under which this key is indexed.
    pub fn code(&self) -> (r: u128)
        ensures
            r == code_of(*self),
    {
        let face: u128 = self.face.index as u128;
        let size: u128 = (self.size as i128 + 0x8000_0000_0000_0000) as u128;
        let ch: u128 = self.ch as u32 as u128;
        face * 0x1_0000_0000_0000_0000_0000_0000 + size * 0x1_0000_0000 + ch
    }
}

impl GlyphRecord {
    /// The coverage holds one byte for each pixel of the bitmap.
    pub open spec fn wf(&self) -> bool {
        self.coverage@.len() == self.metrics.width * self.metrics.height
    }
}

} // verus!
