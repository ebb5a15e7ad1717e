//! The text renderer: the loaded faces and the glyph cache.
//!
//! A glyph is rasterized the first time its key is asked for and never
//! again.  Rasterizing applies the key's size to the face first, since the
//! size is state of the face and another lookup may have changed it.

use vstd::prelude::*;
use crate::bitmap::{rejection, TexturableBitmap};
use crate::cache::{extends, has_key, keys_distinct, lemma_extends_is_transitive, slot_of, GlyphCache};
use crate::error::TextError;
use crate::font::{
    bitmap_buffer, bitmap_glyph_left, bitmap_glyph_top, bitmap_pitch, bitmap_pixel_mode,
    bitmap_rows, bitmap_width, error_code, error_number, face_get_char_index, face_get_kerning,
    face_glyph, face_load_glyph, face_set_char_size, glyph_advance_x, glyph_advance_y,
    glyph_format, glyph_to_bitmap, library_init, library_new_memory_face, magnitude,
    slot_get_glyph, GLYPH_FORMAT_BITMAP,
};
use crate::glyph::{CacheKey, FaceHandle, GlyphMetrics, GlyphRecord};
use crate::label::Label;
use crate::layout::{lay_out, layout_of, GlyphStep, LayoutResult};

verus! {

/// Owns the faces and the glyph cache.
pub struct TextRenderer {
    library: freetype::Library,
    faces: Vec<freetype::Face>,
    cache: GlyphCache,
}

/// What a rasterized glyph becomes: the bitmap is judged first, then its
/// size against its buffer, then the advances against 32 bits.
pub open spec fn raster_outcome(
    bitmap: TexturableBitmap,
    left: i32,
    top: i32,
    advance_x: isize,
    advance_y: isize,
    glyph_index: u32,
) -> Result<(GlyphMetrics, Vec<u8>), TextError> {
    match rejection(bitmap.pixel_mode, bitmap.pitch as int, bitmap.width as int) {
        Some(e) => Err(TextError::Bitmap(e)),
        None => if bitmap.rows < 0 || bitmap.buffer@.len() != bitmap.width * bitmap.rows {
            Err(TextError::MalformedBitmap)
        } else if !(i32::MIN <= advance_x <= i32::MAX && i32::MIN <= advance_y <= i32::MAX) {
            Err(TextError::MetricsOutOfRange)
        } else {
            Ok(
                (
                    GlyphMetrics {
                        width: bitmap.width as u32,
                        height: bitmap.rows as u32,
                        bearing_left: left,
                        bearing_top: top,
                        advance_x: advance_x as i32,
                        advance_y: advance_y as i32,
                        glyph_index,
                    },
                    bitmap.buffer,
                ),
            )
        },
    }
}

/// The metrics and the coverage of a glyph, from what the rasterizer
/// reported of it.
pub fn glyph_from_raster(
    bitmap: TexturableBitmap,
    left: i32,
    top: i32,
    advance_x: isize,
    advance_y: isize,
    glyph_index: u32,
) -> (r: Result<(GlyphMetrics, Vec<u8>), TextError>)
    ensures
        r == raster_outcome(bitmap, left, top, advance_x, advance_y, glyph_index),
        r matches Ok(glyph) ==> glyph.1@.len() == glyph.0.width * glyph.0.height,
{
    let width: i32 = bitmap.width;
    let rows: i32 = bitmap.rows;
    let coverage: Vec<u8> = match bitmap.into_vec() {
        Ok(bytes) => bytes,
        Err(e) => {
            return Err(TextError::Bitmap(e));
        },
    };
    if rows < 0 {
        return Err(TextError::MalformedBitmap);
    }
    assert(width * rows <= 0x7FFF_FFFF * 0x7FFF_FFFF) by (nonlinear_arith)
        requires
            0 <= width <= 0x7FFF_FFFF,
            0 <= rows <= 0x7FFF_FFFF,
    ;
    assert(0 <= width * rows) by (nonlinear_arith)
        requires
            0 <= width,
            0 <= rows,
    ;
    let pixels: u64 = (width as u64) * (rows as u64);
    if coverage.len() as u64 != pixels {
        return Err(TextError::MalformedBitmap);
    }
    if advance_x < i32::MIN as isize || advance_x > i32::MAX as isize || advance_y
        < i32::MIN as isize || advance_y > i32::MAX as isize {
        return Err(TextError::MetricsOutOfRange);
    }
    Ok(
        (
            GlyphMetrics {
                width: width as u32,
                height: rows as u32,
                bearing_left: left,
                bearing_top: top,
                advance_x: advance_x as i32,
                advance_y: advance_y as i32,
                glyph_index,
            },
            coverage,
        ),
    )
}

/// The horizontal kerning of a pair, from the vector the face reported: its
/// x part, where that fits 32 bits.
pub fn kerning_from_vector(x: i64, y: i64) -> (r: Result<i32, TextError>)
    ensures
        r == if i32::MIN <= x <= i32::MAX {
            Ok::<i32, TextError>(x as i32)
        } else {
            Err::<i32, TextError>(TextError::MetricsOutOfRange)
        },
{
    if x < i32::MIN as i64 || x > i32::MAX as i64 {
        Err(TextError::MetricsOutOfRange)
    } else {
        Ok(x as i32)
    }
}

/// A pixel size can be given to a face where it fits the machine word as a
/// 26.6 distance.
pub open spec fn size_fits(size: isize) -> bool {
    isize::MIN <= size * 64 <= isize::MAX
}

/// The size to give a face for a pixel size: 64 units of 26.6 to the pixel.
pub fn char_height(size: isize) -> (r: Result<isize, TextError>)
    ensures
        r == if size_fits(size) {
            Ok::<isize, TextError>((size * 64) as isize)
        } else {
            Err::<isize, TextError>(TextError::SizeOutOfRange)
        },
{
    let height: i128 = (size as i128) * 64;
    if height < isize::MIN as i128 || height > isize::MAX as i128 {
        Err(TextError::SizeOutOfRange)
    } else {
        Ok(height as isize)
    }
}

/// The glyph to rasterize for a character, from what the face's character
/// map answered: the glyph it found, or glyph 0, the face's own glyph for
/// what is missing.  A character without a glyph is no error, and no other
/// character is looked up in its place.
pub fn glyph_index_or_missing(found: Option<u32>) -> (r: u32)
    ensures
        r == match found {
            Some(index) => index,
            None => 0u32,
        },
{
    match found {
        Some(index) => index,
        None => 0,
    }
}

/// Whether a glyph of this format may be rendered: one that is a bitmap
/// already is refused, every other is handed to the rasterizer.
pub fn format_refusal(format: u32) -> (r: Option<TextError>)
    ensures
        r == if format == GLYPH_FORMAT_BITMAP {
            Some(TextError::NotAnOutline)
        } else {
            None::<TextError>
        },
{
    if format == GLYPH_FORMAT_BITMAP {
        Some(TextError::NotAnOutline)
    } else {
        None
    }
}

/// A rendered bitmap's buffer cannot be taken where its rows are negative,
/// or where the magnitude of its pitch, or that magnitude times the rows,
/// does not fit 32 bits.
pub open spec fn buffer_is_out_of_reach(rows: int, pitch: int) -> bool {
    rows < 0 || magnitude(pitch) > i32::MAX || magnitude(pitch) * rows > i32::MAX
}

/// Whether the buffer of a rendered bitmap with these rows and this pitch
/// may be read: a bitmap whose buffer cannot be taken is malformed.
pub fn buffer_refusal(rows: i32, pitch: i32) -> (r: Option<TextError>)
    ensures
        r == if buffer_is_out_of_reach(rows as int, pitch as int) {
            Some(TextError::MalformedBitmap)
        } else {
            None::<TextError>
        },
{
    if rows < 0 || pitch == i32::MIN {
        return Some(TextError::MalformedBitmap);
    }
    let span: i64 = if pitch < 0 {
        -(pitch as i64)
    } else {
        pitch as i64
    };
    assert(span * rows <= 0x7FFF_FFFF * 0x7FFF_FFFF) by (nonlinear_arith)
        requires
            0 <= span <= 0x7FFF_FFFF,
            0 <= rows <= 0x7FFF_FFFF,
    ;
    assert(0 <= span * rows) by (nonlinear_arith)
        requires
            0 <= span,
            0 <= rows,
    ;
    if span * (rows as i64) > i32::MAX as i64 {
        Some(TextError::MalformedBitmap)
    } else {
        None
    }
}

/// The pairs of glyph indices to ask kerning for: each glyph of the run
/// with the glyph that follows it, the earlier glyph first.
pub open spec fn pairs_of(steps: Seq<GlyphStep>) -> Seq<(u32, u32)> {
    if steps.len() == 0 {
        Seq::<(u32, u32)>::empty()
    } else {
        Seq::new(
            (steps.len() - 1) as nat,
            |i: int| (steps[i].metrics.glyph_index, steps[i + 1].metrics.glyph_index),
        )
    }
}

/// The pairs of glyph indices to ask kerning for.
pub fn kerning_pairs(steps: &Vec<GlyphStep>) -> (pairs: Vec<(u32, u32)>)
    ensures
        pairs@ == pairs_of(steps@),
{
    let mut pairs: Vec<(u32, u32)> = Vec::new();
    let mut i: usize = 1;
    while i < steps.len()
        invariant
            1 <= i,
            i == 1 || i <= steps@.len(),
            pairs@.len() == i - 1,
            forall|j: int|
                0 <= j < i - 1 ==> #[trigger] pairs@[j] == (
                    steps@[j].metrics.glyph_index,
                    steps@[j + 1].metrics.glyph_index,
                ),
        decreases steps@.len() - i,
    {
        pairs.push((steps[i - 1].metrics.glyph_index, steps[i].metrics.glyph_index));
        i = i + 1;
    }
    proof {
        let wanted = pairs_of(steps@);
        assert(pairs@.len() == wanted.len());
        assert forall|j: int| 0 <= j < pairs@.len() implies pairs@[j] == wanted[j] by {
            assert(pairs@[j] == (steps@[j].metrics.glyph_index, steps@[j + 1].metrics.glyph_index));
        }
        assert(pairs@ =~= wanted);
    }
    pairs
}

/// The run with its kerning set: glyph `i` takes the kerning of the pair
/// that it closes, `kernings[i - 1]`, and the first glyph takes none.  A
/// glyph beyond the kernings given takes none either.
pub open spec fn kerned(steps: Seq<GlyphStep>, kernings: Seq<i32>) -> Seq<GlyphStep> {
    Seq::new(
        steps.len(),
        |i: int|
            GlyphStep {
                glyph: steps[i].glyph,
                kerning_x: if 0 < i <= kernings.len() {
                    kernings[i - 1]
                } else {
                    0
                },
                metrics: steps[i].metrics,
            },
    )
}

/// Sets the kerning of a run from the kerning of its pairs.
pub fn with_kerning(steps: &Vec<GlyphStep>, kernings: &Vec<i32>) -> (r: Vec<GlyphStep>)
    ensures
        r@ == kerned(steps@, kernings@),
{
    let mut r: Vec<GlyphStep> = Vec::new();
    let mut i: usize = 0;
    while i < steps.len()
        invariant
            i <= steps@.len(),
            r@.len() == i,
            forall|j: int| 0 <= j < i ==> #[trigger] r@[j] == kerned(steps@, kernings@)[j],
        decreases steps@.len() - i,
    {
        let kerning_x: i32 = if 0 < i && i <= kernings.len() {
            kernings[i - 1]
        } else {
            0
        };
        r.push(GlyphStep { glyph: steps[i].glyph, kerning_x, metrics: steps[i].metrics });
        i = i + 1;
    }
    assert(r@ =~= kerned(steps@, kernings@));
    r
}

/// FreeType's error as an error of this library: the variant for FreeType's
/// refusals, carrying the number of the error.
fn freetype_error(error: freetype::Error) -> (r: TextError)
    ensures
        r matches TextError::Freetype { code } && code == error_number(error),
{
    TextError::Freetype { code: error_code(&error) }
}

/// Applies a pixel size to a face.  The size is refused where it cannot be
/// given to the face, and only there.
fn apply_size_to(face: &freetype::Face, size: isize) -> (r: Result<(), TextError>)
    ensures
        !size_fits(size) ==> r == Err::<(), TextError>(TextError::SizeOutOfRange),
        r == Err::<(), TextError>(TextError::SizeOutOfRange) ==> !size_fits(size),
        r matches Err(e) ==> e == TextError::SizeOutOfRange || e is Freetype,
{
    let height: isize = match char_height(size) {
        Ok(h) => h,
        Err(e) => {
            return Err(e);
        },
    };
    match face_set_char_size(face, height) {
        Ok(()) => Ok(()),
        Err(e) => Err(freetype_error(e)),
    }
}

/// Rasterizes one character of a face at a pixel size.
///
/// The size is applied to the face, the character is resolved to a glyph
/// index, glyph 0 where the face has none for it, and that glyph is loaded,
/// taken out of the face's slot, rendered and read.  Whatever the face
/// reports, a glyph that comes out holds one byte of coverage per pixel, and
/// the size is refused only where it cannot be given to the face.
fn rasterize(face: &freetype::Face, size: isize, ch: char) -> (r: Result<
    (GlyphMetrics, Vec<u8>),
    TextError,
>)
    ensures
        !size_fits(size) ==> r == Err::<(GlyphMetrics, Vec<u8>), TextError>(
            TextError::SizeOutOfRange,
        ),
        r == Err::<(GlyphMetrics, Vec<u8>), TextError>(TextError::SizeOutOfRange) ==> !size_fits(
            size,
        ),
        r != Err::<(GlyphMetrics, Vec<u8>), TextError>(TextError::UnknownFace),
        r != Err::<(GlyphMetrics, Vec<u8>), TextError>(TextError::TooManyFaces),
        r matches Ok(glyph) ==> glyph.1@.len() == glyph.0.width * glyph.0.height,
{
    if let Err(e) = apply_size_to(face, size) {
        return Err(e);
    }
    let glyph_index: u32 = glyph_index_or_missing(face_get_char_index(face, ch));
    if let Err(e) = face_load_glyph(face, glyph_index) {
        return Err(freetype_error(e));
    }
    let slot = face_glyph(face);
    let glyph = match slot_get_glyph(&slot) {
        Ok(g) => g,
        Err(e) => {
            return Err(freetype_error(e));
        },
    };
    if let Some(e) = format_refusal(glyph_format(&glyph)) {
        return Err(e);
    }
    let rendered = match glyph_to_bitmap(&glyph) {
        Ok(g) => g,
        Err(e) => {
            return Err(freetype_error(e));
        },
    };
    let pixel_mode = match bitmap_pixel_mode(&rendered) {
        Ok(m) => m,
        Err(e) => {
            return Err(freetype_error(e));
        },
    };
    let width: i32 = bitmap_width(&rendered);
    let rows: i32 = bitmap_rows(&rendered);
    let pitch: i32 = bitmap_pitch(&rendered);
    if let Some(e) = buffer_refusal(rows, pitch) {
        return Err(e);
    }
    let buffer: Vec<u8> = bitmap_buffer(&rendered);
    glyph_from_raster(
        TexturableBitmap::new(width, rows, pitch, pixel_mode, buffer),
        bitmap_glyph_left(&rendered),
        bitmap_glyph_top(&rendered),
        glyph_advance_x(&glyph),
        glyph_advance_y(&glyph),
        glyph_index,
    )
}

/// The key of the `i`-th character of a text in a face at a size.
pub open spec fn key_at(face: FaceHandle, size: isize, text: Seq<char>, i: int) -> CacheKey {
    CacheKey { face, size, ch: text[i] }
}

/// `steps` is `text` resolved against `records`: one step per character, in
/// reading order, each naming the slot of the record cached for its
/// character and carrying that record's metrics.
pub open spec fn resolves(
    records: Seq<GlyphRecord>,
    face: FaceHandle,
    size: isize,
    text: Seq<char>,
    steps: Seq<GlyphStep>,
) -> bool {
    &&& steps.len() == text.len()
    &&& forall|i: int|
        0 <= i < steps.len() ==> {
            &&& (#[trigger] steps[i]).glyph < records.len()
            &&& records[steps[i].glyph as int].key == key_at(face, size, text, i)
            &&& steps[i].metrics == records[steps[i].glyph as int].metrics
        }
}

/// Every character of `text` has its glyph among `records`.
pub open spec fn all_cached(
    records: Seq<GlyphRecord>,
    face: FaceHandle,
    size: isize,
    text: Seq<char>,
) -> bool {
    forall|i: int| 0 <= i < text.len() ==> has_key(records, #[trigger] key_at(face, size, text, i))
}

impl TextRenderer {
    /// The cached records, by slot.
    pub closed spec fn glyphs(&self) -> Seq<GlyphRecord> {
        self.cache@
    }

    /// The number of faces loaded.
    pub closed spec fn face_count(&self) -> nat {
        self.faces@.len()
    }

    /// The cache is whole, every cached glyph is of a loaded face and of a
    /// size that can be given to a face, and every face has a handle.
    pub closed spec fn wf(&self) -> bool {
        &&& self.cache.wf()
        &&& self.faces@.len() <= 0x1_0000_0000
        &&& forall|i: int|
            0 <= i < self.cache@.len() ==> (#[trigger] self.cache@[i]).key.face.index
                < self.faces@.len()
        &&& forall|i: int|
            0 <= i < self.cache@.len() ==> size_fits((#[trigger] self.cache@[i]).key.size)
    }

    /// What the invariant says of the cached records.
    pub proof fn lemma_cache_is_whole(&self)
        requires
            self.wf(),
        ensures
            keys_distinct(self.glyphs()),
            forall|i: int| 0 <= i < self.glyphs().len() ==> (#[trigger] self.glyphs()[i]).wf(),
            forall|i: int|
                0 <= i < self.glyphs().len() ==> (#[trigger] self.glyphs()[i]).key.face.index
                    < self.face_count(),
            forall|i: int|
                0 <= i < self.glyphs().len() ==> size_fits((#[trigger] self.glyphs()[i]).key.size),
    {
    }

    /// A key that is cached is of a loaded face and of a size that can be
    /// given to a face.
    pub proof fn lemma_cached_key_is_sound(&self, key: CacheKey)
        requires
            self.wf(),
            has_key(self.glyphs(), key),
        ensures
            key.face.index < self.face_count(),
            size_fits(key.size),
    {
        let s = slot_of(self.glyphs(), key);
        assert(self.glyphs()[s].key == key);
    }

    /// A renderer with no face and an empty cache.
    pub fn new() -> (r: Result<TextRenderer, TextError>)
        ensures
            r matches Ok(renderer) ==> renderer.wf() && renderer.face_count() == 0
                && renderer.glyphs() == Seq::<GlyphRecord>::empty(),
            r matches Err(e) ==> e is Freetype,
    {
        match library_init() {
            Ok(library) => Ok(TextRenderer { library, faces: Vec::new(), cache: GlyphCache::new() }),
            Err(e) => Err(freetype_error(e)),
        }
    }

    /// Loads the first face of a font file held in memory.
    pub fn load_face(&mut self, font: Vec<u8>) -> (r: Result<FaceHandle, TextError>)
        requires
            old(self).wf(),
        ensures
            final(self).wf(),
            final(self).glyphs() == old(self).glyphs(),
            old(self).face_count() >= 0x1_0000_0000 ==> r == Err::<FaceHandle, TextError>(
                TextError::TooManyFaces,
            ),
            r matches Ok(face) ==> face.index == old(self).face_count() && final(self).face_count()
                == old(self).face_count() + 1,
            r matches Err(e) ==> final(self).face_count() == old(self).face_count() && (e
                is Freetype || e == TextError::TooManyFaces),
            r == Err::<FaceHandle, TextError>(TextError::TooManyFaces) ==> old(self).face_count()
                >= 0x1_0000_0000,
    {
        if self.faces.len() as u64 > 0xFFFF_FFFF {
            return Err(TextError::TooManyFaces);
        }
        match library_new_memory_face(&self.library, font) {
            Ok(face) => {
                let index: u32 = self.faces.len() as u32;
                self.faces.push(face);
                Ok(FaceHandle { index })
            },
            Err(e) => Err(freetype_error(e)),
        }
    }

    /// Whether the handle names a face of this renderer.
    pub fn has_face(&self, face: FaceHandle) -> (r: bool)
        ensures
            r == (face.index < self.face_count()),
    {
        (face.index as usize) < self.faces.len()
    }

    /// The glyph cache.
    pub fn cache(&self) -> (r: &GlyphCache)
        requires
            self.wf(),
        ensures
            r@ == self.glyphs(),
            r.wf(),
    {
        &self.cache
    }

    /// A label in the given face.
    pub fn create_label(&self, face: FaceHandle) -> (r: Label)
        ensures
            r@ == Label::fresh(face),
    {
        Label::new(face)
    }

    /// The slot of the glyph cached under `key`, rasterizing it first where
    /// the cache does not hold it.
    ///
    /// A hit touches neither the cache nor the face.  A miss adds one
    /// record, in the next free slot, and nothing else.  A failure leaves
    /// the cache as it was.
    pub fn get_cache_entry(&mut self, key: CacheKey) -> (r: Result<usize, TextError>)
        requires
            old(self).wf(),
        ensures
            final(self).wf(),
            final(self).face_count() == old(self).face_count(),
            extends(final(self).glyphs(), old(self).glyphs()),
            has_key(old(self).glyphs(), key) ==> r == Ok::<usize, TextError>(
                slot_of(old(self).glyphs(), key) as usize,
            ) && final(self).glyphs() == old(self).glyphs(),
            !has_key(old(self).glyphs(), key) && key.face.index >= old(self).face_count() ==> r
                == Err::<usize, TextError>(TextError::UnknownFace),
            !has_key(old(self).glyphs(), key) && key.face.index < old(self).face_count()
                && !size_fits(key.size) ==> r == Err::<usize, TextError>(
                TextError::SizeOutOfRange,
            ),
            r == Err::<usize, TextError>(TextError::UnknownFace) ==> !has_key(
                old(self).glyphs(),
                key,
            ) && key.face.index >= old(self).face_count(),
            r == Err::<usize, TextError>(TextError::SizeOutOfRange) ==> !has_key(
                old(self).glyphs(),
                key,
            ) && key.face.index < old(self).face_count() && !size_fits(key.size),
            r != Err::<usize, TextError>(TextError::TooManyFaces),
            r matches Ok(slot) ==> {
                &&& slot < final(self).glyphs().len()
                &&& final(self).glyphs()[slot as int].key == key
                &&& slot == slot_of(final(self).glyphs(), key)
                &&& has_key(final(self).glyphs(), key)
                &&& !has_key(old(self).glyphs(), key) ==> slot == old(self).glyphs().len()
                    && final(self).glyphs().len() == old(self).glyphs().len() + 1
            },
            r is Err ==> final(self).glyphs() == old(self).glyphs(),
    {
        if let Some(slot) = self.cache.find(&key) {
            assert(self.cache@.subrange(0, self.cache@.len() as int) =~= self.cache@);
            return Ok(slot);
        }
        assert(self.cache@.subrange(0, self.cache@.len() as int) =~= self.cache@);
        if key.face.index as usize >= self.faces.len() {
            return Err(TextError::UnknownFace);
        }
        let (metrics, coverage) = match rasterize(
            &self.faces[key.face.index as usize],
            key.size,
            key.ch,
        ) {
            Ok(glyph) => glyph,
            Err(e) => {
                return Err(e);
            },
        };
        let ghost before = self.cache@;
        let r = self.cache.insert(key, metrics, coverage);
        proof {
            let after = self.cache@;
            assert forall|i: int| 0 <= i < after.len() implies (#[trigger] after[i]).key.face.index
                < self.faces@.len() by {
                if i < before.len() {
                    assert(after[i] == before[i]);
                }
            }
            assert forall|i: int| 0 <= i < after.len() implies size_fits(
                (#[trigger] after[i]).key.size,
            ) by {
                if i < before.len() {
                    assert(after[i] == before[i]);
                }
            }
        }
        r
    }

    /// The horizontal kerning between two glyphs of a face, in 26.6 fixed
    /// point, at the size last applied to the face.
    pub fn kerning(&self, face: FaceHandle, left: u32, right: u32) -> (r: Result<i32, TextError>)
        ensures
            face.index >= self.face_count() ==> r == Err::<i32, TextError>(TextError::UnknownFace),
            face.index < self.face_count() ==> r != Err::<i32, TextError>(TextError::UnknownFace),
            r matches Err(e) ==> e == TextError::UnknownFace || e == TextError::MetricsOutOfRange
                || e is Freetype,
    {
        if face.index as usize >= self.faces.len() {
            return Err(TextError::UnknownFace);
        }
        match face_get_kerning(&self.faces[face.index as usize], left, right) {
            Ok(vector) => kerning_from_vector(vector.0, vector.1),
            Err(e) => Err(freetype_error(e)),
        }
    }

    /// Applies a pixel size to a face, so that what is asked of the face
    /// next is answered at that size.
    pub fn apply_size(&self, face: FaceHandle, size: isize) -> (r: Result<(), TextError>)
        ensures
            face.index >= self.face_count() ==> r == Err::<(), TextError>(TextError::UnknownFace),
            r == Err::<(), TextError>(TextError::UnknownFace) ==> face.index >= self.face_count(),
            face.index < self.face_count() && !size_fits(size) ==> r == Err::<(), TextError>(
                TextError::SizeOutOfRange,
            ),
            r == Err::<(), TextError>(TextError::SizeOutOfRange) ==> face.index
                < self.face_count() && !size_fits(size),
            r matches Err(e) ==> e == TextError::UnknownFace || e == TextError::SizeOutOfRange
                || e is Freetype,
    {
        if face.index as usize >= self.faces.len() {
            return Err(TextError::UnknownFace);
        }
        apply_size_to(&self.faces[face.index as usize], size)
    }

    /// The kerning of each pair, in the order of the pairs.
    ///
    /// No pair, no call on the face.
    pub fn kernings(&self, face: FaceHandle, pairs: &Vec<(u32, u32)>) -> (r: Result<
        Vec<i32>,
        TextError,
    >)
        ensures
            pairs@.len() == 0 ==> r is Ok,
            pairs@.len() > 0 && face.index >= self.face_count() ==> r == Err::<
                Vec<i32>,
                TextError,
            >(TextError::UnknownFace),
            r == Err::<Vec<i32>, TextError>(TextError::UnknownFace) ==> pairs@.len() > 0
                && face.index >= self.face_count(),
            r matches Ok(found) ==> found@.len() == pairs@.len(),
            r matches Err(e) ==> e == TextError::UnknownFace || e == TextError::MetricsOutOfRange
                || e is Freetype,
    {
        let mut found: Vec<i32> = Vec::new();
        let mut i: usize = 0;
        while i < pairs.len()
            invariant
                i <= pairs@.len(),
                found@.len() == i,
                i > 0 ==> face.index < self.face_count(),
            decreases pairs@.len() - i,
        {
            let pair: (u32, u32) = pairs[i];
            match self.kerning(face, pair.0, pair.1) {
                Ok(k) => {
                    found.push(k);
                },
                Err(e) => {
                    return Err(e);
                },
            }
            i = i + 1;
        }
        Ok(found)
    }

    /// Resolves the glyphs of a text: for each character, in reading order,
    /// the cached glyph of that character, rasterized first where the cache
    /// does not hold it.  No kerning is set.
    ///
    /// A text whose glyphs are all cached is resolved without a call on the
    /// face, and leaves the cache as it was.
    pub fn resolve_glyphs(&mut self, face: FaceHandle, size: isize, text: &str) -> (r: Result<
        Vec<GlyphStep>,
        TextError,
    >)
        requires
            old(self).wf(),
        ensures
            final(self).wf(),
            final(self).face_count() == old(self).face_count(),
            extends(final(self).glyphs(), old(self).glyphs()),
            all_cached(old(self).glyphs(), face, size, text@) ==> r is Ok && final(self).glyphs()
                == old(self).glyphs(),
            text@.len() > 0 && face.index >= old(self).face_count() ==> r == Err::<
                Vec<GlyphStep>,
                TextError,
            >(TextError::UnknownFace),
            r == Err::<Vec<GlyphStep>, TextError>(TextError::UnknownFace) ==> text@.len() > 0
                && face.index >= old(self).face_count(),
            !size_fits(size) && face.index < old(self).face_count() && !all_cached(
                old(self).glyphs(),
                face,
                size,
                text@,
            ) ==> r == Err::<Vec<GlyphStep>, TextError>(TextError::SizeOutOfRange),
            r == Err::<Vec<GlyphStep>, TextError>(TextError::SizeOutOfRange) ==> !size_fits(size)
                && face.index < old(self).face_count() && !all_cached(
                old(self).glyphs(),
                face,
                size,
                text@,
            ),
            r != Err::<Vec<GlyphStep>, TextError>(TextError::TooManyFaces),
            r matches Ok(steps) ==> resolves(final(self).glyphs(), face, size, text@, steps@),
            r matches Ok(steps) ==> forall|i: int|
                0 <= i < steps@.len() ==> (#[trigger] steps@[i]).kerning_x == 0,
            r matches Ok(steps) ==> text@.len() > 0 ==> face.index < old(self).face_count()
                && size_fits(size),
    {
        let mut steps: Vec<GlyphStep> = Vec::new();
        let ghost start = self.cache@;
        assert(start.subrange(0, start.len() as int) =~= start);
        for ch in it: text.chars()
            invariant
                self.wf(),
                self.face_count() == old(self).face_count(),
                start == old(self).glyphs(),
                extends(self.cache@, start),
                it.seq() == text@,
                steps@.len() == it.index(),
                it.index() == 0 ==> self.cache@ == start,
                all_cached(start, face, size, text@) ==> self.cache@ == start,
                !size_fits(size) ==> self.cache@ == start && all_cached(
                    start,
                    face,
                    size,
                    text@.subrange(0, it.index() as int),
                ),
                it.index() > 0 ==> face.index < self.face_count() && size_fits(size),
                resolves(self.cache@, face, size, text@.subrange(0, it.index() as int), steps@),
                forall|j: int| 0 <= j < steps@.len() ==> (#[trigger] steps@[j]).kerning_x == 0,
        {
            let ghost i = it.index() as int;
            let ghost before = self.cache@;
            let ghost steps_before = steps@;
            assert(ch == text@[i]);
            let key = CacheKey { face, size, ch };
            proof {
                assert(key == key_at(face, size, text@, i));
                self.lemma_cache_is_whole();
                if has_key(self.cache@, key) {
                    let s = slot_of(self.cache@, key);
                    assert(self.cache@[s].key == key);
                }
            }
            let slot: usize = match self.get_cache_entry(key) {
                Ok(s) => s,
                Err(e) => {
                    proof {
                        lemma_extends_is_transitive(start, before, self.cache@);
                        if !size_fits(size) {
                            assert(!has_key(start, key_at(face, size, text@, i)));
                            assert(!all_cached(start, face, size, text@));
                        }
                    }
                    return Err(e);
                },
            };
            let metrics: GlyphMetrics = self.cache.metrics_at(slot);
            steps.push(GlyphStep { glyph: slot, kerning_x: 0, metrics });
            proof {
                let after = self.cache@;
                self.lemma_cache_is_whole();
                assert(after[slot as int].key.face.index < self.face_count());
                assert(size_fits(after[slot as int].key.size));
                lemma_extends_is_transitive(start, before, after);
                let prefix = text@.subrange(0, i + 1);
                if !size_fits(size) {
                    assert(has_key(start, key));
                    assert forall|j: int| 0 <= j < prefix.len() implies has_key(
                        start,
                        #[trigger] key_at(face, size, prefix, j),
                    ) by {
                        if j < i {
                            assert(key_at(face, size, prefix, j) == key_at(
                                face,
                                size,
                                text@.subrange(0, i),
                                j,
                            ));
                        } else {
                            assert(key_at(face, size, prefix, j) == key);
                        }
                    }
                }
                assert forall|j: int| 0 <= j < steps@.len() implies {
                    &&& (#[trigger] steps@[j]).glyph < after.len()
                    &&& after[steps@[j].glyph as int].key == key_at(face, size, prefix, j)
                    &&& steps@[j].metrics == after[steps@[j].glyph as int].metrics
                } by {
                    if j < i {
                        assert(steps@[j] == steps_before[j]);
                        let s = steps_before[j].glyph as int;
                        assert(after.subrange(0, before.len() as int)[s] == after[s]);
                        assert(text@.subrange(0, i)[j] == prefix[j]);
                    }
                }
                assert forall|j: int| 0 <= j < steps@.len() implies (#[trigger] steps@[j]).kerning_x
                    == 0 by {
                    if j < i {
                        assert(steps@[j] == steps_before[j]);
                    }
                }
            }
        }
        assert(text@.subrange(0, text@.len() as int) =~= text@);
        Ok(steps)
    }

    /// Resolves a text to the run of glyphs that draws it: for each
    /// character, in reading order, the cached glyph of that character and
    /// the kerning against the glyph before it.
    ///
    /// The glyphs are resolved first.  Where there is a pair to kern, the
    /// size is then applied to the face, since a lookup at another size may
    /// have left the face at that size, and kerning is asked of the face for
    /// each glyph with the one that follows it, the earlier glyph first, and
    /// set on the later glyph of the pair.  A text of one character whose
    /// glyph is cached is resolved without a call on the face.
    pub fn resolve(&mut self, face: FaceHandle, size: isize, text: &str) -> (r: Result<
        Vec<GlyphStep>,
        TextError,
    >)
        requires
            old(self).wf(),
        ensures
            final(self).wf(),
            final(self).face_count() == old(self).face_count(),
            extends(final(self).glyphs(), old(self).glyphs()),
            text@.len() == 0 ==> r is Ok && final(self).glyphs() == old(self).glyphs(),
            text@.len() == 1 && has_key(old(self).glyphs(), key_at(face, size, text@, 0)) ==> r
                is Ok && final(self).glyphs() == old(self).glyphs(),
            text@.len() > 0 && face.index >= old(self).face_count() ==> r == Err::<
                Vec<GlyphStep>,
                TextError,
            >(TextError::UnknownFace),
            r == Err::<Vec<GlyphStep>, TextError>(TextError::UnknownFace) ==> text@.len() > 0
                && face.index >= old(self).face_count(),
            !size_fits(size) && face.index < old(self).face_count() && !all_cached(
                old(self).glyphs(),
                face,
                size,
                text@,
            ) ==> r == Err::<Vec<GlyphStep>, TextError>(TextError::SizeOutOfRange),
            r == Err::<Vec<GlyphStep>, TextError>(TextError::SizeOutOfRange) ==> !size_fits(size)
                && face.index < old(self).face_count() && !all_cached(
                old(self).glyphs(),
                face,
                size,
                text@,
            ),
            r != Err::<Vec<GlyphStep>, TextError>(TextError::TooManyFaces),
            r matches Ok(steps) ==> resolves(final(self).glyphs(), face, size, text@, steps@),
            r matches Ok(steps) ==> steps@.len() > 0 ==> steps@[0].kerning_x == 0,
    {
        let glyphs: Vec<GlyphStep> = match self.resolve_glyphs(face, size, text) {
            Ok(g) => g,
            Err(e) => {
                return Err(e);
            },
        };
        let pairs: Vec<(u32, u32)> = kerning_pairs(&glyphs);
        if pairs.len() > 0 {
            if let Err(e) = self.apply_size(face, size) {
                return Err(e);
            }
        }
        let found: Vec<i32> = match self.kernings(face, &pairs) {
            Ok(k) => k,
            Err(e) => {
                return Err(e);
            },
        };
        let steps: Vec<GlyphStep> = with_kerning(&glyphs, &found);
        proof {
            assert forall|i: int| 0 <= i < steps@.len() implies {
                &&& (#[trigger] steps@[i]).glyph < self.glyphs().len()
                &&& self.glyphs()[steps@[i].glyph as int].key == key_at(face, size, text@, i)
                &&& steps@[i].metrics == self.glyphs()[steps@[i].glyph as int].metrics
            } by {
                assert(steps@[i].glyph == glyphs@[i].glyph);
                assert(steps@[i].metrics == glyphs@[i].metrics);
            }
        }
        Ok(steps)
    }

    /// Measures a text in a face at a pixel size: resolves it to glyphs and
    /// lays them out.
    ///
    /// An empty text is measured without a call to the face, and has a box
    /// of zero width and zero height.
    pub fn measure(&mut self, face: FaceHandle, size: isize, text: &str) -> (r: Result<
        LayoutResult,
        TextError,
    >)
        requires
            old(self).wf(),
        ensures
            final(self).wf(),
            final(self).face_count() == old(self).face_count(),
            extends(final(self).glyphs(), old(self).glyphs()),
            text@.len() == 0 ==> r is Ok && final(self).glyphs() == old(self).glyphs(),
            text@.len() == 1 && has_key(old(self).glyphs(), key_at(face, size, text@, 0)) ==> r
                is Ok && final(self).glyphs() == old(self).glyphs(),
            text@.len() > 0 && face.index >= old(self).face_count() ==> r == Err::<
                LayoutResult,
                TextError,
            >(TextError::UnknownFace),
            r matches Err(e) ==> (e == TextError::UnknownFace ==> text@.len() > 0 && face.index
                >= old(self).face_count()) && e != TextError::TooManyFaces,
            !size_fits(size) && face.index < old(self).face_count() && !all_cached(
                old(self).glyphs(),
                face,
                size,
                text@,
            ) ==> (r matches Err(e) && e == TextError::SizeOutOfRange),
            r matches Err(e) ==> (e == TextError::SizeOutOfRange ==> !size_fits(size) && face.index
                < old(self).face_count() && !all_cached(old(self).glyphs(), face, size, text@)),
            r matches Ok(layout) ==> exists|steps: Seq<GlyphStep>|
                resolves(final(self).glyphs(), face, size, text@, steps) && layout@ == layout_of(
                    steps,
                ),
            r matches Ok(layout) ==> layout.placements@.len() == text@.len(),
            r matches Ok(layout) ==> text@.len() == 0 ==> layout.width == 0 && layout.height == 0,
    {
        match self.resolve(face, size, text) {
            Ok(steps) => {
                let layout = lay_out(&steps);
                assert(resolves(self.glyphs(), face, size, text@, steps@) && layout@ == layout_of(
                    steps@,
                ));
                assert(layout@.placements.len() == steps@.len());
                Ok(layout)
            },
            Err(e) => Err(e),
        }
    }
}

} // verus!
