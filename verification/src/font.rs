//! The boundary to FreeType.
//!
//! Everything here is believed, not proved: each function hands one call on
//! to FreeType and says no more of the result than FreeType's bindings show.
//! A face carries hidden state, the size last applied and the glyph last
//! loaded, so nothing is claimed of what a face returns; the code that
//! calls these functions is proved for every value that may come back.
//!
//! An error's number has a name here, so that the error this library
//! reports in its place can be said to carry that number.
//!
//! A glyph taken out of a face's slot, and the bitmap rendered from it, do
//! not change once they are made.  What two of the calls below must know of
//! them before they may be made has names here: the format of a glyph, since
//! a glyph that is a bitmap already must not be rendered again, and the
//! pitch and rows of a rendered bitmap, since its buffer's length is their
//! product.

use vstd::prelude::*;
use crate::bitmap::PixelMode;

verus! {

#[verifier::external_type_specification]
#[verifier::external_body]
pub struct ExLibrary(freetype::Library);

#[verifier::external_type_specification]
#[verifier::external_body]
#[verifier::reject_recursive_types(BYTES)]
pub struct ExFace<BYTES>(freetype::Face<BYTES>);

#[verifier::external_type_specification]
#[verifier::external_body]
pub struct ExGlyphSlot(freetype::GlyphSlot);

#[verifier::external_type_specification]
#[verifier::external_body]
pub struct ExGlyph(freetype::Glyph);

#[verifier::external_type_specification]
#[verifier::external_body]
pub struct ExBitmapGlyph(freetype::BitmapGlyph);

#[verifier::external_type_specification]
#[verifier::external_body]
pub struct ExError(freetype::Error);

/// The number of a FreeType error.  An error is one of a fixed list of
/// kinds, and each kind has one number.
pub uninterp spec fn error_number(error: freetype::Error) -> int;

/// The format tag of a glyph taken out of a slot.
pub uninterp spec fn glyph_format_of(glyph: freetype::Glyph) -> int;

/// The format tag of a glyph that holds a bitmap: the letters `bits`.
pub const GLYPH_FORMAT_BITMAP: u32 = 0x6269_7473;

/// The pitch of a rendered glyph's bitmap: bytes from one row to the next,
/// negative where rows run bottom up.
pub uninterp spec fn bitmap_pitch_of(glyph: freetype::BitmapGlyph) -> int;

/// The number of rows of a rendered glyph's bitmap.
pub uninterp spec fn bitmap_rows_of(glyph: freetype::BitmapGlyph) -> int;

/// `|v|`.
pub open spec fn magnitude(v: int) -> int {
    if v < 0 {
        -v
    } else {
        v
    }
}

/// `Library::init`: a new FreeType instance with the default modules, or
/// FreeType's error.
#[verifier::external_body]
pub(crate) fn library_init() -> (r: Result<freetype::Library, freetype::Error>) {
    freetype::Library::init()
}

/// `Library::new_memory_face`: the first face of a font file held in
/// memory, or FreeType's error.
#[verifier::external_body]
pub(crate) fn library_new_memory_face(library: &freetype::Library, font: Vec<u8>) -> (r: Result<
    freetype::Face,
    freetype::Error,
>) {
    library.new_memory_face(font, 0)
}

/// `Face::set_char_size` with the height given in 26.6 points, the width
/// following the height and the default resolution.
#[verifier::external_body]
pub(crate) fn face_set_char_size(face: &freetype::Face, height: isize) -> (r: Result<
    (),
    freetype::Error,
>) {
    face.set_char_size(0, height, 0, 0)
}

/// `Face::get_char_index`: the glyph index that the face's character map
/// gives the character, which is never zero, or nothing where the map has
/// no glyph for it.
#[verifier::external_body]
pub(crate) fn face_get_char_index(face: &freetype::Face, ch: char) -> (r: Option<u32>)
    ensures
        r matches Some(index) ==> index != 0,
{
    face.get_char_index(ch as usize)
}

/// `Face::load_glyph` with the default flags: loads the glyph into the
/// face's slot, scaled to the size last applied and hinted.
#[verifier::external_body]
pub(crate) fn face_load_glyph(face: &freetype::Face, glyph_index: u32) -> (r: Result<
    (),
    freetype::Error,
>) {
    face.load_glyph(glyph_index, freetype::face::LoadFlag::DEFAULT)
}

/// `Face::glyph`: the face's glyph slot.
#[verifier::external_body]
pub(crate) fn face_glyph(face: &freetype::Face) -> (r: freetype::GlyphSlot) {
    *face.glyph()
}

/// `Face::get_kerning` in the default mode: the kerning between two glyphs
/// at the size last applied, scaled to 26.6 pixels and fitted to the grid.
#[verifier::external_body]
pub(crate) fn face_get_kerning(face: &freetype::Face, left: u32, right: u32) -> (r: Result<
    (i64, i64),
    freetype::Error,
>) {
    match face.get_kerning(left, right, freetype::face::KerningMode::KerningDefault) {
        Ok(v) => Ok((v.x as i64, v.y as i64)),
        Err(e) => Err(e),
    }
}

/// `GlyphSlot::get_glyph`: a copy of the glyph in the slot that lives apart
/// from the face.
#[verifier::external_body]
pub(crate) fn slot_get_glyph(slot: &freetype::GlyphSlot) -> (r: Result<
    freetype::Glyph,
    freetype::Error,
>) {
    slot.get_glyph()
}

/// `Glyph::format`: the glyph's format tag.
#[verifier::external_body]
pub(crate) fn glyph_format(glyph: &freetype::Glyph) -> (r: u32)
    ensures
        r == glyph_format_of(*glyph),
{
    glyph.format()
}

/// `Glyph::to_bitmap` in the normal render mode, at the glyph's own origin:
/// the glyph rendered as an anti-aliased bitmap, a glyph of its own.
///
/// For a glyph that is a bitmap already FreeType renders nothing and hands
/// the same glyph back, which would then have two owners; it is called for
/// other glyphs only.
#[verifier::external_body]
pub(crate) fn glyph_to_bitmap(glyph: &freetype::Glyph) -> (r: Result<
    freetype::BitmapGlyph,
    freetype::Error,
>)
    requires
        glyph_format_of(*glyph) != GLYPH_FORMAT_BITMAP,
{
    glyph.to_bitmap(freetype::RenderMode::Normal, None)
}

/// `Glyph::advance_x`: the glyph's horizontal advance in 16.16 fixed point.
#[verifier::external_body]
pub(crate) fn glyph_advance_x(glyph: &freetype::Glyph) -> (r: isize) {
    glyph.advance_x()
}

/// `Glyph::advance_y`: the glyph's vertical advance in 16.16 fixed point.
#[verifier::external_body]
pub(crate) fn glyph_advance_y(glyph: &freetype::Glyph) -> (r: isize) {
    glyph.advance_y()
}

/// `BitmapGlyph::left`: pixels from the pen to the bitmap's left edge.
#[verifier::external_body]
pub(crate) fn bitmap_glyph_left(glyph: &freetype::BitmapGlyph) -> (r: i32) {
    glyph.left()
}

/// `BitmapGlyph::top`: pixels from the baseline up to the bitmap's top edge.
#[verifier::external_body]
pub(crate) fn bitmap_glyph_top(glyph: &freetype::BitmapGlyph) -> (r: i32) {
    glyph.top()
}

/// `Bitmap::width` of `BitmapGlyph::bitmap`: pixels per row.
#[verifier::external_body]
pub(crate) fn bitmap_width(glyph: &freetype::BitmapGlyph) -> (r: i32) {
    glyph.bitmap().width()
}

/// `Bitmap::rows` of `BitmapGlyph::bitmap`: the number of rows.
#[verifier::external_body]
pub(crate) fn bitmap_rows(glyph: &freetype::BitmapGlyph) -> (r: i32)
    ensures
        r == bitmap_rows_of(*glyph),
{
    glyph.bitmap().rows()
}

/// `Bitmap::pitch` of `BitmapGlyph::bitmap`: bytes from one row to the
/// next.
#[verifier::external_body]
pub(crate) fn bitmap_pitch(glyph: &freetype::BitmapGlyph) -> (r: i32)
    ensures
        r == bitmap_pitch_of(*glyph),
{
    glyph.bitmap().pitch()
}

/// `Bitmap::pixel_mode` of `BitmapGlyph::bitmap`: how pixels are stored, or
/// FreeType's error for a mode it does not know.
#[verifier::external_body]
pub(crate) fn bitmap_pixel_mode(glyph: &freetype::BitmapGlyph) -> (r: Result<
    PixelMode,
    freetype::Error,
>) {
    match glyph.bitmap().pixel_mode() {
        Ok(freetype::bitmap::PixelMode::None) => Ok(PixelMode::Reserved),
        Ok(freetype::bitmap::PixelMode::Mono) => Ok(PixelMode::Mono),
        Ok(freetype::bitmap::PixelMode::Gray) => Ok(PixelMode::Gray),
        Ok(freetype::bitmap::PixelMode::Gray2) => Ok(PixelMode::Gray2),
        Ok(freetype::bitmap::PixelMode::Gray4) => Ok(PixelMode::Gray4),
        Ok(freetype::bitmap::PixelMode::Lcd) => Ok(PixelMode::Lcd),
        Ok(freetype::bitmap::PixelMode::LcdV) => Ok(PixelMode::LcdV),
        Ok(freetype::bitmap::PixelMode::Bgra) => Ok(PixelMode::Bgra),
        Err(e) => Err(e),
    }
}

/// `Bitmap::buffer` of `BitmapGlyph::bitmap`, copied: the pixel buffer,
/// which is as long as the pitch's magnitude times the number of rows.
///
/// `buffer` takes the pitch's magnitude, and its product with the number of
/// rows, in 32 bits, and the product for the buffer's length.  It is called
/// only where the rows are not negative and both fit.
#[verifier::external_body]
pub(crate) fn bitmap_buffer(glyph: &freetype::BitmapGlyph) -> (r: Vec<u8>)
    requires
        0 <= bitmap_rows_of(*glyph),
        magnitude(bitmap_pitch_of(*glyph)) <= i32::MAX,
        magnitude(bitmap_pitch_of(*glyph)) * bitmap_rows_of(*glyph) <= i32::MAX,
    ensures
        r@.len() == magnitude(bitmap_pitch_of(*glyph)) * bitmap_rows_of(*glyph),
{
    glyph.bitmap().buffer().to_vec()
}

/// The number of a FreeType error: the value that stands for the error's
/// kind, which is FreeType's own error code for the kinds that FreeType
/// reports.
#[verifier::external_body]
pub(crate) fn error_code(error: &freetype::Error) -> (r: i32)
    ensures
        r == error_number(*error),
{
    *error as i32
}

} // verus!
