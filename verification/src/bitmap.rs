//! Rasterized glyph bitmaps as they come from the face, and the test of
//! whether their memory can be uploaded as a coverage texture.
//!
//! A texture takes one byte of coverage per pixel, rows from the top down
//! and without padding.  Any other shape is refused with the reason: a
//! bitmap that was skipped silently would leave measuring and drawing out of
//! step.

use vstd::prelude::*;

verus! {

/// How the bits of a pixel are stored in a bitmap.
#[derive(Clone, Copy, Debug, PartialEq, Eq, Structural)]
pub enum PixelMode {
    /// The reserved value.
    Reserved,
    /// One bit per pixel.
    Mono,
    /// One byte of coverage per pixel.
    Gray,
    /// Two bits per pixel.
    Gray2,
    /// Four bits per pixel.
    Gray4,
    /// Three coverage bytes per pixel, side by side.
    Lcd,
    /// Three coverage bytes per pixel, one above the other.
    LcdV,
    /// Four bytes of colour per pixel, blue first.
    Bgra,
}

/// Why a bitmap cannot be uploaded as a coverage texture.
#[derive(Clone, Copy, Debug, PartialEq, Eq, Structural)]
pub enum BitmapError {
    /// The rows are padded: the pitch is not the width.
    UnsupportedPitch,
    /// The rows run from the bottom up: the pitch is negative.
    FlowUp,
    /// The bitmap holds colour, not coverage.
    Bgra,
    /// The bitmap is in a pixel mode that is neither coverage nor colour.
    UnexpectedPixelMode(PixelMode),
}

/// A bitmap in the layout the rasterizer left it in.
#[derive(Clone, Debug)]
pub struct TexturableBitmap {
    /// Pixels per row.
    pub width: i32,
    /// Number of rows.
    pub rows: i32,
    /// Bytes from one row to the next; negative where rows run bottom up.
    pub pitch: i32,
    pub pixel_mode: PixelMode,
    pub buffer: Vec<u8>,
}

/// The reason for which a bitmap of this mode, pitch and width is refused,
/// if it is.  The pixel mode is judged first, then the direction of the
/// rows, then their padding.
pub open spec fn rejection(pixel_mode: PixelMode, pitch: int, width: int) -> Option<BitmapError> {
    match pixel_mode {
        PixelMode::Gray => {
            if pitch < 0 {
                Some(BitmapError::FlowUp)
            } else if pitch != width {
                Some(BitmapError::UnsupportedPitch)
            } else {
                None
            }
        },
        PixelMode::Bgra => Some(BitmapError::Bgra),
        other => Some(BitmapError::UnexpectedPixelMode(other)),
    }
}

impl TexturableBitmap {
    pub fn new(width: i32, rows: i32, pitch: i32, pixel_mode: PixelMode, buffer: Vec<u8>) -> (r:
        Self)
        ensures
            r.width == width,
            r.rows == rows,
            r.pitch == pitch,
            r.pixel_mode == pixel_mode,
            r.buffer == buffer,
    {
        TexturableBitmap { width, rows, pitch, pixel_mode, buffer }
    }

    /// Width and height in pixels, where neither is negative.
    pub fn get_dimensions(&self) -> (r: Option<(u32, u32)>)
        ensures
            r is Some <==> self.width >= 0 && self.rows >= 0,
            r matches Some(d) ==> d.0 == self.width && d.1 == self.rows,
    {
        if self.width >= 0 && self.rows >= 0 {
            Some((self.width as u32, self.rows as u32))
        } else {
            None
        }
    }

    /// The bytes to upload: the buffer as it is, where the bitmap is one
    /// byte of coverage per pixel in unpadded rows from the top down.
    pub fn into_vec(self) -> (r: Result<Vec<u8>, BitmapError>)
        ensures
            r == match rejection(self.pixel_mode, self.pitch as int, self.width as int) {
                Some(e) => Err::<Vec<u8>, BitmapError>(e),
                None => Ok(self.buffer),
            },
            r is Ok <==> self.pixel_mode == PixelMode::Gray && 0 <= self.pitch == self.width,
            r matches Ok(bytes) ==> bytes@ == self.buffer@,
    {
        match self.pixel_mode {
            PixelMode::Gray => {
                if self.pitch < 0 {
                    Err(BitmapError::FlowUp)
                } else if self.pitch != self.width {
                    Err(BitmapError::UnsupportedPitch)
                } else {
                    Ok(self.buffer)
                }
            },
            PixelMode::Bgra => Err(BitmapError::Bgra),
            other => Err(BitmapError::UnexpectedPixelMode(other)),
        }
    }
}

} // verus!
