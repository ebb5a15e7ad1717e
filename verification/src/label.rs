//! Labels: the display state of one piece of text.
//!
//! A label holds what was asked of it, its text, face, size and colour, and
//! the layout last computed for it.  Changing the text, the face or the size
//! leaves the layout as it was and marks it stale; `update` lays the text
//! out again.  `draw` gives whatever was computed last and lays nothing out.

use vstd::prelude::*;
use vstd::string::*;
use crate::cache::{extends, has_key};
use crate::error::TextError;
use crate::glyph::FaceHandle;
use crate::layout::{layout_of, GlyphStep, LayoutResult, LayoutView, PlacementView};
use crate::renderer::{all_cached, key_at, resolves, size_fits, TextRenderer};

verus! {

/// A colour, each channel from 0 to 255.
#[derive(Clone, Copy, Debug, PartialEq, Eq, Structural)]
pub struct Color {
    pub red: u8,
    pub green: u8,
    pub blue: u8,
    pub alpha: u8,
}

/// The quad that shows a label: as large as the label's backing texture,
/// in the label's colour.  All glyphs of a label share that one colour.
#[derive(Clone, Copy, Debug, PartialEq, Eq, Structural)]
pub struct Quad {
    pub width: u32,
    pub height: u32,
    pub color: Color,
}

/// One piece of text to show.
pub struct Label {
    text: String,
    face: FaceHandle,
    size: isize,
    color: Color,
    layout: LayoutResult,
    laid_out: bool,
}

/// A label's state over mathematical values.
pub struct LabelView {
    pub text: Seq<char>,
    pub face: FaceHandle,
    pub size: isize,
    pub color: Color,
    /// The layout last computed, or the placeholder of a new label.
    pub layout: LayoutView,
    /// Whether the layout was computed for the present text, face and size.
    pub laid_out: bool,
}

/// A length in pixels as a texture can have it: nothing where it is
/// negative, and no more than 32 bits hold.
pub open spec fn texture_extent(pixels: int) -> int {
    if pixels < 0 {
        0
    } else if pixels > u32::MAX {
        u32::MAX as int
    } else {
        pixels
    }
}

/// The layout of a label that was never laid out: a box of 16 by 16 pixels
/// with nothing in it.
pub open spec fn placeholder_layout() -> LayoutView {
    LayoutView {
        placements: Seq::<PlacementView>::empty(),
        width: 16,
        height: 16,
        above: 0,
        below: 0,
        pen_x: 0,
        pen_y: 0,
    }
}

fn clamp_extent(pixels: i128) -> (r: u32)
    ensures
        r == texture_extent(pixels as int),
{
    if pixels < 0 {
        0
    } else if pixels > u32::MAX as i128 {
        u32::MAX
    } else {
        pixels as u32
    }
}

impl View for Label {
    type V = LabelView;

    closed spec fn view(&self) -> LabelView {
        LabelView {
            text: self.text@,
            face: self.face,
            size: self.size,
            color: self.color,
            layout: self.layout@,
            laid_out: self.laid_out,
        }
    }
}

impl Label {
    /// The state of a new label in `face`: the text "label" at 16 pixels in
    /// opaque white, not laid out.
    pub open spec fn fresh(face: FaceHandle) -> LabelView {
        LabelView {
            text: "label"@,
            face,
            size: 16,
            color: Color { red: 255, green: 255, blue: 255, alpha: 255 },
            layout: placeholder_layout(),
            laid_out: false,
        }
    }

    pub fn new(face: FaceHandle) -> (r: Label)
        ensures
            r@ == Label::fresh(face),
    {
        let layout = LayoutResult {
            placements: Vec::new(),
            width: 16,
            height: 16,
            above: 0,
            below: 0,
            pen_x: 0,
            pen_y: 0,
        };
        assert(layout@.placements =~= Seq::<PlacementView>::empty());
        Label {
            text: String::from_str("label"),
            face,
            size: 16,
            color: Color { red: 255, green: 255, blue: 255, alpha: 255 },
            layout,
            laid_out: false,
        }
    }

    pub fn set_face(&mut self, face: FaceHandle)
        ensures
            final(self)@ == (LabelView { face, laid_out: false, ..old(self)@ }),
    {
        self.face = face;
        self.laid_out = false;
    }

    pub fn set_text(&mut self, text: String)
        ensures
            final(self)@ == (LabelView { text: text@, laid_out: false, ..old(self)@ }),
    {
        self.text = text;
        self.laid_out = false;
    }

    pub fn set_font_size(&mut self, size: isize)
        ensures
            final(self)@ == (LabelView { size, laid_out: false, ..old(self)@ }),
    {
        self.size = size;
        self.laid_out = false;
    }

    /// Sets the colour.  The layout does not depend on it and stays valid.
    pub fn set_color(&mut self, red: u8, green: u8, blue: u8, alpha: u8)
        ensures
            final(self)@ == (LabelView { color: Color { red, green, blue, alpha }, ..old(self)@ }),
    {
        self.color = Color { red, green, blue, alpha };
    }

    /// Takes `layout` as the layout of the present text, face and size.
    pub fn adopt(&mut self, layout: LayoutResult)
        ensures
            final(self)@ == (LabelView { layout: layout@, laid_out: true, ..old(self)@ }),
    {
        self.layout = layout;
        self.laid_out = true;
    }

    /// Lays the text out again, rasterizing what the cache does not hold.
    ///
    /// On success the label holds the layout of its text resolved against
    /// the renderer's cache.  On failure it is as it was: a glyph that
    /// cannot be had fails the whole update and is never skipped.
    pub fn update(&mut self, renderer: &mut TextRenderer) -> (r: Result<(), TextError>)
        requires
            old(renderer).wf(),
        ensures
            final(renderer).wf(),
            final(renderer).face_count() == old(renderer).face_count(),
            extends(final(renderer).glyphs(), old(renderer).glyphs()),
            old(self)@.text.len() == 0 ==> r is Ok && final(renderer).glyphs() == old(
                renderer,
            ).glyphs(),
            old(self)@.text.len() == 1 && has_key(
                old(renderer).glyphs(),
                key_at(old(self)@.face, old(self)@.size, old(self)@.text, 0),
            ) ==> r is Ok && final(renderer).glyphs() == old(renderer).glyphs(),
            old(self)@.text.len() > 0 && old(self)@.face.index >= old(renderer).face_count() ==> r
                == Err::<(), TextError>(TextError::UnknownFace),
            r == Err::<(), TextError>(TextError::UnknownFace) ==> old(self)@.text.len() > 0 && old(
                self,
            )@.face.index >= old(renderer).face_count(),
            !size_fits(old(self)@.size) && old(self)@.face.index < old(renderer).face_count()
                && !all_cached(
                old(renderer).glyphs(),
                old(self)@.face,
                old(self)@.size,
                old(self)@.text,
            ) ==> r == Err::<(), TextError>(TextError::SizeOutOfRange),
            r == Err::<(), TextError>(TextError::SizeOutOfRange) ==> !size_fits(old(self)@.size)
                && old(self)@.face.index < old(renderer).face_count() && !all_cached(
                old(renderer).glyphs(),
                old(self)@.face,
                old(self)@.size,
                old(self)@.text,
            ),
            r != Err::<(), TextError>(TextError::TooManyFaces),
            r is Ok ==> exists|steps: Seq<GlyphStep>|
                resolves(
                    final(renderer).glyphs(),
                    old(self)@.face,
                    old(self)@.size,
                    old(self)@.text,
                    steps,
                ) && final(self)@ == (LabelView {
                    layout: layout_of(steps),
                    laid_out: true,
                    ..old(self)@
                }),
            r is Err ==> final(self)@ == old(self)@,
    {
        match renderer.measure(self.face, self.size, self.text.as_str()) {
            Ok(layout) => {
                self.adopt(layout);
                Ok(())
            },
            Err(e) => Err(e),
        }
    }

    /// The quad to draw: the size that the last update computed and the
    /// present colour.  Nothing is laid out here.
    pub fn draw(&self) -> (r: Quad)
        ensures
            r == (Quad {
                width: texture_extent(self@.layout.width) as u32,
                height: texture_extent(self@.layout.height) as u32,
                color: self@.color,
            }),
    {
        Quad {
            width: clamp_extent(self.layout.width),
            height: clamp_extent(self.layout.height),
            color: self.color,
        }
    }

    /// The layout last computed.
    pub fn layout(&self) -> (r: &LayoutResult)
        ensures
            r@ == self@.layout,
    {
        &self.layout
    }

    /// Whether the layout was computed for the present text, face and size.
    pub fn is_laid_out(&self) -> (r: bool)
        ensures
            r == self@.laid_out,
    {
        self.laid_out
    }

    pub fn text(&self) -> (r: &str)
        ensures
            r@ == self@.text,
    {
        self.text.as_str()
    }

    pub fn face(&self) -> (r: FaceHandle)
        ensures
            r == self@.face,
    {
        self.face
    }

    pub fn font_size(&self) -> (r: isize)
        ensures
            r == self@.size,
    {
        self.size
    }

    pub fn color(&self) -> (r: Color)
        ensures
            r == self@.color,
    {
        self.color
    }
}

} // verus!
