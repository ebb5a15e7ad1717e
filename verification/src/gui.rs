//! A renderer with one face, for interfaces that draw all their text in it.

use vstd::prelude::*;
use crate::error::TextError;
use crate::glyph::{FaceHandle, GlyphRecord};
use crate::label::Label;
use crate::renderer::TextRenderer;

verus! {

/// A text renderer and the face its labels are made in.
pub struct Gui {
    pub face: FaceHandle,
    pub text_renderer: TextRenderer,
}

impl Gui {
    /// The renderer is whole and the face is one of its faces.
    pub open spec fn wf(&self) -> bool {
        self.text_renderer.wf() && self.face.index < self.text_renderer.face_count()
    }

    /// A renderer with the face of the given font file loaded.
    pub fn new(font: Vec<u8>) -> (r: Result<Gui, TextError>)
        ensures
            r matches Ok(gui) ==> gui.wf() && gui.face.index == 0 && gui.text_renderer.face_count()
                == 1 && gui.text_renderer.glyphs() == Seq::<GlyphRecord>::empty(),
            r matches Err(e) ==> e is Freetype,
    {
        let mut text_renderer = match TextRenderer::new() {
            Ok(renderer) => renderer,
            Err(e) => {
                return Err(e);
            },
        };
        match text_renderer.load_face(font) {
            Ok(face) => Ok(Gui { face, text_renderer }),
            Err(e) => Err(e),
        }
    }

    /// A label in the interface's face.
    pub fn create_label(&mut self) -> (r: Label)
        ensures
            r@ == Label::fresh(old(self).face),
            *final(self) == *old(self),
    {
        self.text_renderer.create_label(self.face)
    }
}

} // verus!
