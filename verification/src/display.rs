//! One changing text line of the screen, in the mutate-then-request-repaint
//! style: setters replace the text or the font and raise a dirty flag; the
//! paint step takes the flag down.

use vstd::prelude::*;
use crate::text::{text_chars, text_as_str};

verus! {

/// Weight of the font a display line is drawn with.
#[derive(Clone, Copy, PartialEq, Eq, Structural, Debug)]
pub enum LineFont {
    Bold,
    Normal,
}

/// A display line: its text, the font to draw it with, and a dirty flag
/// standing for a pending repaint request.
pub struct ChangingTextLine {
    text: heapless::String<50>,
    font: LineFont,
    dirty: bool,
}

impl ChangingTextLine {
    /// The characters the line shows.
    pub closed spec fn text_view(&self) -> Seq<char> {
        text_chars(self.text)
    }

    /// The font the line is drawn with.
    pub closed spec fn font_view(&self) -> LineFont {
        self.font
    }

    /// Whether a repaint is pending.
    pub closed spec fn dirty_view(&self) -> bool {
        self.dirty
    }

    /// A new line showing `text` in `font`, with its first paint pending.
    pub fn new(text: heapless::String<50>, font: LineFont) -> (r: Self)
        ensures
            r.text_view() == text_chars(text),
            r.font_view() == font,
            r.dirty_view(),
    {
        ChangingTextLine { text, font, dirty: true }
    }

    /// Replaces the line's text and requests a repaint.
    pub fn update_text(&mut self, text: heapless::String<50>)
        ensures
            final(self).text_view() == text_chars(text),
            final(self).font_view() == old(self).font_view(),
            final(self).dirty_view(),
    {
        self.text = text;
        self.dirty = true;
    }

    /// Replaces the line's font and requests a repaint.
    pub fn update_font(&mut self, font: LineFont)
        ensures
            final(self).text_view() == old(self).text_view(),
            final(self).font_view() == font,
            final(self).dirty_view(),
    {
        self.font = font;
        self.dirty = true;
    }

    /// The text the line currently shows.
    pub fn text(&self) -> (r: &str)
        ensures
            r@ == self.text_view(),
    {
        text_as_str(&self.text)
    }

    /// The font the line is currently drawn with.
    pub fn font(&self) -> (r: LineFont)
        ensures
            r == self.font_view(),
    {
        self.font
    }

    /// Acknowledges a repaint: clears the dirty flag and reports whether a
    /// repaint was pending.
    pub fn take_dirty(&mut self) -> (was: bool)
        ensures
            was == old(self).dirty_view(),
            !final(self).dirty_view(),
            final(self).text_view() == old(self).text_view(),
            final(self).font_view() == old(self).font_view(),
    {
        let was = self.dirty;
        self.dirty = false;
        was
    }
}

} // verus!
