//! Glyphs, font metrics and the settings of text layout.
use vstd::prelude::*;
use crate::bitmap::Bitmap;

verus! {

/// One glyph of a font: its metrics and its black and white bitmaps.
#[derive(Clone, Debug, PartialEq, Eq, Hash)]
pub struct GlyphData {
    pub y_offset: i32,
    pub h_advance: i32,
    pub v_advance: i32,
    pub black_bitmap: Bitmap,
    pub white_bitmap: Bitmap,
}

impl GlyphData {
    pub fn new(
        y_offset: i32,
        h_advance: i32,
        v_advance: i32,
        black_bitmap: Bitmap,
        white_bitmap: Bitmap,
    ) -> (r: Self)
        ensures
            r == (GlyphData { y_offset, h_advance, v_advance, black_bitmap, white_bitmap }),
    {
        GlyphData { y_offset, h_advance, v_advance, black_bitmap, white_bitmap }
    }

    /// The glyph's width, that of its white bitmap.
    pub fn width(&self) -> (r: u32)
        ensures
            r == self.white_bitmap@.width,
    {
        self.white_bitmap.width() as u32
    }

    /// The glyph's height, that of its white bitmap.
    pub fn height(&self) -> (r: u32)
        ensures
            r == self.white_bitmap@.height,
    {
        self.white_bitmap.height() as u32
    }
}

/// The size and placement of one glyph.
#[derive(Clone, Copy, Debug, PartialEq, Eq, Hash, Default, Structural)]
pub struct GlyphMetrics {
    pub width: u32,
    pub height: u32,
    pub y_offset: i32,
    pub h_advance: i32,
    pub v_advance: i32,
}

/// The vertical metrics of a font.
#[derive(Clone, Copy, Debug, PartialEq, Eq, Hash, Default, Structural)]
pub struct FontMetrics {
    pub ascent: i32,
    pub descent: i32,
    pub line_gap: i32,
}

/// The index of a glyph in its font.
#[derive(Clone, Copy, Debug, PartialEq, Eq, Hash, Default, Structural)]
pub struct GlyphId(pub usize);

/// Where text may break onto a new line.
#[derive(Clone, Copy, Debug, PartialEq, Eq, Hash, Default, Structural)]
pub enum WrapMode {
    /// Wrap only on whitespace, when the next word would reach the maximum width.
    Whitespace,
    /// Wrap on any character, when the maximum width would be reached.
    Character,
    /// Wrap on whitespace where possible, and on any character when no
    /// whitespace comes before the maximum width.
    #[default]
    Both,
}

/// The limits and wrapping of a text layout.
#[derive(Clone, Copy, Debug, PartialEq, Eq, Hash, Default, Structural)]
pub struct Config {
    pub max_width: Option<i32>,
    pub max_height: Option<i32>,
    pub wrap_mode: WrapMode,
}

} // verus!
