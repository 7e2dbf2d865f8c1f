//! The glyph source: bitmaps of the console's fixed font.
use vstd::prelude::*;

verus! {

/// Width in pixels of every glyph of the console's font.
pub const CHAR_WIDTH: usize = 7;

/// Height in pixels of every glyph of the console's font.
pub const CHAR_HEIGHT: usize = 16;

/// A rasterized character: rows of intensity bytes, top row first, and the
/// distance in pixels by which the cursor advances past it.
#[derive(Clone, Copy, Debug)]
pub struct Glyph {
    pub rows: &'static [&'static [u8]],
    pub width: usize,
}

/// The mathematical value of a [`Glyph`].
pub ghost struct GlyphView {
    pub rows: Seq<Seq<u8>>,
    pub width: nat,
}

impl View for Glyph {
    type V = GlyphView;

    open spec fn view(&self) -> GlyphView {
        GlyphView { rows: self.rows@.map_values(|row: &[u8]| row@), width: self.width as nat }
    }
}

/// What the font holds for a character in the console's weight and size:
/// the glyph, or `None` for a character without a bitmap.
pub uninterp spec fn font_raster(c: char) -> Option<GlyphView>;

/// Looks a character up in the font, through
/// `noto_sans_mono_bitmap::get_raster` with the regular weight and the raster
/// height 16. The contract names the outcome [`font_raster`], so that equal
/// characters give equal glyphs, and states the one fact the font's source
/// gives for every glyph of this weight and size: its width is
/// [`CHAR_WIDTH`]. The bitmap itself is not specified.
#[verifier::external_body]
pub(crate) fn rasterize(c: char) -> (r: Option<Glyph>)
    ensures
        r is None <==> font_raster(c) is None,
        r matches Some(g) ==> font_raster(c) == Some(g@) && g.width == CHAR_WIDTH,
{
    match noto_sans_mono_bitmap::get_raster(
        c,
        noto_sans_mono_bitmap::FontWeight::Regular,
        noto_sans_mono_bitmap::RasterHeight::Size16,
    ) {
        Some(raster) => Some(Glyph { rows: raster.raster(), width: raster.width() }),
        None => None,
    }
}

} // verus!
