//! The mathematical model of the console: what each operation of the writer
//! does to the buffer and to the cursor.
use vstd::prelude::*;
use crate::fault::Fault;
use crate::geometry::Geometry;
use crate::glyph::{font_raster, GlyphView, CHAR_HEIGHT, CHAR_WIDTH};
use crate::pixel::{channel, supported};

verus! {

/// Gap in pixels between two lines of text.
pub const LINE_SPACING: usize = 2;

/// Gap in pixels between two glyphs of a line.
pub const LETTER_SPACING: usize = 0;

/// Margin in pixels between the text and the top and left edges.
pub const BORDER_PADDING: usize = 1;

/// The state of a console: the bytes of its buffer, the geometry it was made
/// with, and the pixel at which the next glyph will be drawn.
pub ghost struct Console {
    pub buffer: Seq<u8>,
    pub info: Geometry,
    pub x: int,
    pub y: int,
}

/// A state together with the outcome of the operation that led to it.
pub type Step = (Console, Result<(), Fault>);

/// The buffer after the pixel at (`x`, `y`) has been set to `intensity`.
pub open spec fn put_pixel(buffer: Seq<u8>, info: Geometry, x: int, y: int, intensity: u8) -> Seq<
    u8,
> {
    let start = info.pixel_offset(x, y);
    Seq::new(
        buffer.len(),
        |i: int|
            if start <= i < start + info.bytes_per_pixel {
                channel(info.pixel_format, intensity, i - start)
            } else {
                buffer[i]
            },
    )
}

/// The buffer after the first `n` pixels of `row` have been drawn from left
/// to right, the first of them at (`x`, `y`).
pub open spec fn paint_row(
    buffer: Seq<u8>,
    info: Geometry,
    x: int,
    y: int,
    row: Seq<u8>,
    n: nat,
) -> Seq<u8>
    decreases n,
{
    if n == 0 {
        buffer
    } else {
        put_pixel(
            paint_row(buffer, info, x, y, row, (n - 1) as nat),
            info,
            x + n - 1,
            y,
            row[n - 1],
        )
    }
}

/// The buffer after the first `m` rows of a bitmap have been drawn from top
/// to bottom, its top left pixel at (`x`, `y`).
pub open spec fn paint_rows(
    buffer: Seq<u8>,
    info: Geometry,
    x: int,
    y: int,
    rows: Seq<Seq<u8>>,
    m: nat,
) -> Seq<u8>
    decreases m,
{
    if m == 0 {
        buffer
    } else {
        paint_row(
            paint_rows(buffer, info, x, y, rows, (m - 1) as nat),
            info,
            x,
            y + m - 1,
            rows[m - 1],
            rows[m - 1].len(),
        )
    }
}

/// Byte `i` of a buffer belongs to the pixel `c` columns right of (`x`, `y`)
/// and `r` rows below it.
pub open spec fn covers(info: Geometry, x: int, y: int, r: int, c: int, i: int) -> bool {
    let start = info.pixel_offset(x + c, y + r);
    start <= i < start + info.bytes_per_pixel
}

impl Console {
    /// The cursor's coordinates are values of a machine word.
    pub open spec fn valid(self) -> bool {
        &&& 0 <= self.x <= usize::MAX
        &&& 0 <= self.y <= usize::MAX
    }

    /// The cursor back at the left margin of its line.
    pub open spec fn carriage_return(self) -> Console {
        Console { x: BORDER_PADDING as int, ..self }
    }

    /// The cursor at the left margin of the next line.
    pub open spec fn newline(self) -> Console {
        Console { x: BORDER_PADDING as int, y: self.y + CHAR_HEIGHT + LINE_SPACING, ..self }
    }

    /// Every byte zero and the cursor at the top left margin.
    pub open spec fn clear(self) -> Console {
        Console {
            buffer: Seq::new(self.buffer.len(), |i: int| 0u8),
            x: BORDER_PADDING as int,
            y: BORDER_PADDING as int,
            ..self
        }
    }

    /// A glyph drawn at the cursor would end at or beyond the right edge.
    pub open spec fn at_line_end(self) -> bool {
        self.x + CHAR_WIDTH >= self.info.width
    }

    /// A glyph drawn at the cursor would end at or beyond the bottom edge.
    pub open spec fn at_screen_end(self) -> bool {
        self.y + CHAR_HEIGHT >= self.info.height
    }

    /// Prepares the place of the next glyph: a full clear where the screen
    /// is full, else a line break where the line is full. Both are judged on
    /// the cursor as it stands before either, and a clear leaves nothing of a
    /// line break, so that a screen that is full is only cleared.
    pub open spec fn make_room(self) -> Step {
        if self.at_screen_end() {
            (self.clear(), Ok(()))
        } else if self.at_line_end() {
            self.line_feed()
        } else {
            (self, Ok(()))
        }
    }

    /// Every pixel of the bitmap, drawn with its top left at the cursor, can
    /// be addressed and lies inside the buffer.
    pub open spec fn fits(self, rows: Seq<Seq<u8>>) -> bool {
        forall|r: int, c: int|
            0 <= r < rows.len() && 0 <= c < rows[r].len() ==> #[trigger] self.cell_fits(r, c)
    }

    /// The pixel `c` columns right of the cursor and `r` rows below it can be
    /// addressed and lies inside the buffer.
    pub open spec fn cell_fits(self, r: int, c: int) -> bool {
        self.info.pixel_fits(self.buffer.len() as int, self.x + c, self.y + r)
    }

    /// Byte `i` of the buffer belongs to the pixel `c` columns right of the
    /// cursor and `r` rows below it.
    pub open spec fn cell_covers(self, r: int, c: int, i: int) -> bool {
        covers(self.info, self.x, self.y, r, c, i)
    }

    /// Byte `i` of the buffer belongs to no pixel of the bitmap as drawn at
    /// the cursor.
    pub open spec fn outside_glyph(self, rows: Seq<Seq<u8>>, i: int) -> bool {
        forall|r: int, c: int|
            0 <= r < rows.len() && 0 <= c < rows[r].len() ==> !#[trigger] self.cell_covers(r, c, i)
    }

    /// Draws a glyph at the cursor and moves the cursor past it. Nothing is
    /// drawn, and the state is kept, where the pixel format is not supported,
    /// where a pixel of the glyph would fall outside the buffer, or where the
    /// cursor would leave the machine word.
    pub open spec fn render(self, glyph: GlyphView) -> Step {
        if !supported(self.info.pixel_format) {
            (self, Err(Fault::UnsupportedPixelFormat))
        } else if !self.fits(glyph.rows) || self.x + glyph.width + LETTER_SPACING > usize::MAX {
            (self, Err(Fault::OutOfBounds))
        } else {
            (
                Console {
                    buffer: paint_rows(
                        self.buffer,
                        self.info,
                        self.x,
                        self.y,
                        glyph.rows,
                        glyph.rows.len(),
                    ),
                    x: self.x + glyph.width + LETTER_SPACING,
                    ..self
                },
                Ok(()),
            )
        }
    }

    /// Moves the cursor to the next line, unless that leaves the machine word.
    pub open spec fn line_feed(self) -> Step {
        if self.y + CHAR_HEIGHT + LINE_SPACING > usize::MAX {
            (self, Err(Fault::OutOfBounds))
        } else {
            (self.newline(), Ok(()))
        }
    }

    /// Makes room, then draws the glyph that the font gave, if it gave one.
    pub open spec fn put_glyph(self, glyph: Option<GlyphView>) -> Step {
        let (ready, moved) = self.make_room();
        if moved is Err {
            (ready, moved)
        } else {
            match glyph {
                None => (ready, Err(Fault::GlyphNotFound)),
                Some(g) => ready.render(g),
            }
        }
    }

    /// Writes one character, given what the font holds for it.
    pub open spec fn write_char_with(self, c: char, glyph: Option<GlyphView>) -> Step {
        if c == '\r' {
            (self.carriage_return(), Ok(()))
        } else if c == '\n' {
            self.line_feed()
        } else {
            self.put_glyph(glyph)
        }
    }

    /// Writes one character.
    pub open spec fn write_char(self, c: char) -> Step {
        self.write_char_with(c, font_raster(c))
    }

    /// Writes the characters of `s` in order and stops at the first fault.
    pub open spec fn write_str(self, s: Seq<char>) -> Step
        decreases s.len(),
    {
        if s.len() == 0 {
            (self, Ok(()))
        } else {
            let (next, outcome) = self.write_char(s[0]);
            if outcome is Err {
                (next, outcome)
            } else {
                next.write_str(s.drop_first())
            }
        }
    }
}

/// Drawing part of a row keeps the buffer's length and every byte that
/// belongs to none of the pixels drawn.
pub proof fn lemma_paint_row_elsewhere(
    buffer: Seq<u8>,
    info: Geometry,
    x: int,
    y: int,
    r: int,
    row: Seq<u8>,
    n: nat,
    i: int,
)
    requires
        0 <= i < buffer.len(),
        n <= row.len(),
        forall|c: int| 0 <= c < n ==> !#[trigger] covers(info, x, y, r, c, i),
    ensures
        paint_row(buffer, info, x, y + r, row, n).len() == buffer.len(),
        paint_row(buffer, info, x, y + r, row, n)[i] == buffer[i],
    decreases n,
{
    if n > 0 {
        lemma_paint_row_elsewhere(buffer, info, x, y, r, row, (n - 1) as nat, i);
        assert(!covers(info, x, y, r, n - 1, i));
    }
}

/// Drawing the first rows of a bitmap keeps the buffer's length and every
/// byte that belongs to none of the pixels drawn.
pub proof fn lemma_paint_rows_elsewhere(
    buffer: Seq<u8>,
    info: Geometry,
    x: int,
    y: int,
    rows: Seq<Seq<u8>>,
    m: nat,
    i: int,
)
    requires
        0 <= i < buffer.len(),
        m <= rows.len(),
        forall|r: int, c: int|
            0 <= r < m && 0 <= c < rows[r].len() ==> !#[trigger] covers(info, x, y, r, c, i),
    ensures
        paint_rows(buffer, info, x, y, rows, m).len() == buffer.len(),
        paint_rows(buffer, info, x, y, rows, m)[i] == buffer[i],
    decreases m,
{
    if m > 0 {
        let above = paint_rows(buffer, info, x, y, rows, (m - 1) as nat);
        lemma_paint_rows_elsewhere(buffer, info, x, y, rows, (m - 1) as nat, i);
        lemma_paint_row_elsewhere(above, info, x, y, m - 1, rows[m - 1], rows[m - 1].len(), i);
    }
}

/// A glyph that is drawn moves the cursor right by exactly its width and the
/// letter spacing, keeps the cursor's row, the geometry and the buffer's
/// length, and changes no byte outside the pixels of its bitmap.
pub proof fn lemma_render_stays_in_glyph(s: Console, glyph: GlyphView, i: int)
    requires
        s.render(glyph).1 is Ok,
        0 <= i < s.buffer.len(),
        s.outside_glyph(glyph.rows, i),
    ensures
        s.render(glyph).0.x == s.x + glyph.width + LETTER_SPACING,
        s.render(glyph).0.y == s.y,
        s.render(glyph).0.info == s.info,
        s.render(glyph).0.buffer.len() == s.buffer.len(),
        s.render(glyph).0.buffer[i] == s.buffer[i],
{
    assert forall|r: int, c: int|
        0 <= r < glyph.rows.len() && 0 <= c < glyph.rows[r].len() implies !#[trigger] covers(
        s.info,
        s.x,
        s.y,
        r,
        c,
        i,
    ) by {
        assert(!s.cell_covers(r, c, i));
    }
    lemma_paint_rows_elsewhere(s.buffer, s.info, s.x, s.y, glyph.rows, glyph.rows.len(), i);
}

/// Writing a character other than a carriage return or a line feed, where
/// it succeeds, draws the glyph that the font holds for it at the cursor as
/// it stands once room was made: the cursor moves right by exactly the
/// glyph's width and the letter spacing, and no byte outside the glyph's
/// pixels changes.
pub proof fn lemma_write_char_stays_in_glyph(s: Console, c: char, i: int)
    requires
        c != '\r',
        c != '\n',
        s.write_char(c).1 is Ok,
        0 <= i < s.buffer.len(),
        font_raster(c) is Some ==> s.make_room().0.outside_glyph(font_raster(c)->Some_0.rows, i),
    ensures
        font_raster(c) is Some,
        s.make_room().1 is Ok,
        s.write_char(c).0.x == s.make_room().0.x + font_raster(c)->Some_0.width + LETTER_SPACING,
        s.write_char(c).0.y == s.make_room().0.y,
        s.write_char(c).0.buffer.len() == s.buffer.len(),
        s.write_char(c).0.buffer[i] == s.make_room().0.buffer[i],
{
    lemma_render_stays_in_glyph(s.make_room().0, font_raster(c)->Some_0, i);
}

/// A bitmap that lies within the visible display fits, where the buffer
/// holds every row of the display and a row is no shorter than the display
/// is wide: no pixel of it is then written outside the buffer.
pub proof fn lemma_visible_glyph_fits(s: Console, rows: Seq<Seq<u8>>)
    requires
        s.valid(),
        s.buffer.len() <= usize::MAX,
        s.info.bytes_per_pixel >= 1,
        s.info.width <= s.info.stride,
        s.info.stride * s.info.height * s.info.bytes_per_pixel <= s.buffer.len(),
        s.y + rows.len() <= s.info.height,
        forall|r: int| 0 <= r < rows.len() ==> s.x + (#[trigger] rows[r]).len() <= s.info.width,
    ensures
        s.fits(rows),
{
    let stride = s.info.stride as int;
    let height = s.info.height as int;
    let bpp = s.info.bytes_per_pixel as int;
    assert forall|r: int, c: int| 0 <= r < rows.len() && 0 <= c < rows[r].len() implies #[trigger] s.cell_fits(
        r,
        c,
    ) by {
        let row = s.y + r;
        let index = s.info.pixel_index(s.x + c, row);
        assert(s.x + rows[r].len() <= s.info.width);
        assert(0 <= row * stride <= (height - 1) * stride) by (nonlinear_arith)
            requires
                0 <= row <= height - 1,
                0 <= stride,
        ;
        assert((height - 1) * stride + stride == stride * height) by (nonlinear_arith);
        assert(0 <= index && index + 1 <= stride * height);
        assert((index + 1) * bpp <= stride * height * bpp) by (nonlinear_arith)
            requires
                index + 1 <= stride * height,
                0 <= bpp,
        ;
        assert((index + 1) * bpp == index * bpp + bpp) by (nonlinear_arith);
        assert(index <= index * bpp) by (nonlinear_arith)
            requires
                0 <= index,
                1 <= bpp,
        ;
    }
}

/// Drawing succeeds where it is owed: on a supported format, in a buffer
/// that holds every row of the display, a glyph no larger than the font's
/// cell is drawn without a fault wherever neither a line break nor a clear
/// is due, and the state is then not changed before it is drawn.
pub proof fn lemma_put_glyph_succeeds(s: Console, glyph: GlyphView)
    requires
        s.valid(),
        s.buffer.len() <= usize::MAX,
        supported(s.info.pixel_format),
        s.info.bytes_per_pixel >= 1,
        s.info.width <= s.info.stride,
        s.info.stride * s.info.height * s.info.bytes_per_pixel <= s.buffer.len(),
        !s.at_line_end(),
        !s.at_screen_end(),
        glyph.width <= CHAR_WIDTH,
        glyph.rows.len() <= CHAR_HEIGHT,
        forall|r: int| 0 <= r < glyph.rows.len() ==> (#[trigger] glyph.rows[r]).len() <= CHAR_WIDTH,
    ensures
        s.make_room() == (s, Ok::<(), Fault>(())),
        s.put_glyph(Some(glyph)).1 is Ok,
{
    lemma_visible_glyph_fits(s, glyph.rows);
}

/// Clearing twice gives the state that clearing once gives.
pub proof fn lemma_clear_idempotent(s: Console)
    ensures
        s.clear().clear() == s.clear(),
{
    assert(s.clear().clear().buffer =~= s.clear().buffer);
}

/// After a clear the buffer has its length, every byte of it is zero, and
/// the cursor is at the top left margin, whatever the geometry.
pub proof fn lemma_clear_zeroes(s: Console)
    ensures
        s.clear().buffer.len() == s.buffer.len(),
        forall|i: int| 0 <= i < s.buffer.len() ==> s.clear().buffer[i] == 0,
        s.clear().x == BORDER_PADDING,
        s.clear().y == BORDER_PADDING,
        s.clear().info == s.info,
{
}

/// A line feed puts the cursor at the left margin, whatever its column was,
/// and moves it down by exactly the glyph height and the line spacing; the
/// buffer is not touched. The one exception is a cursor so far down that the
/// new row is no machine word.
pub proof fn lemma_line_feed(s: Console)
    requires
        s.y + CHAR_HEIGHT + LINE_SPACING <= usize::MAX,
    ensures
        s.write_char('\n').1 is Ok,
        s.write_char('\n').0.x == BORDER_PADDING,
        s.write_char('\n').0.y == s.y + CHAR_HEIGHT + LINE_SPACING,
        s.write_char('\n').0.buffer == s.buffer,
        s.write_char('\n').0.info == s.info,
{
}

/// A carriage return puts the cursor at the left margin of its row and
/// touches nothing else.
pub proof fn lemma_carriage_return(s: Console)
    ensures
        s.write_char('\r') == (Console { x: BORDER_PADDING as int, ..s }, Ok::<(), Fault>(())),
{
}

} // verus!
