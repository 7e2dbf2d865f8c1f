//! The console writer: it owns the framebuffer and draws text into it.
use vstd::prelude::*;
use crate::console::{
    paint_row,
    paint_rows,
    put_pixel,
    Console,
    BORDER_PADDING,
    LETTER_SPACING,
    LINE_SPACING,
};
use crate::fault::Fault;
use crate::geometry::Geometry;
use crate::glyph::{font_raster, rasterize, Glyph, CHAR_HEIGHT, CHAR_WIDTH};
use crate::pixel::{channel, channel_byte, is_supported, supported};

verus! {

/// A pixel of the display: column `x` of row `y`.
#[derive(Clone, Copy, Debug, PartialEq, Eq, Structural)]
pub struct Position {
    pub x: usize,
    pub y: usize,
}

/// A text console on a framebuffer that it owns for the rest of the run.
pub struct FrameBufferWriter {
    framebuffer: &'static mut [u8],
    info: Geometry,
    position: Position,
}

impl View for FrameBufferWriter {
    type V = Console;

    closed spec fn view(&self) -> Console {
        Console {
            buffer: self.framebuffer@,
            info: self.info,
            x: self.position.x as int,
            y: self.position.y as int,
        }
    }
}

/// Reads a byte back through `std::hint::black_box`, which returns its
/// argument and asks the compiler not to reason about where it came from, so
/// that the stores before the read are not dropped as dead. The contract
/// claims only that the byte read is the byte that the buffer holds.
#[verifier::external_body]
fn read_back(byte: u8) -> (b: u8)
    ensures
        b == byte,
{
    std::hint::black_box(byte)
}

/// Within a row, a pixel to the left of one that fits also fits.
proof fn lemma_fits_leftwards(info: Geometry, len: int, x: int, y: int, c: int, last: int)
    requires
        0 <= x,
        0 <= y,
        0 <= c <= last,
        info.pixel_fits(len, x + last, y),
    ensures
        info.pixel_fits(len, x + c, y),
{
    let bpp = info.bytes_per_pixel as int;
    let near = info.pixel_index(x + c, y);
    let far = info.pixel_index(x + last, y);
    assert(0 <= y * info.stride) by (nonlinear_arith)
        requires
            0 <= y,
            0 <= info.stride,
    ;
    assert(0 <= near <= far);
    assert(near * bpp <= far * bpp) by (nonlinear_arith)
        requires
            0 <= near <= far,
            0 <= bpp,
    ;
    assert(0 <= near * bpp) by (nonlinear_arith)
        requires
            0 <= near,
            0 <= bpp,
    ;
}

impl FrameBufferWriter {
    /// Takes the buffer over, clears it, and puts the cursor at the top left
    /// margin.
    pub fn new(framebuffer: &'static mut [u8], info: Geometry) -> (writer: Self)
        ensures
            writer@ == (Console { buffer: old(framebuffer)@, info, x: 0, y: 0 }).clear(),
    {
        let mut writer = Self { framebuffer, info, position: Position { x: 0, y: 0 } };
        writer.clear();
        writer
    }

    /// The cursor of a writer always lies within the machine word.
    pub proof fn lemma_valid(&self)
        ensures
            self@.valid(),
    {
    }

    fn newline(&mut self) -> (outcome: Result<(), Fault>)
        ensures
            (final(self)@, outcome) == old(self)@.line_feed(),
    {
        match self.position.y.checked_add(CHAR_HEIGHT + LINE_SPACING) {
            Some(y) => {
                self.position.y = y;
                self.carriage_return();
                Ok(())
            },
            None => Err(Fault::OutOfBounds),
        }
    }

    fn carriage_return(&mut self)
        ensures
            final(self)@ == old(self)@.carriage_return(),
    {
        self.position.x = BORDER_PADDING;
    }

    /// Erases the screen: every byte of the buffer becomes zero and the
    /// cursor returns to the top left margin.
    pub fn clear(&mut self)
        ensures
            final(self)@ == old(self)@.clear(),
            forall|i: int| 0 <= i < final(self)@.buffer.len() ==> final(self)@.buffer[i] == 0,
    {
        self.position.x = BORDER_PADDING;
        self.position.y = BORDER_PADDING;
        let len = self.framebuffer.len();
        let mut i: usize = 0;
        while i < len
            invariant
                i <= len,
                self.framebuffer@.len() == len,
                self.info == old(self).info,
                self.position == (Position { x: BORDER_PADDING, y: BORDER_PADDING }),
                forall|j: int| 0 <= j < i ==> self.framebuffer@[j] == 0,
            decreases len - i,
        {
            self.framebuffer[i] = 0;
            i += 1;
        }
        assert(self@.buffer =~= old(self)@.clear().buffer);
    }

    /// The geometry that the writer was made with.
    pub fn info(&self) -> (info: Geometry)
        ensures
            info == self@.info,
    {
        self.info
    }

    /// The pixel at which the next glyph will be drawn.
    pub fn position(&self) -> (position: Position)
        ensures
            position.x == self@.x,
            position.y == self@.y,
    {
        self.position
    }

    /// The bytes of the framebuffer as they stand.
    pub fn buffer(&self) -> (bytes: &[u8])
        ensures
            bytes@ == self@.buffer,
    {
        self.framebuffer
    }

    fn width(&self) -> (w: usize)
        ensures
            w == self@.info.width,
    {
        self.info.width
    }

    fn height(&self) -> (h: usize)
        ensures
            h == self@.info.height,
    {
        self.info.height
    }

    fn load_character_raster(&self, c: char) -> (glyph: Option<Glyph>)
        ensures
            glyph is None <==> font_raster(c) is None,
            glyph matches Some(g) ==> font_raster(c) == Some(g@) && g.width
                == CHAR_WIDTH,
    {
        rasterize(c)
    }

    /// Writes one character at the cursor. A carriage return and a line feed
    /// only move the cursor. Any other character is looked up in the font and
    /// drawn, after a line break where the line is full and a full clear
    /// where the screen is full.
    pub fn write_char(&mut self, c: char) -> (outcome: Result<(), Fault>)
        ensures
            (final(self)@, outcome) == old(self)@.write_char(c),
            c != '\r' && c != '\n' && outcome is Ok ==> final(self)@.x
                == old(self)@.make_room().0.x + CHAR_WIDTH + LETTER_SPACING,
    {
        if c == '\r' {
            self.carriage_return();
            Ok(())
        } else if c == '\n' {
            self.newline()
        } else {
            let glyph = self.load_character_raster(c);
            self.write_glyph(glyph)
        }
    }

    /// Makes room at the cursor and draws what the font gave for a character:
    /// the part of [`FrameBufferWriter::write_char`] that follows the lookup.
    pub fn write_glyph(&mut self, glyph: Option<Glyph>) -> (outcome: Result<(), Fault>)
        ensures
            (final(self)@, outcome) == old(self)@.put_glyph(
                match glyph {
                    Some(g) => Some(g@),
                    None => None,
                },
            ),
    {
        let line_full = match self.position.x.checked_add(CHAR_WIDTH) {
            Some(x) => x >= self.width(),
            None => true,
        };
        let screen_full = match self.position.y.checked_add(CHAR_HEIGHT) {
            Some(y) => y >= self.height(),
            None => true,
        };
        if screen_full {
            self.clear();
        } else if line_full {
            let moved = self.newline();
            if moved.is_err() {
                return moved;
            }
        }
        match glyph {
            Some(g) => self.render_char(&g),
            None => Err(Fault::GlyphNotFound),
        }
    }

    /// Tells whether every pixel of the glyph, drawn at the cursor, lies
    /// inside the buffer.
    fn fits(&self, glyph: &Glyph) -> (r: bool)
        ensures
            r == self@.fits(glyph@.rows),
    {
        let len = self.framebuffer.len();
        let mut row: usize = 0;
        while row < glyph.rows.len()
            invariant
                row <= glyph.rows.len(),
                len == self.framebuffer@.len(),
                forall|r: int, c: int|
                    0 <= r < row && 0 <= c < glyph@.rows[r].len() ==> #[trigger] self@.cell_fits(
                        r,
                        c,
                    ),
            decreases glyph.rows.len() - row,
        {
            let n = glyph.rows[row].len();
            assert(glyph@.rows[row as int] == glyph.rows@[row as int]@);
            if n > 0 {
                let last_fits = match self.info.pixel_end(
                    self.position.x,
                    n - 1,
                    self.position.y,
                    row,
                ) {
                    Some(end) => end <= len,
                    None => false,
                };
                assert(last_fits == self@.cell_fits(row as int, n - 1));
                if !last_fits {
                    return false;
                }
                assert forall|c: int| 0 <= c < n implies #[trigger] self@.cell_fits(
                    row as int,
                    c,
                ) by {
                    lemma_fits_leftwards(
                        self.info,
                        len as int,
                        self.position.x as int,
                        self.position.y + row,
                        c,
                        n - 1,
                    );
                }
            }
            row += 1;
        }
        true
    }

    /// Draws a glyph with its top left pixel at the cursor, row by row and
    /// pixel by pixel, and moves the cursor past it.
    pub fn render_char(&mut self, glyph: &Glyph) -> (outcome: Result<(), Fault>)
        ensures
            (final(self)@, outcome) == old(self)@.render(glyph@),
    {
        if !is_supported(self.info.pixel_format) {
            return Err(Fault::UnsupportedPixelFormat);
        }
        if !self.fits(glyph) {
            return Err(Fault::OutOfBounds);
        }
        let next_x = match self.position.x.checked_add(glyph.width) {
            Some(x) => match x.checked_add(LETTER_SPACING) {
                Some(x) => x,
                None => { return Err(Fault::OutOfBounds); },
            },
            None => { return Err(Fault::OutOfBounds); },
        };
        let ghost start = self@;
        let ghost rows = glyph@.rows;
        let mut y: usize = 0;
        while y < glyph.rows.len()
            invariant
                y <= glyph.rows.len(),
                rows == glyph@.rows,
                start == old(self)@,
                start.fits(rows),
                supported(start.info.pixel_format),
                self@.buffer.len() == start.buffer.len(),
                self@ == (Console {
                    buffer: paint_rows(start.buffer, start.info, start.x, start.y, rows, y as nat),
                    ..start
                }),
            decreases glyph.rows.len() - y,
        {
            let ghost before = self@.buffer;
            let mut x: usize = 0;
            assert(rows[y as int] == glyph.rows@[y as int]@);
            while x < glyph.rows[y].len()
                invariant
                    y < glyph.rows.len(),
                    x <= glyph.rows[y as int].len(),
                    rows == glyph@.rows,
                    rows[y as int] == glyph.rows@[y as int]@,
                    start.fits(rows),
                    supported(start.info.pixel_format),
                    self@.buffer.len() == start.buffer.len(),
                    self@ == (Console {
                        buffer: paint_row(
                            before,
                            start.info,
                            start.x,
                            start.y + y,
                            rows[y as int],
                            x as nat,
                        ),
                        ..start
                    }),
                decreases glyph.rows[y as int].len() - x,
            {
                assert(start.cell_fits(y as int, x as int));
                self.render_pixel(
                    Position { x: x + self.position.x, y: y + self.position.y },
                    glyph.rows[y][x],
                );
                x += 1;
            }
            y += 1;
        }
        self.position.x = next_x;
        Ok(())
    }

    /// Sets one pixel to a shade of gray and reads its first byte back, so
    /// that the stores cannot be dropped.
    fn render_pixel(&mut self, local_position: Position, intensity: u8)
        requires
            supported(old(self)@.info.pixel_format),
            old(self)@.info.pixel_fits(
                old(self)@.buffer.len() as int,
                local_position.x as int,
                local_position.y as int,
            ),
        ensures
            final(self)@ == (Console {
                buffer: put_pixel(
                    old(self)@.buffer,
                    old(self)@.info,
                    local_position.x as int,
                    local_position.y as int,
                    intensity,
                ),
                ..old(self)@
            }),
    {
        assert(0 <= local_position.y * self.info.stride) by (nonlinear_arith);
        let pixel_offset = local_position.y * self.info.stride + local_position.x;
        let bytes_per_pixel = self.info.bytes_per_pixel;
        let byte_offset = pixel_offset * bytes_per_pixel;
        let format = self.info.pixel_format;
        let mut k: usize = 0;
        while k < bytes_per_pixel
            invariant
                k <= bytes_per_pixel,
                byte_offset + bytes_per_pixel <= self.framebuffer@.len(),
                byte_offset + bytes_per_pixel <= usize::MAX,
                self.info == old(self).info,
                self.position == old(self).position,
                format == self.info.pixel_format,
                self.framebuffer@.len() == old(self).framebuffer@.len(),
                forall|i: int|
                    0 <= i < self.framebuffer@.len() ==> self.framebuffer@[i] == if byte_offset
                        <= i < byte_offset + k {
                        channel(format, intensity, i - byte_offset)
                    } else {
                        old(self).framebuffer@[i]
                    },
            decreases bytes_per_pixel - k,
        {
            self.framebuffer[byte_offset + k] = channel_byte(format, intensity, k);
            k += 1;
        }
        if bytes_per_pixel > 0 {
            let _ = read_back(self.framebuffer[byte_offset]);
        }
        assert(self@.buffer =~= put_pixel(
            old(self)@.buffer,
            old(self)@.info,
            local_position.x as int,
            local_position.y as int,
            intensity,
        ));
    }

    /// Writes the characters of `s` in order, and stops at the first that
    /// cannot be written.
    pub fn write_str(&mut self, s: &str) -> (outcome: Result<(), Fault>)
        ensures
            (final(self)@, outcome) == old(self)@.write_str(s@),
    {
        let n = s.unicode_len();
        let mut i: usize = 0;
        assert(s@.subrange(0, n as int) =~= s@);
        while i < n
            invariant
                i <= n,
                n == s@.len(),
                self@.write_str(s@.subrange(i as int, n as int)) == old(self)@.write_str(s@),
            decreases n - i,
        {
            let ghost rest = s@.subrange(i as int, n as int);
            assert(rest.drop_first() == s@.subrange(i + 1, n as int));
            let c = s.get_char(i);
            let written = self.write_char(c);
            if written.is_err() {
                return written;
            }
            i += 1;
        }
        assert(s@.subrange(n as int, n as int).len() == 0);
        Ok(())
    }
}

} // verus!
