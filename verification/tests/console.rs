use encore::console::{BORDER_PADDING, LETTER_SPACING, LINE_SPACING};
use encore::fault::Fault;
use encore::geometry::{Geometry, PixelFormat};
use encore::glyph::{Glyph, CHAR_HEIGHT, CHAR_WIDTH};
use encore::vga::{FrameBufferWriter, Position};

fn geometry(width: usize, height: usize, stride: usize, bpp: usize, format: PixelFormat) -> Geometry {
    Geometry { width, height, stride, bytes_per_pixel: bpp, pixel_format: format }
}

fn leak(len: usize, fill: u8) -> &'static mut [u8] {
    Box::leak(vec![fill; len].into_boxed_slice())
}

fn block(width: usize, height: usize, first: u8) -> Glyph {
    let mut rows = Vec::new();
    for r in 0..height {
        let mut row = Vec::new();
        for c in 0..width {
            row.push(first.wrapping_add((r * width + c) as u8));
        }
        rows.push(row);
    }
    Glyph { rows: leak_rows(rows), width }
}

fn leak_rows(rows: Vec<Vec<u8>>) -> &'static [&'static [u8]] {
    let rows: Vec<&'static [u8]> =
        rows.into_iter().map(|row| &*Box::leak(row.into_boxed_slice())).collect();
    Box::leak(rows.into_boxed_slice())
}

fn font_rows(c: char) -> Vec<Vec<u8>> {
    let raster = noto_sans_mono_bitmap::get_raster(
        c,
        noto_sans_mono_bitmap::FontWeight::Regular,
        noto_sans_mono_bitmap::RasterHeight::Size16,
    )
    .unwrap();
    raster.raster().iter().map(|row| row.to_vec()).collect()
}

#[test]
fn constants_match_the_font() {
    assert_eq!(
        CHAR_WIDTH,
        noto_sans_mono_bitmap::get_raster_width(
            noto_sans_mono_bitmap::FontWeight::Regular,
            noto_sans_mono_bitmap::RasterHeight::Size16,
        )
    );
    assert_eq!(CHAR_HEIGHT, noto_sans_mono_bitmap::RasterHeight::Size16.val());
    assert_eq!(CHAR_WIDTH, 7);
    assert_eq!(CHAR_HEIGHT, 16);
    assert_eq!(LINE_SPACING, 2);
    assert_eq!(LETTER_SPACING, 0);
    assert_eq!(BORDER_PADDING, 1);
}

#[test]
fn new_clears_the_buffer_and_sets_the_cursor() {
    let info = geometry(40, 40, 48, 4, PixelFormat::Rgb);
    let writer = FrameBufferWriter::new(leak(48 * 40 * 4, 0xAA), info);
    assert_eq!(writer.buffer().len(), 48 * 40 * 4);
    assert!(writer.buffer().iter().all(|b| *b == 0));
    assert_eq!(writer.position(), Position { x: 1, y: 1 });
    assert_eq!(writer.info(), info);
}

#[test]
fn clear_zeroes_any_geometry() {
    for (stride, height, bpp, len) in [(0, 0, 0, 0), (3, 2, 1, 6), (5, 7, 3, 200), (1, 1, 9, 4)] {
        let info = geometry(stride, height, stride, bpp, PixelFormat::U8);
        let mut writer = FrameBufferWriter::new(leak(len, 0x5A), info);
        writer.clear();
        assert_eq!(writer.buffer(), &vec![0u8; len][..]);
        assert_eq!(writer.position(), Position { x: 1, y: 1 });
    }
}

#[test]
fn clear_twice_is_clear_once() {
    let info = geometry(64, 64, 64, 3, PixelFormat::Bgr);
    let mut once = FrameBufferWriter::new(leak(64 * 64 * 3, 1), info);
    let mut twice = FrameBufferWriter::new(leak(64 * 64 * 3, 2), info);
    assert_eq!(once.write_str("ab\nc"), Ok(()));
    assert_eq!(twice.write_str("ab\nc"), Ok(()));
    assert!(once.buffer().iter().any(|b| *b != 0));
    once.clear();
    twice.clear();
    twice.clear();
    assert_eq!(once.buffer(), twice.buffer());
    assert_eq!(once.position(), twice.position());
    assert!(twice.buffer().iter().all(|b| *b == 0));
    assert_eq!(twice.position(), Position { x: 1, y: 1 });
}

#[test]
fn line_feed_moves_down_by_glyph_height_and_spacing() {
    let info = geometry(200, 200, 200, 4, PixelFormat::Rgb);
    let mut writer = FrameBufferWriter::new(leak(200 * 200 * 4, 0), info);
    assert_eq!(writer.write_str("abc"), Ok(()));
    assert_eq!(writer.position(), Position { x: 22, y: 1 });
    let before = writer.buffer().to_vec();
    assert_eq!(writer.write_char('\n'), Ok(()));
    assert_eq!(writer.position(), Position { x: 1, y: 19 });
    assert_eq!(writer.write_char('\n'), Ok(()));
    assert_eq!(writer.position(), Position { x: 1, y: 37 });
    assert_eq!(writer.buffer(), &before[..]);
}

#[test]
fn carriage_return_keeps_the_row() {
    let info = geometry(200, 200, 200, 4, PixelFormat::Rgb);
    let mut writer = FrameBufferWriter::new(leak(200 * 200 * 4, 0), info);
    assert_eq!(writer.write_str("\nxy"), Ok(()));
    assert_eq!(writer.position(), Position { x: 15, y: 19 });
    let before = writer.buffer().to_vec();
    assert_eq!(writer.write_char('\r'), Ok(()));
    assert_eq!(writer.position(), Position { x: 1, y: 19 });
    assert_eq!(writer.buffer(), &before[..]);
}

#[test]
fn write_char_draws_the_font_glyph() {
    let info = geometry(100, 50, 128, 4, PixelFormat::Rgb);
    let mut writer = FrameBufferWriter::new(leak(128 * 50 * 4, 0), info);
    assert_eq!(writer.write_char('A'), Ok(()));
    assert_eq!(writer.position(), Position { x: 1 + CHAR_WIDTH + LETTER_SPACING, y: 1 });
    let rows = font_rows('A');
    assert_eq!(rows.len(), 16);
    assert!(rows.iter().flatten().any(|b| *b != 0));
    let mut expected = vec![0u8; 128 * 50 * 4];
    for (r, row) in rows.iter().enumerate() {
        for (c, b) in row.iter().enumerate() {
            let offset = ((1 + r) * 128 + 1 + c) * 4;
            expected[offset] = *b;
            expected[offset + 1] = *b;
            expected[offset + 2] = *b;
            expected[offset + 3] = 0;
        }
    }
    assert_eq!(writer.buffer(), &expected[..]);
}

#[test]
fn different_characters_draw_different_glyphs() {
    let info = geometry(100, 50, 100, 1, PixelFormat::Rgb);
    let mut a = FrameBufferWriter::new(leak(100 * 50, 0), info);
    let mut b = FrameBufferWriter::new(leak(100 * 50, 0), info);
    assert_eq!(a.write_char('A'), Ok(()));
    assert_eq!(b.write_char('B'), Ok(()));
    assert_ne!(a.buffer(), b.buffer());
}

#[test]
fn render_char_touches_only_the_glyph_rectangle() {
    let info = geometry(30, 30, 32, 3, PixelFormat::Bgr);
    let mut writer = FrameBufferWriter::new(leak(32 * 30 * 3, 0), info);
    let glyph = block(3, 2, 10);
    assert_eq!(writer.render_char(&glyph), Ok(()));
    assert_eq!(writer.position(), Position { x: 4, y: 1 });
    let mut expected = vec![0u8; 32 * 30 * 3];
    for r in 0..2 {
        for c in 0..3 {
            let offset = ((1 + r) * 32 + 1 + c) * 3;
            let v = 10 + (r * 3 + c) as u8;
            expected[offset] = v;
            expected[offset + 1] = v;
            expected[offset + 2] = v;
        }
    }
    assert_eq!(writer.buffer(), &expected[..]);
    assert_eq!(expected[(32 + 1) * 3], 10);
    assert_eq!(expected[(2 * 32 + 3) * 3 + 2], 15);
}

#[test]
fn render_char_with_padding_bytes() {
    let info = geometry(30, 30, 30, 5, PixelFormat::Rgb);
    let mut writer = FrameBufferWriter::new(leak(30 * 30 * 5, 7), info);
    let glyph = Glyph { rows: leak_rows(vec![vec![200]]), width: 1 };
    assert_eq!(writer.render_char(&glyph), Ok(()));
    let offset = (30 + 1) * 5;
    assert_eq!(&writer.buffer()[offset..offset + 5], &[200, 200, 200, 0, 0]);
    assert_eq!(writer.buffer().iter().filter(|b| **b != 0).count(), 3);
}

#[test]
fn indexed_format_draws_black() {
    let info = geometry(100, 50, 100, 1, PixelFormat::U8);
    let mut writer = FrameBufferWriter::new(leak(100 * 50, 0xFF), info);
    assert_eq!(writer.write_str("Hello"), Ok(()));
    assert!(writer.buffer().iter().all(|b| *b == 0));
    assert_eq!(writer.position(), Position { x: 1 + 5 * 7, y: 1 });
}

#[test]
fn third_glyph_wraps_on_a_narrow_display() {
    let info = geometry(20, 64, 32, 4, PixelFormat::Rgb);
    let mut writer = FrameBufferWriter::new(leak(32 * 64 * 4, 0), info);
    assert_eq!(writer.write_glyph(Some(block(8, 16, 1))), Ok(()));
    assert_eq!(writer.position(), Position { x: 9, y: 1 });
    assert_eq!(writer.write_glyph(Some(block(8, 16, 1))), Ok(()));
    assert_eq!(writer.position(), Position { x: 17, y: 1 });
    assert_eq!(writer.write_glyph(Some(block(8, 16, 1))), Ok(()));
    assert_eq!(writer.position(), Position { x: 9, y: 19 });
    // The third glyph starts at the left margin of the second line.
    assert_eq!(writer.buffer()[(19 * 32 + 1) * 4], 1);
}

#[test]
fn third_character_wraps_on_a_narrow_display() {
    let info = geometry(20, 64, 32, 4, PixelFormat::Rgb);
    let mut writer = FrameBufferWriter::new(leak(32 * 64 * 4, 0), info);
    assert_eq!(writer.write_char('a'), Ok(()));
    assert_eq!(writer.position(), Position { x: 8, y: 1 });
    assert_eq!(writer.write_char('b'), Ok(()));
    assert_eq!(writer.position(), Position { x: 15, y: 1 });
    assert_eq!(writer.write_char('c'), Ok(()));
    assert_eq!(writer.position(), Position { x: 8, y: 19 });
}

#[test]
fn full_screen_is_cleared_before_the_next_glyph() {
    let info = geometry(64, 16, 64, 1, PixelFormat::Rgb);
    let mut writer = FrameBufferWriter::new(leak(64 * 64, 0), info);
    assert_eq!(writer.write_char('A'), Ok(()));
    assert!(writer.buffer().iter().any(|b| *b != 0));
    assert_eq!(writer.write_char('\n'), Ok(()));
    assert_eq!(writer.position(), Position { x: 1, y: 19 });
    assert_eq!(writer.write_char('\n'), Ok(()));
    assert_eq!(writer.position(), Position { x: 1, y: 37 });
    assert_eq!(writer.write_char('B'), Ok(()));
    assert_eq!(writer.position(), Position { x: 8, y: 1 });

    let mut fresh = FrameBufferWriter::new(leak(64 * 64, 0), geometry(64, 64, 64, 1, PixelFormat::Rgb));
    assert_eq!(fresh.write_char('B'), Ok(()));
    assert_eq!(writer.buffer(), fresh.buffer());
}

#[test]
fn screen_end_is_judged_before_the_line_break() {
    // The cursor stands at the end of a line whose glyphs still fit above the
    // bottom edge: the line breaks and nothing is cleared.
    let info = geometry(16, 36, 32, 1, PixelFormat::Rgb);
    let mut writer = FrameBufferWriter::new(leak(32 * 64, 0), info);
    assert_eq!(writer.write_str("ab"), Ok(()));
    assert_eq!(writer.position(), Position { x: 15, y: 1 });
    let before = writer.buffer().to_vec();
    assert_eq!(writer.write_char('c'), Ok(()));
    assert_eq!(writer.position(), Position { x: 8, y: 19 });
    for r in 0..17 {
        assert_eq!(&writer.buffer()[r * 32..(r + 1) * 32], &before[r * 32..(r + 1) * 32]);
    }
}

#[test]
fn unknown_character_is_a_fault() {
    let info = geometry(100, 50, 100, 4, PixelFormat::Rgb);
    let mut writer = FrameBufferWriter::new(leak(100 * 50 * 4, 0), info);
    assert_eq!(writer.write_char('\u{4e2d}'), Err(Fault::GlyphNotFound));
    assert!(writer.buffer().iter().all(|b| *b == 0));
    assert_eq!(writer.position(), Position { x: 1, y: 1 });
    assert_eq!(writer.write_glyph(None), Err(Fault::GlyphNotFound));
}

#[test]
fn unknown_pixel_format_is_a_fault() {
    let info = geometry(100, 50, 100, 4, PixelFormat::Unknown);
    let mut writer = FrameBufferWriter::new(leak(100 * 50 * 4, 0), info);
    assert_eq!(writer.write_char('A'), Err(Fault::UnsupportedPixelFormat));
    assert!(writer.buffer().iter().all(|b| *b == 0));
    assert_eq!(writer.position(), Position { x: 1, y: 1 });
    assert_eq!(writer.write_char('\n'), Ok(()));
    assert_eq!(writer.write_char('\r'), Ok(()));
}

#[test]
fn glyph_outside_the_buffer_is_a_fault() {
    let info = geometry(100, 50, 100, 4, PixelFormat::Rgb);
    let mut writer = FrameBufferWriter::new(leak(100 * 16 * 4, 0), info);
    // Rows 1 to 16 are needed, the buffer ends after row 15.
    assert_eq!(writer.write_char('A'), Err(Fault::OutOfBounds));
    assert!(writer.buffer().iter().all(|b| *b == 0));
    assert_eq!(writer.position(), Position { x: 1, y: 1 });
    let small = Glyph { rows: leak_rows(vec![vec![9, 9]]), width: 2 };
    assert_eq!(writer.render_char(&small), Ok(()));
    assert_eq!(writer.position(), Position { x: 3, y: 1 });
}

#[test]
fn glyph_that_ends_with_the_buffer_fits() {
    let info = geometry(10, 10, 10, 2, PixelFormat::Rgb);
    let mut exact = FrameBufferWriter::new(leak((2 * 10 + 4) * 2, 0), info);
    let glyph = block(3, 2, 1);
    assert_eq!(exact.render_char(&glyph), Ok(()));
    assert_eq!(&exact.buffer()[(2 * 10 + 3) * 2..], &[6, 6]);
    let mut short = FrameBufferWriter::new(leak((2 * 10 + 4) * 2 - 1, 0), info);
    assert_eq!(short.render_char(&glyph), Err(Fault::OutOfBounds));
    assert!(short.buffer().iter().all(|b| *b == 0));
}

#[test]
fn cursor_beyond_the_machine_word_is_a_fault() {
    let info = geometry(10, 10, 10, 0, PixelFormat::Rgb);
    let mut writer = FrameBufferWriter::new(leak(4, 0), info);
    let wide = Glyph { rows: leak_rows(Vec::new()), width: usize::MAX };
    assert_eq!(writer.render_char(&wide), Err(Fault::OutOfBounds));
    assert_eq!(writer.position(), Position { x: 1, y: 1 });
    let fitting = Glyph { rows: leak_rows(Vec::new()), width: usize::MAX - 1 };
    assert_eq!(writer.render_char(&fitting), Ok(()));
    assert_eq!(writer.position(), Position { x: usize::MAX, y: 1 });
}

#[test]
fn write_str_stops_at_the_first_fault() {
    let info = geometry(100, 50, 100, 1, PixelFormat::Rgb);
    let mut writer = FrameBufferWriter::new(leak(100 * 50, 0), info);
    assert_eq!(writer.write_str("ab\u{4e2d}cd"), Err(Fault::GlyphNotFound));
    assert_eq!(writer.position(), Position { x: 15, y: 1 });
    let mut other = FrameBufferWriter::new(leak(100 * 50, 0), info);
    assert_eq!(other.write_str("ab"), Ok(()));
    assert_eq!(writer.buffer(), other.buffer());
}

#[test]
fn write_str_is_write_char_in_order() {
    let info = geometry(60, 80, 64, 3, PixelFormat::Rgb);
    let mut whole = FrameBufferWriter::new(leak(64 * 80 * 3, 0), info);
    let mut single = FrameBufferWriter::new(leak(64 * 80 * 3, 0), info);
    let text = "Hi, all!\r\nNext line wraps around.";
    assert_eq!(whole.write_str(text), Ok(()));
    for c in text.chars() {
        assert_eq!(single.write_char(c), Ok(()));
    }
    assert_eq!(whole.buffer(), single.buffer());
    assert_eq!(whole.position(), single.position());
    assert_eq!(whole.write_str(""), Ok(()));
    assert_eq!(whole.position(), single.position());
}

#[test]
fn glyph_that_ends_above_the_bottom_edge_needs_no_clear() {
    // With 18 rows the glyph at row 1 ends at row 16, above the edge.
    let info = geometry(64, 18, 64, 1, PixelFormat::Rgb);
    let mut writer = FrameBufferWriter::new(leak(64 * 18, 0), info);
    assert_eq!(writer.write_char('A'), Ok(()));
    assert!(writer.buffer().iter().any(|b| *b != 0));
    let first = writer.buffer()[..].to_vec();
    assert_eq!(writer.write_char('B'), Ok(()));
    assert_eq!(writer.position(), Position { x: 15, y: 1 });
    // What the first glyph drew is still there.
    for r in 0..18 {
        assert_eq!(&writer.buffer()[r * 64..r * 64 + 8], &first[r * 64..r * 64 + 8]);
    }
}

#[test]
fn glyph_that_ends_at_the_bottom_edge_clears_first() {
    // With 17 rows the glyph at row 1 would end at row 17, the edge itself.
    let info = geometry(64, 17, 64, 1, PixelFormat::Rgb);
    let mut writer = FrameBufferWriter::new(leak(64 * 17, 0), info);
    assert_eq!(writer.write_char('A'), Ok(()));
    assert_eq!(writer.position(), Position { x: 8, y: 1 });
    assert_eq!(writer.write_char('B'), Ok(()));
    assert_eq!(writer.position(), Position { x: 8, y: 1 });
    let mut fresh = FrameBufferWriter::new(leak(64 * 17, 0), info);
    assert_eq!(fresh.write_char('B'), Ok(()));
    assert_eq!(writer.buffer(), fresh.buffer());
}
