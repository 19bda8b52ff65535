use kettle_kernel::logger::{FrameBufferInfo, Logger, PixelFormat};

// the basic 8x8 font's glyph for 'A'; bit gx of row gy is pixel (gx, gy)
const GLYPH_A: [u8; 8] = [0x0C, 0x1E, 0x33, 0x33, 0x3F, 0x33, 0x33, 0x00];

fn info(hres: usize, vres: usize, stride: usize, bpp: usize, format: PixelFormat) -> FrameBufferInfo {
    FrameBufferInfo {
        byte_len: stride * bpp * vres,
        horizontal_resolution: hres,
        vertical_resolution: vres,
        pixel_format: format,
        bytes_per_pixel: bpp,
        stride,
    }
}

fn small_u8_logger() -> Logger {
    let i = info(8, 9, 8, 1, PixelFormat::U8);
    Logger::new(vec![0xAA; i.byte_len], i, (1, 0, 0), (0, 0, 0), (9, 9, 9))
}

#[test]
fn new_clears_to_background_pattern() {
    let i = info(8, 9, 8, 3, PixelFormat::Rgb);
    let logger = Logger::new(vec![0x55; i.byte_len], i, (255, 255, 255), (7, 8, 9), (1, 2, 3));
    for (k, byte) in logger.framebuffer.iter().enumerate() {
        let expected = [7u8, 8, 9][k % 3];
        assert_eq!(*byte, expected, "byte {}", k);
    }
}

#[test]
fn write_char_renders_the_font_glyph() {
    let mut logger = small_u8_logger();
    logger.write_char('A');
    assert_eq!(logger.x_pos, 8);
    assert_eq!(logger.y_pos, 0);
    for gy in 0..8usize {
        for gx in 0..8usize {
            let expected = if GLYPH_A[gy] & (1 << gx) != 0 { 1u8 } else { 0u8 };
            assert_eq!(logger.framebuffer[gy * 8 + gx], expected, "pixel ({}, {})", gx, gy);
        }
    }
    // the spacing row below the glyph stays background
    for gx in 0..8usize {
        assert_eq!(logger.framebuffer[8 * 8 + gx], 0);
    }
}

#[test]
fn pixel_formats_order_the_channels() {
    for (format, expected) in [
        (PixelFormat::Rgb, [10u8, 20, 30]),
        (PixelFormat::Bgr, [30u8, 20, 10]),
        (PixelFormat::U8, [10u8, 0, 0]),
        (PixelFormat::Unknown, [0u8, 0, 0]),
    ] {
        let i = info(8, 9, 8, 3, format);
        let mut logger = Logger::new(vec![0; i.byte_len], i, (10, 20, 30), (0, 0, 0), (0, 0, 0));
        // '!' has its lowest glyph rows set around column 3; draw and find a lit pixel
        logger.write_char('!');
        let mut found = false;
        for p in 0..(8 * 8) {
            let px = &logger.framebuffer[p * 3..p * 3 + 3];
            if px != &[0u8, 0, 0][..] {
                assert_eq!(px, &expected[..]);
                found = true;
            }
        }
        assert_eq!(found, format != PixelFormat::Unknown);
    }
}

#[test]
fn carriage_return_and_newline_move_the_cursor() {
    let i = info(8, 27, 8, 1, PixelFormat::U8);
    let mut logger = Logger::new(vec![0; i.byte_len], i, (1, 1, 1), (0, 0, 0), (2, 2, 2));
    logger.write_char('A');
    assert_eq!((logger.x_pos, logger.y_pos), (8, 0));
    logger.write_char('\r');
    assert_eq!((logger.x_pos, logger.y_pos), (0, 0));
    logger.write_char('\n');
    assert_eq!((logger.x_pos, logger.y_pos), (0, 9));
}

#[test]
fn long_line_wraps_to_the_next_line() {
    let i = info(16, 27, 16, 1, PixelFormat::U8);
    let mut logger = Logger::new(vec![0; i.byte_len], i, (1, 1, 1), (0, 0, 0), (2, 2, 2));
    logger.write_str("ABC");
    assert_eq!((logger.x_pos, logger.y_pos), (8, 9));
}

#[test]
fn scrolling_keeps_the_cursor_row() {
    let i = info(8, 9, 8, 1, PixelFormat::U8);
    // one text line fits, so every newline scrolls in place
    let mut logger = Logger::new(vec![0; i.byte_len], i, (1, 0, 0), (0, 0, 0), (2, 2, 2));
    logger.write_char('A');
    let drawn = logger.framebuffer.clone();
    assert!(drawn.iter().any(|b| *b == 1));
    logger.write_char('\n');
    assert_eq!((logger.x_pos, logger.y_pos), (0, 0));
    // the drawn line scrolled out: everything is background again
    assert!(logger.framebuffer.iter().all(|b| *b == 0));
    assert_ne!(drawn, logger.framebuffer);
}

#[test]
fn characters_outside_the_basic_font_advance_without_drawing() {
    let mut logger = small_u8_logger();
    logger.write_char('é');
    assert_eq!(logger.x_pos, 8);
    assert!(logger.framebuffer.iter().all(|b| *b == 0));
}

#[test]
fn color_accessors_and_foreground_switch() {
    let mut logger = small_u8_logger();
    assert_eq!(logger.foreground(), (1, 0, 0));
    assert_eq!(logger.background(), (0, 0, 0));
    assert_eq!(logger.err_color(), (9, 9, 9));
    let saved = logger.foreground();
    logger.set_foreground(logger.err_color());
    assert_eq!(logger.foreground(), (9, 9, 9));
    logger.set_foreground(saved);
    assert_eq!(logger.foreground(), (1, 0, 0));
}

#[test]
fn write_hex_renders_like_the_same_text() {
    let i = info(80, 9, 80, 1, PixelFormat::U8);
    let mut by_hex = Logger::new(vec![0; i.byte_len], i, (1, 0, 0), (0, 0, 0), (2, 2, 2));
    let mut by_text = Logger::new(vec![0; i.byte_len], i, (1, 0, 0), (0, 0, 0), (2, 2, 2));
    by_hex.write_hex(0x2AF);
    by_text.write_str("0x2AF");
    assert_eq!(by_hex.framebuffer, by_text.framebuffer);
    assert_eq!(by_hex.x_pos, 5 * 8);
}

#[test]
fn write_hex_zero_is_a_single_digit() {
    let i = info(80, 9, 80, 1, PixelFormat::U8);
    let mut by_hex = Logger::new(vec![0; i.byte_len], i, (1, 0, 0), (0, 0, 0), (2, 2, 2));
    let mut by_text = Logger::new(vec![0; i.byte_len], i, (1, 0, 0), (0, 0, 0), (2, 2, 2));
    by_hex.write_hex(0);
    by_text.write_str("0x0");
    assert_eq!(by_hex.framebuffer, by_text.framebuffer);
    assert_eq!(by_hex.x_pos, 3 * 8);
}

#[test]
fn write_str_renders_each_character() {
    let i = info(24, 9, 24, 1, PixelFormat::U8);
    let mut logger = Logger::new(vec![0; i.byte_len], i, (1, 0, 0), (0, 0, 0), (2, 2, 2));
    logger.write_str("AA");
    assert_eq!(logger.x_pos, 16);
    for gy in 0..8usize {
        for gx in 0..8usize {
            let expected = if GLYPH_A[gy] & (1 << gx) != 0 { 1u8 } else { 0u8 };
            assert_eq!(logger.framebuffer[gy * 24 + gx], expected);
            assert_eq!(logger.framebuffer[gy * 24 + 8 + gx], expected);
        }
    }
}
