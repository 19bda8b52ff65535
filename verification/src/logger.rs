//! The framebuffer text console used as the diagnostic sink.
//!
//! The console owns a byte buffer laid out as the bootloader hands it over:
//! `stride` pixels per row, a fixed number of bytes per pixel, and a pixel
//! format deciding the byte order of a color. Characters are rendered from an
//! 8x8 bitmap font; the glyph lookup is the one outside call, and everything
//! drawn from it — pixel placement, line wrap, scrolling — is verified down
//! to the bytes of the buffer.

use vstd::arithmetic::div_mod::{lemma_fundamental_div_mod, lemma_fundamental_div_mod_converse};
use vstd::prelude::*;
use vstd::std_specs::iter::IteratorSpec;

use font8x8::unicode::UnicodeFonts;

verus! {

/// Width and height of each character cell in pixels.
pub const CHAR_SIZE: usize = 8;
/// Blank pixel rows between text lines.
pub const LINE_SPACE: usize = 1;
/// Height of one text line: the character cell plus the gap below it.
pub const LINE_HEIGHT: usize = CHAR_SIZE + LINE_SPACE;

/// Byte order of a pixel's color channels.
#[derive(Clone, Copy, PartialEq, Eq, Structural, Debug)]
pub enum PixelFormat {
    Rgb,
    Bgr,
    U8,
    Unknown,
}

/// Shape of the framebuffer as the bootloader reports it: resolutions in
/// pixels, `stride` pixels from one row to the next, and the total byte
/// length.
#[derive(Clone, Copy, PartialEq, Eq, Structural, Debug)]
pub struct FrameBufferInfo {
    pub byte_len: usize,
    pub horizontal_resolution: usize,
    pub vertical_resolution: usize,
    pub pixel_format: PixelFormat,
    pub bytes_per_pixel: usize,
    pub stride: usize,
}

impl FrameBufferInfo {
    /// A framebuffer the console can render into: at least one character cell
    /// of room, rows no wider than the stride, and a byte length that is
    /// exactly the pixel grid.
    pub open spec fn wf(self) -> bool {
        &&& 1 <= self.bytes_per_pixel <= 4
        &&& CHAR_SIZE <= self.horizontal_resolution <= self.stride
        &&& LINE_HEIGHT <= self.vertical_resolution
        &&& self.byte_len == self.stride * self.bytes_per_pixel * self.vertical_resolution
    }
}

/// The channel of a repeating 3-byte color pattern at offset `k`.
pub open spec fn rgb_byte(rgb: (u8, u8, u8), k: int) -> u8 {
    if k == 0 {
        rgb.0
    } else if k == 1 {
        rgb.1
    } else {
        rgb.2
    }
}

/// `fb` with the bytes `start..start + count` overwritten by the repeating
/// 3-byte pattern of `rgb`, the pattern phase starting at `start`.
pub open spec fn fill_bytes(fb: Seq<u8>, start: int, count: int, rgb: (u8, u8, u8)) -> Seq<u8> {
    Seq::new(
        fb.len(),
        |i: int|
            if start <= i < start + count {
                rgb_byte(rgb, (i - start) % 3)
            } else {
                fb[i]
            },
    )
}

/// The four candidate bytes of one pixel in a given format; only the first
/// `bytes_per_pixel` of them reach the buffer.
pub open spec fn pixel_color_bytes(format: PixelFormat, rgb: (u8, u8, u8)) -> Seq<u8> {
    match format {
        PixelFormat::Rgb => seq![rgb.0, rgb.1, rgb.2, 0u8],
        PixelFormat::Bgr => seq![rgb.2, rgb.1, rgb.0, 0u8],
        PixelFormat::U8 => seq![rgb.0, 0u8, 0u8, 0u8],
        PixelFormat::Unknown => seq![0u8, 0u8, 0u8, 0u8],
    }
}

/// First byte of pixel `(x, y)` in the buffer.
pub open spec fn pixel_offset(info: FrameBufferInfo, x: int, y: int) -> int {
    (y * info.stride + x) * info.bytes_per_pixel
}

/// `fb` with pixel `(x, y)` set to `rgb`.
pub open spec fn pixel_written(
    info: FrameBufferInfo,
    fb: Seq<u8>,
    x: int,
    y: int,
    rgb: (u8, u8, u8),
) -> Seq<u8> {
    Seq::new(
        fb.len(),
        |i: int|
            if pixel_offset(info, x, y) <= i < pixel_offset(info, x, y) + info.bytes_per_pixel {
                pixel_color_bytes(info.pixel_format, rgb)[i - pixel_offset(info, x, y)]
            } else {
                fb[i]
            },
    )
}

/// Whether the glyph bitmap has the pixel at column `gx` of row `gy` set.
pub open spec fn glyph_bit_set(g: Seq<u8>, gx: int, gy: int) -> bool {
    g[gy] & (1u8 << (gx as u8)) != 0
}

/// Byte `i` of the buffer after drawing the 8x8 glyph `g` with its top-left
/// pixel at `(sx, sy)` in color `fg`: a byte belongs to a set glyph pixel or
/// keeps its old value. Only the glyph rows and columns strictly below the
/// limits `(up to row lim_gy, and on that row up to column lim_gx)` are
/// drawn, which lets the drawing loop state how far it has come.
pub open spec fn painted_byte_upto(
    info: FrameBufferInfo,
    fb: Seq<u8>,
    g: Seq<u8>,
    sx: int,
    sy: int,
    fg: (u8, u8, u8),
    lim_gy: int,
    lim_gx: int,
    i: int,
) -> u8 {
    let p = i / (info.bytes_per_pixel as int);
    let k = i % (info.bytes_per_pixel as int);
    let qy = p / (info.stride as int);
    let qx = p % (info.stride as int);
    let gy = qy - sy;
    let gx = qx - sx;
    if 0 <= gx < CHAR_SIZE && 0 <= gy < CHAR_SIZE && (gy < lim_gy || (gy == lim_gy && gx < lim_gx))
        && glyph_bit_set(g, gx, gy) {
        pixel_color_bytes(info.pixel_format, fg)[k]
    } else {
        fb[i]
    }
}

/// The buffer after drawing the glyph rows and columns strictly below the
/// limits.
pub open spec fn painted_fb_upto(
    info: FrameBufferInfo,
    fb: Seq<u8>,
    g: Seq<u8>,
    sx: int,
    sy: int,
    fg: (u8, u8, u8),
    lim_gy: int,
    lim_gx: int,
) -> Seq<u8> {
    Seq::new(fb.len(), |i: int| painted_byte_upto(info, fb, g, sx, sy, fg, lim_gy, lim_gx, i))
}

/// The buffer after drawing the whole 8x8 glyph.
pub open spec fn painted_fb(
    info: FrameBufferInfo,
    fb: Seq<u8>,
    g: Seq<u8>,
    sx: int,
    sy: int,
    fg: (u8, u8, u8),
) -> Seq<u8> {
    painted_fb_upto(info, fb, g, sx, sy, fg, CHAR_SIZE as int, 0)
}

/// The glyph bitmap the basic 8x8 font assigns to a character. Defined
/// (`Some`) exactly for the 128 basic characters; what the bitmap holds is
/// pinned only by the font itself.
pub uninterp spec fn basic_glyph_spec(c: char) -> Option<Seq<u8>>;

/// Relies on font8x8's `BasicFonts::get` (the `UnicodeFonts` impl): a pure
/// lookup in the crate's 128-entry basic font table, `Some` exactly for
/// characters below `0x80`, and a function of the character alone.
#[verifier::external_body]
fn basic_glyph(c: char) -> (r: Option<[u8; 8]>)
    ensures
        r is Some <==> c as u32 <= 0x7F,
        r matches Some(g) ==> basic_glyph_spec(c) == Some(g@),
        r is None ==> basic_glyph_spec(c) is None,
{
    font8x8::unicode::BasicFonts::new().get(c)
}

/// The ghost image of the console: buffer bytes, geometry, cursor and colors.
pub struct LoggerView {
    pub framebuffer: Seq<u8>,
    pub info: FrameBufferInfo,
    pub x_pos: nat,
    pub y_pos: nat,
    pub foreground: (u8, u8, u8),
    pub background: (u8, u8, u8),
    pub err_color: (u8, u8, u8),
}

impl LoggerView {
    /// A console that can always render one more character row: the buffer
    /// matches the reported geometry and the cursor stays inside it.
    pub open spec fn wf(self) -> bool {
        &&& self.info.wf()
        &&& self.framebuffer.len() == self.info.byte_len
        &&& self.x_pos <= self.info.horizontal_resolution
        &&& self.y_pos + CHAR_SIZE <= self.info.vertical_resolution
    }
}

/// Bytes shifted up by one text line after the topmost line was cleared to
/// the background pattern: what one scroll step does to the buffer.
pub open spec fn scrolled_fb(v: LoggerView) -> Seq<u8> {
    let shift = v.info.stride * v.info.bytes_per_pixel * LINE_HEIGHT;
    let cleared = fill_bytes(v.framebuffer, 0, shift as int, v.background);
    cleared.subrange(shift as int, cleared.len() as int) + cleared.subrange(0, shift as int)
}

/// The console after a newline: the cursor returns to the line start and
/// moves down one line; when no full character row fits below, the buffer
/// scrolls instead and the cursor row keeps its position.
pub open spec fn newline_result(v: LoggerView) -> LoggerView {
    if v.y_pos + LINE_HEIGHT + CHAR_SIZE <= v.info.vertical_resolution {
        LoggerView { x_pos: 0, y_pos: (v.y_pos + LINE_HEIGHT) as nat, ..v }
    } else {
        LoggerView { x_pos: 0, framebuffer: scrolled_fb(v), ..v }
    }
}

/// Where a printable character lands: the current cursor, after a preceding
/// newline when no full cell is left on the line.
pub open spec fn char_target(v: LoggerView) -> LoggerView {
    if v.x_pos + CHAR_SIZE > v.info.horizontal_resolution {
        newline_result(v)
    } else {
        v
    }
}

/// The console after writing one character: newline and carriage return move
/// the cursor; any other character draws its glyph (if the font has one) at
/// the target cell and advances the cursor one cell.
pub open spec fn write_char_result(v: LoggerView, c: char) -> LoggerView {
    if c == '\n' {
        newline_result(v)
    } else if c == '\r' {
        LoggerView { x_pos: 0, ..v }
    } else {
        let t = char_target(v);
        let fb = match basic_glyph_spec(c) {
            Option::Some(g) => painted_fb(
                t.info,
                t.framebuffer,
                g,
                t.x_pos as int,
                t.y_pos as int,
                t.foreground,
            ),
            Option::None => t.framebuffer,
        };
        LoggerView { framebuffer: fb, x_pos: (t.x_pos + CHAR_SIZE) as nat, ..t }
    }
}

/// The console after writing a sequence of characters, one by one.
pub open spec fn write_str_result(v: LoggerView, s: Seq<char>) -> LoggerView
    decreases s.len(),
{
    if s.len() == 0 {
        v
    } else {
        write_char_result(write_str_result(v, s.drop_last()), s.last())
    }
}

/// The framebuffer text console.
pub struct Logger {
    pub framebuffer: Vec<u8>,
    pub info: FrameBufferInfo,
    pub x_pos: usize,
    pub y_pos: usize,
    pub foreground: (u8, u8, u8),
    pub background: (u8, u8, u8),
    pub err_color: (u8, u8, u8),
}

impl View for Logger {
    type V = LoggerView;

    open spec fn view(&self) -> LoggerView {
        LoggerView {
            framebuffer: self.framebuffer@,
            info: self.info,
            x_pos: self.x_pos as nat,
            y_pos: self.y_pos as nat,
            foreground: self.foreground,
            background: self.background,
            err_color: self.err_color,
        }
    }
}

/// Geometry consequences of a well-formed framebuffer shape, pulled out of
/// the products so callers need no nonlinear reasoning of their own.
proof fn lemma_info_bounds(info: FrameBufferInfo)
    requires
        info.wf(),
    ensures
        info.stride <= info.byte_len,
        CHAR_SIZE * info.vertical_resolution <= info.byte_len,
        info.stride * LINE_HEIGHT <= info.byte_len,
        info.stride * info.bytes_per_pixel <= info.byte_len,
        info.stride * info.bytes_per_pixel * LINE_HEIGHT <= info.byte_len,
        info.stride * info.bytes_per_pixel * info.vertical_resolution == info.byte_len,
{
    assert(info.stride <= info.stride * info.bytes_per_pixel * info.vertical_resolution
        && CHAR_SIZE * info.vertical_resolution <= info.stride * info.bytes_per_pixel
        * info.vertical_resolution && info.stride * LINE_HEIGHT <= info.stride
        * info.bytes_per_pixel * info.vertical_resolution && info.stride * info.bytes_per_pixel
        <= info.stride * info.bytes_per_pixel * info.vertical_resolution && info.stride
        * info.bytes_per_pixel * LINE_HEIGHT <= info.stride * info.bytes_per_pixel
        * info.vertical_resolution) by (nonlinear_arith)
        requires
            1 <= info.bytes_per_pixel,
            CHAR_SIZE <= info.stride,
            LINE_HEIGHT <= info.vertical_resolution,
    ;
}

/// A byte index is inside pixel `(x, y)`'s slot exactly when its pixel-grid
/// decomposition names that pixel.
proof fn lemma_byte_pixel(info: FrameBufferInfo, x: int, y: int, i: int)
    requires
        info.wf(),
        0 <= x < info.stride,
        0 <= y < info.vertical_resolution,
        0 <= i < info.byte_len,
    ensures
        (pixel_offset(info, x, y) <= i < pixel_offset(info, x, y) + info.bytes_per_pixel) <==> ((i
            / (info.bytes_per_pixel as int)) % (info.stride as int) == x && (i / (
        info.bytes_per_pixel as int)) / (info.stride as int) == y),
        0 <= i % (info.bytes_per_pixel as int) < info.bytes_per_pixel,
        pixel_offset(info, x, y) <= i < pixel_offset(info, x, y) + info.bytes_per_pixel ==> i % (
        info.bytes_per_pixel as int) == i - pixel_offset(info, x, y),
{
    let b = info.bytes_per_pixel as int;
    let st = info.stride as int;
    let p = i / b;
    let k = i % b;
    lemma_fundamental_div_mod(i, b);
    lemma_fundamental_div_mod(p, st);
    if pixel_offset(info, x, y) <= i < pixel_offset(info, x, y) + b {
        let off = (y * st + x) * b;
        lemma_fundamental_div_mod_converse(i, b, y * st + x, i - off);
        lemma_fundamental_div_mod_converse(y * st + x, st, y, x);
    }
    if p % st == x && p / st == y {
        assert(p == y * st + x);
        assert(i == (y * st + x) * b + k);
        assert(pixel_offset(info, x, y) <= i < pixel_offset(info, x, y) + b);
    }
}

/// Pixel slots do not run past the buffer.
proof fn lemma_pixel_in_bounds(info: FrameBufferInfo, x: int, y: int)
    requires
        info.wf(),
        0 <= x < info.stride,
        0 <= y < info.vertical_resolution,
    ensures
        0 <= pixel_offset(info, x, y),
        pixel_offset(info, x, y) + info.bytes_per_pixel <= info.byte_len,
{
    assert(0 <= (y * info.stride + x) * info.bytes_per_pixel && (y * info.stride + x)
        * info.bytes_per_pixel + info.bytes_per_pixel <= info.stride * info.bytes_per_pixel
        * info.vertical_resolution) by (nonlinear_arith)
        requires
            0 <= x < info.stride,
            0 <= y < info.vertical_resolution,
            1 <= info.bytes_per_pixel,
    ;
}

impl Logger {
    /// Create a console over a byte buffer with the given geometry and
    /// colors; the buffer starts cleared to the background pattern and the
    /// cursor at the origin.
    pub fn new(
        framebuffer: Vec<u8>,
        info: FrameBufferInfo,
        foreground: (u8, u8, u8),
        background: (u8, u8, u8),
        err_color: (u8, u8, u8),
    ) -> (r: Logger)
        requires
            info.wf(),
            framebuffer@.len() == info.byte_len,
        ensures
            r@.wf(),
            r@.info == info,
            r@.x_pos == 0,
            r@.y_pos == 0,
            r@.foreground == foreground,
            r@.background == background,
            r@.err_color == err_color,
            r@.framebuffer == fill_bytes(framebuffer@, 0, info.byte_len as int, background),
    {
        let mut logger = Logger {
            framebuffer,
            info,
            x_pos: 0,
            y_pos: 0,
            foreground,
            background,
            err_color,
        };
        logger.clear();
        logger
    }

    /// Clear the whole buffer to the background pattern.
    pub fn clear(&mut self)
        requires
            old(self)@.info.wf(),
            old(self)@.framebuffer.len() == old(self)@.info.byte_len,
        ensures
            final(self)@ == (LoggerView {
                framebuffer: fill_bytes(
                    old(self)@.framebuffer,
                    0,
                    old(self)@.info.byte_len as int,
                    old(self)@.background,
                ),
                ..old(self)@
            }),
    {
        let n = self.framebuffer.len();
        let rgb = self.background;
        fill_range(&mut self.framebuffer, 0, n, rgb);
    }

    /// The current text color.
    pub fn foreground(&self) -> (r: (u8, u8, u8))
        ensures
            r == self@.foreground,
    {
        self.foreground
    }

    /// Change the text color (error reports switch it temporarily).
    pub fn set_foreground(&mut self, foreground: (u8, u8, u8))
        ensures
            final(self)@ == (LoggerView { foreground, ..old(self)@ }),
    {
        self.foreground = foreground;
    }

    /// The background color.
    pub fn background(&self) -> (r: (u8, u8, u8))
        ensures
            r == self@.background,
    {
        self.background
    }

    /// The color reserved for fault reports.
    pub fn err_color(&self) -> (r: (u8, u8, u8))
        ensures
            r == self@.err_color,
    {
        self.err_color
    }

    /// Move the cursor back to the start of the current line.
    fn carriage_return(&mut self)
        ensures
            final(self)@ == (LoggerView { x_pos: 0, ..old(self)@ }),
    {
        self.x_pos = 0;
    }

    /// Clear text line `line` (its character rows and the gap below) to the
    /// background pattern.
    fn clear_line(&mut self, line: usize)
        requires
            old(self)@.wf(),
            line * CHAR_SIZE + LINE_HEIGHT <= old(self)@.info.vertical_resolution,
        ensures
            final(self)@ == (LoggerView {
                framebuffer: fill_bytes(
                    old(self)@.framebuffer,
                    line * CHAR_SIZE * old(self)@.info.stride * old(self)@.info.bytes_per_pixel,
                    old(self)@.info.stride * old(self)@.info.bytes_per_pixel * LINE_HEIGHT,
                    old(self)@.background,
                ),
                ..old(self)@
            }),
    {
        proof {
            lemma_info_bounds(self@.info);
            assert(line * CHAR_SIZE <= self@.info.vertical_resolution && line * CHAR_SIZE
                * self@.info.stride <= self@.info.stride * self@.info.bytes_per_pixel
                * self@.info.vertical_resolution && line * CHAR_SIZE * self@.info.stride
                * self@.info.bytes_per_pixel + self@.info.stride * self@.info.bytes_per_pixel
                * LINE_HEIGHT <= self@.info.stride * self@.info.bytes_per_pixel
                * self@.info.vertical_resolution) by (nonlinear_arith)
                requires
                    line * CHAR_SIZE + LINE_HEIGHT <= self@.info.vertical_resolution,
                    1 <= self@.info.bytes_per_pixel,
                    1 <= self@.info.stride,
            ;
        }
        let start = line * CHAR_SIZE * self.info.stride * self.info.bytes_per_pixel;
        let count = self.info.stride * self.info.bytes_per_pixel * LINE_HEIGHT;
        let rgb = self.background;
        fill_range(&mut self.framebuffer, start, count, rgb);
    }

    /// Scroll one text line: the top line is cleared and rotated to the
    /// bottom, everything else moves up; the cursor stays where it is.
    fn scroll(&mut self)
        requires
            old(self)@.wf(),
        ensures
            final(self)@ == (LoggerView { framebuffer: scrolled_fb(old(self)@), ..old(self)@ }),
    {
        proof {
            lemma_info_bounds(self@.info);
        }
        let ghost pre = self@;
        self.clear_line(0);
        proof {
            assert(0 * CHAR_SIZE * pre.info.stride * pre.info.bytes_per_pixel == 0)
                by (nonlinear_arith);
        }
        let ghost cleared = self@.framebuffer;
        let shift = self.info.stride * self.info.bytes_per_pixel * LINE_HEIGHT;
        rotate_left_bytes(&mut self.framebuffer, shift);
        proof {
            assert(self@.framebuffer == cleared.subrange(shift as int, cleared.len() as int)
                + cleared.subrange(0, shift as int));
            assert(self@.framebuffer =~= scrolled_fb(pre));
        }
    }

    /// Advance to the next line, scrolling when no full character row fits
    /// below the cursor.
    fn newline(&mut self)
        requires
            old(self)@.wf(),
        ensures
            final(self)@ == newline_result(old(self)@),
            final(self)@.wf(),
    {
        proof {
            lemma_info_bounds(self@.info);
        }
        self.carriage_return();
        if self.y_pos + LINE_HEIGHT + CHAR_SIZE <= self.info.vertical_resolution {
            self.y_pos = self.y_pos + LINE_HEIGHT;
        } else {
            self.scroll();
        }
    }

    /// Set pixel `(x, y)` to `rgb`.
    fn write_pixel(&mut self, x: usize, y: usize, rgb: (u8, u8, u8))
        requires
            old(self)@.wf(),
            x < old(self)@.info.stride,
            y < old(self)@.info.vertical_resolution,
        ensures
            final(self)@ == (LoggerView {
                framebuffer: pixel_written(
                    old(self)@.info,
                    old(self)@.framebuffer,
                    x as int,
                    y as int,
                    rgb,
                ),
                ..old(self)@
            }),
    {
        proof {
            lemma_info_bounds(self@.info);
            lemma_pixel_in_bounds(self@.info, x as int, y as int);
            assert(y * self@.info.stride + x < self@.info.stride * self@.info.vertical_resolution
                && self@.info.stride * self@.info.vertical_resolution <= self@.info.stride
                * self@.info.bytes_per_pixel * self@.info.vertical_resolution)
                by (nonlinear_arith)
                requires
                    0 <= x < self@.info.stride,
                    0 <= y < self@.info.vertical_resolution,
                    1 <= self@.info.bytes_per_pixel,
            ;
            assert((y * self@.info.stride + x) * self@.info.bytes_per_pixel == pixel_offset(
                self@.info,
                x as int,
                y as int,
            ));
        }
        let off = (y * self.info.stride + x) * self.info.bytes_per_pixel;
        let (b0, b1, b2, b3): (u8, u8, u8, u8) = match self.info.pixel_format {
            PixelFormat::Rgb => (rgb.0, rgb.1, rgb.2, 0u8),
            PixelFormat::Bgr => (rgb.2, rgb.1, rgb.0, 0u8),
            PixelFormat::U8 => (rgb.0, 0u8, 0u8, 0u8),
            PixelFormat::Unknown => (0u8, 0u8, 0u8, 0u8),
        };
        let ghost pre = self@.framebuffer;
        let mut k: usize = 0;
        while k < self.info.bytes_per_pixel
            invariant
                old(self)@.wf(),
                self@.info == old(self)@.info,
                self@.x_pos == old(self)@.x_pos,
                self@.y_pos == old(self)@.y_pos,
                self@.foreground == old(self)@.foreground,
                self@.background == old(self)@.background,
                self@.err_color == old(self)@.err_color,
                pre == old(self)@.framebuffer,
                k <= self@.info.bytes_per_pixel,
                off == pixel_offset(self@.info, x as int, y as int),
                off + self@.info.bytes_per_pixel <= self@.info.byte_len,
                self@.framebuffer.len() == pre.len() == self@.info.byte_len,
                seq![b0, b1, b2, b3] == pixel_color_bytes(self@.info.pixel_format, rgb),
                forall|i: int|
                    0 <= i < pre.len() && !(off <= i < off + k) ==> self@.framebuffer[i] == pre[i],
                forall|j: int| 0 <= j < k ==> self@.framebuffer[off + j] == seq![b0, b1, b2, b3][j],
            decreases self@.info.bytes_per_pixel - k,
        {
            let b: u8 = if k == 0 {
                b0
            } else if k == 1 {
                b1
            } else if k == 2 {
                b2
            } else {
                b3
            };
            self.framebuffer[off + k] = b;
            k = k + 1;
        }
        proof {
            assert(self@.framebuffer =~= pixel_written(
                old(self)@.info,
                old(self)@.framebuffer,
                x as int,
                y as int,
                rgb,
            ));
        }
    }

    /// Draw an 8x8 glyph with its top-left pixel at the cursor in the current
    /// text color.
    fn draw_glyph(&mut self, glyph: &[u8; 8])
        requires
            old(self)@.wf(),
            old(self)@.x_pos + CHAR_SIZE <= old(self)@.info.horizontal_resolution,
        ensures
            final(self)@ == (LoggerView {
                framebuffer: painted_fb(
                    old(self)@.info,
                    old(self)@.framebuffer,
                    glyph@,
                    old(self)@.x_pos as int,
                    old(self)@.y_pos as int,
                    old(self)@.foreground,
                ),
                ..old(self)@
            }),
    {
        let ghost v0 = old(self)@;
        let sx = self.x_pos;
        let sy = self.y_pos;
        let fg = self.foreground;
        proof {
            lemma_info_bounds(v0.info);
            assert(self@.framebuffer =~= painted_fb_upto(
                v0.info,
                v0.framebuffer,
                glyph@,
                sx as int,
                sy as int,
                fg,
                0,
                0,
            ));
        }
        let mut gy: usize = 0;
        while gy < CHAR_SIZE
            invariant
                v0 == old(self)@,
                v0.wf(),
                sx == v0.x_pos,
                sy == v0.y_pos,
                fg == v0.foreground,
                sx + CHAR_SIZE <= v0.info.horizontal_resolution,
                gy <= CHAR_SIZE,
                self@ == (LoggerView {
                    framebuffer: painted_fb_upto(
                        v0.info,
                        v0.framebuffer,
                        glyph@,
                        sx as int,
                        sy as int,
                        fg,
                        gy as int,
                        0,
                    ),
                    ..v0
                }),
            decreases CHAR_SIZE - gy,
        {
            let row: u8 = glyph[gy];
            let mut gx: usize = 0;
            while gx < CHAR_SIZE
                invariant
                    v0 == old(self)@,
                    v0.wf(),
                    sx == v0.x_pos,
                    sy == v0.y_pos,
                    fg == v0.foreground,
                    sx + CHAR_SIZE <= v0.info.horizontal_resolution,
                    gy < CHAR_SIZE,
                    gx <= CHAR_SIZE,
                    row == glyph@[gy as int],
                    self@ == (LoggerView {
                        framebuffer: painted_fb_upto(
                            v0.info,
                            v0.framebuffer,
                            glyph@,
                            sx as int,
                            sy as int,
                            fg,
                            gy as int,
                            gx as int,
                        ),
                        ..v0
                    }),
                decreases CHAR_SIZE - gx,
            {
                let ghost fb_in = self@.framebuffer;
                if row & (1u8 << (gx as u8)) != 0 {
                    self.write_pixel(sx + gx, sy + gy, fg);
                    proof {
                        lemma_paint_step(v0, glyph@, sx as int, sy as int, fg, gy as int, gx as int, fb_in);
                    }
                } else {
                    proof {
                        lemma_skip_step(v0, glyph@, sx as int, sy as int, fg, gy as int, gx as int);
                    }
                }
                gx = gx + 1;
            }
            proof {
                assert(painted_fb_upto(
                    v0.info,
                    v0.framebuffer,
                    glyph@,
                    sx as int,
                    sy as int,
                    fg,
                    gy as int,
                    CHAR_SIZE as int,
                ) =~= painted_fb_upto(
                    v0.info,
                    v0.framebuffer,
                    glyph@,
                    sx as int,
                    sy as int,
                    fg,
                    gy as int + 1,
                    0,
                ));
            }
            gy = gy + 1;
        }
    }

    /// Write one character: newline and carriage return move the cursor,
    /// anything else renders its glyph (if the basic font has one) and
    /// advances the cursor, wrapping and scrolling as needed.
    pub fn write_char(&mut self, c: char)
        requires
            old(self)@.wf(),
        ensures
            final(self)@ == write_char_result(old(self)@, c),
            final(self)@.wf(),
    {
        proof {
            lemma_info_bounds(self@.info);
        }
        if c == '\n' {
            self.newline();
        } else if c == '\r' {
            self.carriage_return();
        } else {
            if self.x_pos + CHAR_SIZE > self.info.horizontal_resolution {
                self.newline();
            }
            match basic_glyph(c) {
                Option::Some(glyph) => {
                    self.draw_glyph(&glyph);
                },
                Option::None => {},
            }
            self.x_pos = self.x_pos + CHAR_SIZE;
        }
    }

    /// Write a string character by character.
    pub fn write_str(&mut self, s: &str)
        requires
            old(self)@.wf(),
        ensures
            final(self)@ == write_str_result(old(self)@, s@),
            final(self)@.wf(),
    {
        broadcast use vstd::string::axiom_spec_iter, vstd::string::next_postcondition;

        let mut it = s.chars();
        let ghost n = s@.len() as int;
        let ghost mut i: int = 0;
        loop
            invariant
                0 <= i <= n,
                n == s@.len(),
                it.remaining() =~= s@.skip(i),
                self@ == write_str_result(old(self)@, s@.take(i)),
                self@.wf(),
            ensures
                self@ == write_str_result(old(self)@, s@),
                self@.wf(),
            decreases n - i,
        {
            match it.next() {
                Option::Some(c) => {
                    proof {
                        assert(s@.skip(i).len() > 0);
                        assert(c == s@[i]);
                    }
                    self.write_char(c);
                    proof {
                        assert(s@.take(i + 1).drop_last() =~= s@.take(i));
                        assert(s@.take(i + 1).last() == s@[i]);
                        i = i + 1;
                        assert(it.remaining() =~= s@.skip(i));
                    }
                },
                Option::None => {
                    proof {
                        assert(i == n);
                        assert(s@.take(i) =~= s@);
                    }
                    break ;
                },
            }
        }
    }

    /// Write a value as uppercase hexadecimal with a `0x` prefix, the way
    /// fault reports show error codes.
    pub fn write_hex(&mut self, value: u64)
        requires
            old(self)@.wf(),
        ensures
            final(self)@ == write_str_result(old(self)@, seq!['0', 'x'] + hex_seq(value as int)),
            final(self)@.wf(),
    {
        let mut digits: Vec<u8> = Vec::new();
        let mut v: u64 = value;
        loop
            invariant_except_break
                v <= value,
                digits@.len() == 0 ==> v == value,
                digits@.len() >= 1 ==> v >= 1 && hex_seq(value as int) == hex_seq(v as int)
                    + rev_hex_chars(digits@),
                forall|k: int| 0 <= k < digits@.len() ==> digits@[k] < 16,
            ensures
                digits@.len() >= 1,
                forall|k: int| 0 <= k < digits@.len() ==> digits@[k] < 16,
                hex_seq(value as int) == rev_hex_chars(digits@),
            decreases v,
        {
            let ghost before = digits@;
            let ghost pv = v;
            let d = (v % 16) as u8;
            digits.push(d);
            v = v / 16;
            proof {
                assert(rev_hex_chars(digits@) =~= seq![hex_digit((pv % 16) as int)]
                    + rev_hex_chars(before));
                if pv >= 16 {
                    assert(hex_seq(pv as int) == hex_seq(pv as int / 16).push(
                        hex_digit(pv as int % 16),
                    ));
                    assert(hex_seq(pv as int) =~= hex_seq(v as int) + seq![
                        hex_digit((pv % 16) as int),
                    ]);
                } else {
                    assert(hex_seq(pv as int) =~= seq![hex_digit((pv % 16) as int)]);
                }
                if before.len() == 0 {
                    assert(hex_seq(value as int) =~= hex_seq(pv as int) + rev_hex_chars(before));
                }
                assert((hex_seq(pv as int)) + rev_hex_chars(before) =~= (if v == 0 {
                    rev_hex_chars(digits@)
                } else {
                    hex_seq(v as int) + rev_hex_chars(digits@)
                }));
            }
            if v == 0 {
                break ;
            }
        }
        let ghost prefix: Seq<char> = seq!['0', 'x'];
        self.write_char('0');
        self.write_char('x');
        proof {
            assert(seq!['0'].drop_last() =~= Seq::<char>::empty());
            assert(prefix.drop_last() =~= seq!['0']);
            assert(write_str_result(old(self)@, Seq::<char>::empty()) == old(self)@);
            assert(write_str_result(old(self)@, seq!['0']) == write_char_result(old(self)@, '0'));
            assert(write_str_result(old(self)@, prefix) == write_char_result(
                write_str_result(old(self)@, seq!['0']),
                'x',
            ));
        }
        let n = digits.len();
        proof {
            assert(prefix + rev_hex_chars(digits@).take(0) =~= prefix);
        }
        let mut j: usize = 0;
        while j < n
            invariant
                n == digits@.len(),
                1 <= n,
                j <= n,
                forall|k: int| 0 <= k < digits@.len() ==> digits@[k] < 16,
                hex_seq(value as int) == rev_hex_chars(digits@),
                self@ == write_str_result(old(self)@, prefix + rev_hex_chars(digits@).take(j as int)),
                self@.wf(),
                prefix == seq!['0', 'x'],
            decreases n - j,
        {
            let c = hex_char(digits[n - 1 - j]);
            self.write_char(c);
            proof {
                let written = prefix + rev_hex_chars(digits@).take(j as int + 1);
                assert(written.drop_last() =~= prefix + rev_hex_chars(digits@).take(j as int));
                assert(written.last() == rev_hex_chars(digits@)[j as int]);
                assert(rev_hex_chars(digits@)[j as int] == hex_digit(
                    digits@[digits@.len() - 1 - j] as int,
                ));
                assert(write_str_result(old(self)@, written) == write_char_result(
                    write_str_result(old(self)@, written.drop_last()),
                    written.last(),
                ));
            }
            j = j + 1;
        }
        proof {
            assert(rev_hex_chars(digits@).take(n as int) =~= rev_hex_chars(digits@));
            assert(prefix + rev_hex_chars(digits@) =~= seq!['0', 'x'] + hex_seq(value as int));
        }
    }
}

/// The uppercase hexadecimal digit character for a value below 16.
pub open spec fn hex_digit(d: int) -> char {
    if d == 0 {
        '0'
    } else if d == 1 {
        '1'
    } else if d == 2 {
        '2'
    } else if d == 3 {
        '3'
    } else if d == 4 {
        '4'
    } else if d == 5 {
        '5'
    } else if d == 6 {
        '6'
    } else if d == 7 {
        '7'
    } else if d == 8 {
        '8'
    } else if d == 9 {
        '9'
    } else if d == 10 {
        'A'
    } else if d == 11 {
        'B'
    } else if d == 12 {
        'C'
    } else if d == 13 {
        'D'
    } else if d == 14 {
        'E'
    } else {
        'F'
    }
}

/// The hexadecimal digit characters of a value, most significant first, with
/// no leading zeros (a single `'0'` for zero).
pub open spec fn hex_seq(v: int) -> Seq<char>
    decreases v,
{
    if v < 16 {
        seq![hex_digit(v)]
    } else {
        hex_seq(v / 16).push(hex_digit(v % 16))
    }
}

/// Digit values collected least significant first, read back as the digit
/// characters in display order.
pub open spec fn rev_hex_chars(ds: Seq<u8>) -> Seq<char> {
    Seq::new(ds.len(), |i: int| hex_digit(ds[ds.len() - 1 - i] as int))
}

/// The character for one hexadecimal digit value.
fn hex_char(d: u8) -> (r: char)
    requires
        d < 16,
    ensures
        r == hex_digit(d as int),
{
    match d {
        0 => '0',
        1 => '1',
        2 => '2',
        3 => '3',
        4 => '4',
        5 => '5',
        6 => '6',
        7 => '7',
        8 => '8',
        9 => '9',
        10 => 'A',
        11 => 'B',
        12 => 'C',
        13 => 'D',
        14 => 'E',
        _ => 'F',
    }
}

/// Overwrite `count` bytes from `start` with the repeating 3-byte pattern of
/// `rgb`.
fn fill_range(bytes: &mut Vec<u8>, start: usize, count: usize, rgb: (u8, u8, u8))
    requires
        start + count <= old(bytes)@.len(),
    ensures
        final(bytes)@ == fill_bytes(old(bytes)@, start as int, count as int, rgb),
{
    let pattern = rgb_to_slice(&rgb);
    let n = bytes.len();
    let mut j: usize = 0;
    while j < count
        invariant
            start + count <= n,
            n == old(bytes)@.len(),
            j <= count,
            bytes@.len() == old(bytes)@.len(),
            pattern@ == seq![rgb.0, rgb.1, rgb.2],
            forall|i: int|
                0 <= i < bytes@.len() && !(start <= i < start + j) ==> bytes@[i] == old(bytes)@[i],
            forall|i: int|
                start <= i < start + j ==> bytes@[i] == rgb_byte(rgb, (i - start) % 3),
        decreases count - j,
    {
        let b = pattern[j % 3];
        bytes[start + j] = b;
        j = j + 1;
    }
    proof {
        assert(bytes@ =~= fill_bytes(old(bytes)@, start as int, count as int, rgb));
    }
}

/// A color triple as the 3-byte slice the fill pattern repeats.
fn rgb_to_slice(rgb: &(u8, u8, u8)) -> (r: [u8; 3])
    ensures
        r@ == seq![rgb.0, rgb.1, rgb.2],
{
    let r = [rgb.0, rgb.1, rgb.2];
    proof {
        assert(r@ =~= seq![rgb.0, rgb.1, rgb.2]);
    }
    r
}

/// Rotate the buffer left by `k` bytes: byte `k` becomes byte 0 and the
/// first `k` bytes move to the end.
fn rotate_left_bytes(v: &mut Vec<u8>, k: usize)
    requires
        k <= old(v)@.len(),
    ensures
        final(v)@ == old(v)@.subrange(k as int, old(v)@.len() as int) + old(v)@.subrange(
            0,
            k as int,
        ),
{
    let n = v.len();
    let mut out: Vec<u8> = Vec::new();
    let mut i: usize = k;
    while i < n
        invariant
            k <= n == v@.len(),
            k <= i <= n,
            out@ =~= v@.subrange(k as int, i as int),
        decreases n - i,
    {
        let b = v[i];
        out.push(b);
        i = i + 1;
    }
    let mut j: usize = 0;
    while j < k
        invariant
            k <= n == v@.len(),
            j <= k,
            out@ =~= v@.subrange(k as int, n as int) + v@.subrange(0, j as int),
        decreases k - j,
    {
        let b = v[j];
        out.push(b);
        j = j + 1;
    }
    *v = out;
}

/// One drawn pixel extends the partially painted buffer by one glyph column.
proof fn lemma_paint_step(
    v0: LoggerView,
    g: Seq<u8>,
    sx: int,
    sy: int,
    fg: (u8, u8, u8),
    gy: int,
    gx: int,
    fb_in: Seq<u8>,
)
    requires
        v0.wf(),
        0 <= sx,
        0 <= sy,
        sx + CHAR_SIZE <= v0.info.horizontal_resolution,
        sy + CHAR_SIZE <= v0.info.vertical_resolution,
        0 <= gy < CHAR_SIZE,
        0 <= gx < CHAR_SIZE,
        glyph_bit_set(g, gx, gy),
        fb_in == painted_fb_upto(v0.info, v0.framebuffer, g, sx, sy, fg, gy, gx),
    ensures
        pixel_written(v0.info, fb_in, sx + gx, sy + gy, fg) == painted_fb_upto(
            v0.info,
            v0.framebuffer,
            g,
            sx,
            sy,
            fg,
            gy,
            gx + 1,
        ),
{
    let info = v0.info;
    let lhs = pixel_written(info, fb_in, sx + gx, sy + gy, fg);
    let rhs = painted_fb_upto(info, v0.framebuffer, g, sx, sy, fg, gy, gx + 1);
    assert forall|i: int| 0 <= i < lhs.len() implies lhs[i] == rhs[i] by {
        lemma_byte_pixel(info, sx + gx, sy + gy, i);
    }
    assert(lhs =~= rhs);
}

/// A glyph pixel that is not set leaves the partially painted buffer as it
/// was, save for the column limit moving on.
proof fn lemma_skip_step(
    v0: LoggerView,
    g: Seq<u8>,
    sx: int,
    sy: int,
    fg: (u8, u8, u8),
    gy: int,
    gx: int,
)
    requires
        0 <= gy < CHAR_SIZE,
        0 <= gx < CHAR_SIZE,
        !glyph_bit_set(g, gx, gy),
    ensures
        painted_fb_upto(v0.info, v0.framebuffer, g, sx, sy, fg, gy, gx) == painted_fb_upto(
            v0.info,
            v0.framebuffer,
            g,
            sx,
            sy,
            fg,
            gy,
            gx + 1,
        ),
{
    assert(painted_fb_upto(v0.info, v0.framebuffer, g, sx, sy, fg, gy, gx) =~= painted_fb_upto(
        v0.info,
        v0.framebuffer,
        g,
        sx,
        sy,
        fg,
        gy,
        gx + 1,
    ));
}

} // verus!
