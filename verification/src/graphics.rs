//! Double-buffered framebuffer drawing.
//!
//! All drawing lands in a back buffer; `swap_buffers` publishes it to
//! the front buffer whole. A pixel write clips silently at the screen
//! edge and stores the colour's three channels in the pixel's byte
//! order. Glyphs come from the 8×8 basic font table, one byte per row,
//! most significant bit leftmost.
//!
//! The unverified shim that owns the real, bootloader-provided screen
//! memory constructs a `Framebuffer` with the screen's geometry and
//! copies the front buffer out after each swap.

use vstd::prelude::*;
use vstd::string::StrSliceExecFns;

verus! {

/// Pixel channel order.
#[derive(Debug, Clone, Copy, PartialEq, Eq, Structural)]
pub enum PixelFormat {
    RGB,
    BGR,
}

/// A colour, as three channels.
#[derive(Debug, Clone, Copy, PartialEq, Eq, Structural)]
pub struct Color {
    pub r: u8,
    pub g: u8,
    pub b: u8,
}

impl Color {
    /// A colour from its three channels.
    pub fn new(r: u8, g: u8, b: u8) -> (c: Color)
        ensures
            c == (Color { r, g, b }),
    {
        Color { r, g, b }
    }

    /// The three channels, in (red, green, blue) order.
    pub fn as_rgb(self) -> (t: (u8, u8, u8))
        ensures
            t == (self.r, self.g, self.b),
    {
        (self.r, self.g, self.b)
    }
}

/// Mathematical content of a framebuffer: both buffers and the screen
/// geometry.
#[verifier::ext_equal]
pub ghost struct FbModel {
    pub front: Seq<u8>,
    pub back: Seq<u8>,
    pub width: int,
    pub height: int,
    pub stride: int,
    pub bpp: int,
    pub format: PixelFormat,
}

impl FbModel {
    /// Well-formedness: a supported geometry — at least two glyph cells
    /// wide, bounded as real scan-out hardware is — and buffers sized
    /// exactly to it.
    pub open spec fn wf(self) -> bool {
        &&& 16 <= self.width <= self.stride
        &&& self.stride <= 8192
        &&& 1 <= self.height <= 4096
        &&& (self.bpp == 3 || self.bpp == 4)
        &&& self.front.len() == self.stride * self.height * self.bpp
        &&& self.back.len() == self.stride * self.height * self.bpp
    }
}

/// The back buffer after one pixel write: the three channel bytes at the
/// pixel's offset, in the format's order, or nothing at all when the
/// pixel lies off screen.
pub open spec fn spec_draw_pixel(m: FbModel, x: int, y: int, color: Color) -> FbModel {
    if 0 <= x < m.width && 0 <= y < m.height {
        let off = (y * m.stride + x) * m.bpp;
        let back = match m.format {
            PixelFormat::RGB => m.back.update(off, color.r).update(off + 1, color.g).update(
                off + 2,
                color.b,
            ),
            PixelFormat::BGR => m.back.update(off, color.b).update(off + 1, color.g).update(
                off + 2,
                color.r,
            ),
        };
        FbModel {
            front: m.front,
            back,
            width: m.width,
            height: m.height,
            stride: m.stride,
            bpp: m.bpp,
            format: m.format,
        }
    } else {
        m
    }
}

/// One row of a rectangle, pixels `dx`, `dx + 1`, … up to `w`.
pub open spec fn fill_row_from(m: FbModel, x: int, y: int, dx: int, w: int, color: Color) -> FbModel
    decreases w - dx,
{
    if dx < 0 || dx >= w {
        m
    } else {
        fill_row_from(spec_draw_pixel(m, x + dx, y, color), x, y, dx + 1, w, color)
    }
}

/// The rows of a rectangle from `dy` on.
pub open spec fn fill_rect_from(
    m: FbModel,
    x: int,
    y: int,
    dy: int,
    w: int,
    h: int,
    color: Color,
) -> FbModel
    decreases h - dy,
{
    if dy < 0 || dy >= h {
        m
    } else {
        fill_rect_from(fill_row_from(m, x, y + dy, 0, w, color), x, y, dy + 1, w, h, color)
    }
}

/// The back buffer after filling the `w × h` rectangle at `(x, y)`,
/// row by row, left to right.
pub open spec fn spec_fill_rect(m: FbModel, x: int, y: int, w: int, h: int, color: Color) -> FbModel {
    fill_rect_from(m, x, y, 0, w, h, color)
}

/// The glyph of `c` in the 8×8 basic font: its eight row bytes. Named
/// after the font table; the table fixes the bytes, character by
/// character.
pub uninterp spec fn glyph_of(c: char) -> Seq<u8>;

/// One glyph row from column `dx` on: a pixel per set bit, most
/// significant bit leftmost.
pub open spec fn glyph_row_from(
    m: FbModel,
    row: u8,
    x: int,
    y: int,
    dx: int,
    color: Color,
) -> FbModel
    decreases 8 - dx,
{
    if dx < 0 || dx >= 8 {
        m
    } else {
        let m2 = if row & (1u8 << ((7 - dx) as u8)) != 0 {
            spec_draw_pixel(m, x + dx, y, color)
        } else {
            m
        };
        glyph_row_from(m2, row, x, y, dx + 1, color)
    }
}

/// The glyph rows from `dy` on.
pub open spec fn glyph_rows_from(
    m: FbModel,
    g: Seq<u8>,
    x: int,
    y: int,
    dy: int,
    color: Color,
) -> FbModel
    decreases 8 - dy,
{
    if dy < 0 || dy >= 8 {
        m
    } else {
        glyph_rows_from(glyph_row_from(m, g[dy], x, y + dy, 0, color), g, x, y, dy + 1, color)
    }
}

/// The back buffer after drawing `c` at `(x, y)`: its glyph's set bits,
/// or nothing for a character outside the basic font.
pub open spec fn spec_draw_char(m: FbModel, c: char, x: int, y: int, color: Color) -> FbModel {
    if (c as u32) < 128 {
        glyph_rows_from(m, glyph_of(c), x, y, 0, color)
    } else {
        m
    }
}

/// The back buffer after drawing a string: one glyph cell per
/// character, eight pixels apart, left to right.
pub open spec fn draw_string_from(m: FbModel, s: Seq<char>, x: int, y: int, color: Color) -> FbModel
    decreases s.len(),
{
    if s.len() == 0 {
        m
    } else {
        draw_string_from(spec_draw_char(m, s[0], x, y, color), s.skip(1), x + 8, y, color)
    }
}

/// Relies on the basic-font lookup of the font table crate: the glyph
/// depends on the character alone, the table covers exactly the first
/// 128 characters, and a glyph is its eight row bytes.
#[verifier::external_body]
fn basic_glyph(c: char) -> (r: Option<Vec<u8>>)
    ensures
        (c as u32) < 128 <==> r is Some,
        r is Some ==> r->0@ == glyph_of(c) && r->0@.len() == 8,
{
    match font8x8::UnicodeFonts::get(&font8x8::BASIC_FONTS, c) {
        Some(glyph) => Some(glyph.to_vec()),
        None => None,
    }
}

/// A double-buffered framebuffer.
pub struct Framebuffer {
    buffer: Vec<u8>,
    back_buffer: Vec<u8>,
    width: usize,
    height: usize,
    stride: usize,
    bytes_per_pixel: usize,
    pixel_format: PixelFormat,
}

impl View for Framebuffer {
    type V = FbModel;

    closed spec fn view(&self) -> FbModel {
        FbModel {
            front: self.buffer@,
            back: self.back_buffer@,
            width: self.width as int,
            height: self.height as int,
            stride: self.stride as int,
            bpp: self.bytes_per_pixel as int,
            format: self.pixel_format,
        }
    }
}

/// A zeroed buffer of `n` bytes.
fn zeroed(n: usize) -> (r: Vec<u8>)
    ensures
        r@.len() == n,
        forall|j: int| 0 <= j < n ==> r@[j] == 0u8,
{
    let mut b: Vec<u8> = Vec::new();
    let mut i: usize = 0;
    while i < n
        invariant
            i <= n,
            b@.len() == i,
            forall|j: int| 0 <= j < i ==> b@[j] == 0u8,
        decreases n - i,
    {
        b.push(0);
        i = i + 1;
    }
    b
}

impl Framebuffer {
    /// Well-formedness of the framebuffer's model.
    pub open spec fn wf(&self) -> bool {
        self@.wf()
    }

    /// A framebuffer with the given geometry, both buffers zeroed. The
    /// geometry must be one scan-out hardware presents: pixels no wider
    /// than the line stride, bounded dimensions, three or four bytes per
    /// pixel.
    pub fn new(
        width: usize,
        height: usize,
        stride: usize,
        bytes_per_pixel: usize,
        pixel_format: PixelFormat,
    ) -> (r: Framebuffer)
        requires
            16 <= width <= stride,
            stride <= 8192,
            1 <= height <= 4096,
            bytes_per_pixel == 3 || bytes_per_pixel == 4,
        ensures
            r.wf(),
            r@.width == width,
            r@.height == height,
            r@.stride == stride,
            r@.bpp == bytes_per_pixel,
            r@.format == pixel_format,
            forall|j: int| 0 <= j < r@.back.len() ==> r@.back[j] == 0u8,
            forall|j: int| 0 <= j < r@.front.len() ==> r@.front[j] == 0u8,
    {
        proof {
            assert(stride * height * bytes_per_pixel <= 8192 * 4096 * 4) by (nonlinear_arith)
                requires
                    stride <= 8192,
                    height <= 4096,
                    bytes_per_pixel <= 4,
            ;
        }
        let len = stride * height * bytes_per_pixel;
        Framebuffer {
            buffer: zeroed(len),
            back_buffer: zeroed(len),
            width,
            height,
            stride,
            bytes_per_pixel,
            pixel_format,
        }
    }

    /// The screen width in pixels.
    pub fn width(&self) -> (r: usize)
        ensures
            r == self@.width,
    {
        self.width
    }

    /// The screen height in pixels.
    pub fn height(&self) -> (r: usize)
        ensures
            r == self@.height,
    {
        self.height
    }

    /// The front buffer: what the screen shows since the last swap.
    pub fn front(&self) -> (r: &Vec<u8>)
        ensures
            r@ == self@.front,
    {
        &self.buffer
    }

    /// The back buffer: what drawing has produced so far.
    pub fn back(&self) -> (r: &Vec<u8>)
        ensures
            r@ == self@.back,
    {
        &self.back_buffer
    }

    /// Copy the back buffer to the screen buffer.
    pub fn swap_buffers(&mut self)
        requires
            old(self).wf(),
        ensures
            final(self).wf(),
            final(self)@ == (FbModel { front: old(self)@.back, ..old(self)@ }),
    {
        let n = self.back_buffer.len();
        let mut i: usize = 0;
        while i < n
            invariant
                i <= n,
                n == self.back_buffer@.len(),
                self.buffer@.len() == old(self)@.front.len(),
                old(self).wf(),
                self.back_buffer@ == old(self)@.back,
                self.width == old(self)@.width,
                self.height == old(self)@.height,
                self.stride == old(self)@.stride,
                self.bytes_per_pixel == old(self)@.bpp,
                self.pixel_format == old(self)@.format,
                forall|j: int| 0 <= j < i ==> self.buffer@[j] == old(self)@.back[j],
                forall|j: int| i <= j < self.buffer@.len() ==> self.buffer@[j] == old(self)@.front[j],
            decreases n - i,
        {
            let b = self.back_buffer[i];
            self.buffer.set(i, b);
            i = i + 1;
        }
        proof {
            assert(self.buffer@ =~= old(self)@.back);
            assert(self@ =~~= (FbModel { front: old(self)@.back, ..old(self)@ }));
        }
    }

    /// Write one pixel into the back buffer, clipping silently off
    /// screen. Never touches the front buffer or the geometry.
    #[verifier::rlimit(30)]
    pub fn draw_pixel(&mut self, x: usize, y: usize, color: Color)
        requires
            old(self).wf(),
        ensures
            final(self).wf(),
            final(self)@ == spec_draw_pixel(old(self)@, x as int, y as int, color),
            final(self)@.front == old(self)@.front,
            final(self)@.width == old(self)@.width,
            final(self)@.height == old(self)@.height,
            final(self)@.stride == old(self)@.stride,
            final(self)@.bpp == old(self)@.bpp,
            final(self)@.format == old(self)@.format,
    {
        if x < self.width && y < self.height {
            proof {
                let xi = x as int;
                let yi = y as int;
                let st = self@.stride;
                let hi = self@.height;
                let bp = self@.bpp;
                assert(0 <= yi * st && yi * st + xi < hi * st) by (nonlinear_arith)
                    requires
                        0 <= xi < st,
                        0 <= yi < hi,
                ;
                assert(hi * st <= 4096 * 8192) by (nonlinear_arith)
                    requires
                        0 <= hi <= 4096,
                        0 <= st <= 8192,
                ;
                assert((yi * st + xi) * bp + bp <= hi * st * bp) by (nonlinear_arith)
                    requires
                        0 <= yi * st + xi,
                        yi * st + xi < hi * st,
                        1 <= bp,
                ;
                assert((yi * st + xi) * bp <= (4096 * 8192 - 1) * 4) by (nonlinear_arith)
                    requires
                        0 <= yi * st + xi,
                        yi * st + xi <= 4096 * 8192 - 1,
                        0 <= bp <= 4,
                ;
                assert(hi * st * bp == st * hi * bp) by (nonlinear_arith);
            }
            let pixel_offset = y * self.stride + x;
            let byte_offset = pixel_offset * self.bytes_per_pixel;

            let (r, g, b) = color.as_rgb();

            match self.pixel_format {
                PixelFormat::RGB => {
                    self.back_buffer.set(byte_offset, r);
                    self.back_buffer.set(byte_offset + 1, g);
                    self.back_buffer.set(byte_offset + 2, b);
                },
                PixelFormat::BGR => {
                    self.back_buffer.set(byte_offset, b);
                    self.back_buffer.set(byte_offset + 1, g);
                    self.back_buffer.set(byte_offset + 2, r);
                },
            }
            proof {
                assert(self@ =~~= spec_draw_pixel(old(self)@, x as int, y as int, color));
            }
        } else {
            proof {
                assert(self@ =~~= spec_draw_pixel(old(self)@, x as int, y as int, color));
            }
        }
    }

    /// Fill a rectangle in the back buffer, row by row, left to right,
    /// clipping silently at the screen edge.
    pub fn fill_rect(&mut self, x: usize, y: usize, width: usize, height: usize, color: Color)
        requires
            old(self).wf(),
            x + width <= usize::MAX,
            y + height <= usize::MAX,
        ensures
            final(self).wf(),
            final(self)@ == spec_fill_rect(
                old(self)@,
                x as int,
                y as int,
                width as int,
                height as int,
                color,
            ),
            final(self)@.front == old(self)@.front,
            final(self)@.width == old(self)@.width,
            final(self)@.height == old(self)@.height,
            final(self)@.stride == old(self)@.stride,
            final(self)@.bpp == old(self)@.bpp,
            final(self)@.format == old(self)@.format,
    {
        let ghost total = spec_fill_rect(
            old(self)@,
            x as int,
            y as int,
            width as int,
            height as int,
            color,
        );
        let mut dy: usize = 0;
        while dy < height
            invariant
                old(self).wf(),
                self.wf(),
                self@.front == old(self)@.front,
                self@.width == old(self)@.width,
                self@.height == old(self)@.height,
                self@.stride == old(self)@.stride,
                self@.bpp == old(self)@.bpp,
                self@.format == old(self)@.format,
                dy <= height,
                x + width <= usize::MAX,
                y + height <= usize::MAX,
                fill_rect_from(
                    self@,
                    x as int,
                    y as int,
                    dy as int,
                    width as int,
                    height as int,
                    color,
                ) == total,
            decreases height - dy,
        {
            let mut dx: usize = 0;
            while dx < width
                invariant
                    old(self).wf(),
                    self.wf(),
                    self@.front == old(self)@.front,
                    self@.width == old(self)@.width,
                    self@.height == old(self)@.height,
                    self@.stride == old(self)@.stride,
                    self@.bpp == old(self)@.bpp,
                    self@.format == old(self)@.format,
                    dx <= width,
                    dy < height,
                    x + width <= usize::MAX,
                    y + height <= usize::MAX,
                    fill_rect_from(
                        fill_row_from(
                            self@,
                            x as int,
                            y as int + dy,
                            dx as int,
                            width as int,
                            color,
                        ),
                        x as int,
                        y as int,
                        dy as int + 1,
                        width as int,
                        height as int,
                        color,
                    ) == total,
                decreases width - dx,
            {
                self.draw_pixel(x + dx, y + dy, color);
                dx = dx + 1;
            }
            dy = dy + 1;
        }
        proof {
            assert(fill_rect_from(
                self@,
                x as int,
                y as int,
                height as int,
                width as int,
                height as int,
                color,
            ) == self@);
        }
    }

    /// Draw one character's glyph into the back buffer; characters
    /// outside the basic font draw nothing.
    pub fn draw_char(&mut self, c: char, x: usize, y: usize, color: Color)
        requires
            old(self).wf(),
            x + 8 <= usize::MAX,
            y + 8 <= usize::MAX,
        ensures
            final(self).wf(),
            final(self)@ == spec_draw_char(old(self)@, c, x as int, y as int, color),
            final(self)@.front == old(self)@.front,
            final(self)@.width == old(self)@.width,
            final(self)@.height == old(self)@.height,
            final(self)@.stride == old(self)@.stride,
            final(self)@.bpp == old(self)@.bpp,
            final(self)@.format == old(self)@.format,
    {
        if let Some(glyph) = basic_glyph(c) {
            let ghost g = glyph_of(c);
            let ghost total = glyph_rows_from(old(self)@, g, x as int, y as int, 0, color);
            let mut dy: usize = 0;
            while dy < 8
                invariant
                    old(self).wf(),
                    self.wf(),
                    self@.front == old(self)@.front,
                    self@.width == old(self)@.width,
                    self@.height == old(self)@.height,
                    self@.stride == old(self)@.stride,
                    self@.bpp == old(self)@.bpp,
                    self@.format == old(self)@.format,
                    dy <= 8,
                    x + 8 <= usize::MAX,
                    y + 8 <= usize::MAX,
                    glyph@ == g,
                    g.len() == 8,
                    glyph_rows_from(self@, g, x as int, y as int, dy as int, color) == total,
                decreases 8 - dy,
            {
                let row = glyph[dy];
                let mut dx: usize = 0;
                while dx < 8
                    invariant
                        old(self).wf(),
                        self.wf(),
                        self@.front == old(self)@.front,
                        self@.width == old(self)@.width,
                        self@.height == old(self)@.height,
                        self@.stride == old(self)@.stride,
                        self@.bpp == old(self)@.bpp,
                        self@.format == old(self)@.format,
                        dx <= 8,
                        dy < 8,
                        x + 8 <= usize::MAX,
                        y + 8 <= usize::MAX,
                        glyph@ == g,
                        g.len() == 8,
                        row == g[dy as int],
                        glyph_rows_from(
                            glyph_row_from(
                                self@,
                                row,
                                x as int,
                                y as int + dy,
                                dx as int,
                                color,
                            ),
                            g,
                            x as int,
                            y as int,
                            dy as int + 1,
                            color,
                        ) == total,
                    decreases 8 - dx,
                {
                    if row & (1u8 << ((7 - dx) as u8)) != 0 {
                        self.draw_pixel(x + dx, y + dy, color);
                    }
                    dx = dx + 1;
                }
                dy = dy + 1;
            }
            proof {
                assert(glyph_rows_from(self@, g, x as int, y as int, 8, color) == self@);
            }
        }
    }

    /// Draw a string left to right, one glyph cell of eight pixels per
    /// character.
    pub fn draw_string(&mut self, s: &str, x: usize, y: usize, color: Color)
        requires
            old(self).wf(),
            x + 8 * s@.len() + 8 <= usize::MAX,
            y + 8 <= usize::MAX,
        ensures
            final(self).wf(),
            final(self)@ == draw_string_from(old(self)@, s@, x as int, y as int, color),
            final(self)@.front == old(self)@.front,
            final(self)@.width == old(self)@.width,
            final(self)@.height == old(self)@.height,
            final(self)@.stride == old(self)@.stride,
            final(self)@.bpp == old(self)@.bpp,
            final(self)@.format == old(self)@.format,
    {
        let ghost total = draw_string_from(old(self)@, s@, x as int, y as int, color);
        let n = s.unicode_len();
        let mut current_x = x;
        let mut i: usize = 0;
        proof {
            assert(s@.skip(0) =~= s@);
        }
        while i < n
            invariant
                old(self).wf(),
                self.wf(),
                self@.front == old(self)@.front,
                self@.width == old(self)@.width,
                self@.height == old(self)@.height,
                self@.stride == old(self)@.stride,
                self@.bpp == old(self)@.bpp,
                self@.format == old(self)@.format,
                i <= n,
                n == s@.len(),
                current_x == x + 8 * i,
                x + 8 * s@.len() + 8 <= usize::MAX,
                y + 8 <= usize::MAX,
                draw_string_from(self@, s@.skip(i as int), current_x as int, y as int, color)
                    == total,
            decreases n - i,
        {
            let c = s.get_char(i);
            self.draw_char(c, current_x, y, color);
            proof {
                assert(s@.skip(i as int)[0] == s@[i as int]);
                assert(s@.skip(i as int).skip(1) =~= s@.skip(i as int + 1));
            }
            current_x = current_x + 8;
            i = i + 1;
        }
        proof {
            assert(s@.skip(n as int).len() == 0);
        }
    }

    /// Where the writer stands after printing `s` from `(wx, wy)`:
    /// newlines return to the left margin one text row down, and a glyph
    /// that would pass the right margin wraps the same way.
    pub open spec fn spec_write(
        m: FbModel,
        wx: int,
        wy: int,
        color: Color,
        s: Seq<char>,
    ) -> (FbModel, int, int)
        decreases s.len(),
    {
        if s.len() == 0 {
            (m, wx, wy)
        } else if s[0] == '\n' {
            Framebuffer::spec_write(m, 10, wy + 10, color, s.skip(1))
        } else {
            let m2 = spec_draw_char(m, s[0], wx, wy, color);
            let nx = wx + 8;
            if nx > m.width - 10 {
                Framebuffer::spec_write(m2, 10, wy + 10, color, s.skip(1))
            } else {
                Framebuffer::spec_write(m2, nx, wy, color, s.skip(1))
            }
        }
    }

    /// Clear the whole screen to one colour.
    pub fn clear(&mut self, color: Color)
        requires
            old(self).wf(),
        ensures
            final(self).wf(),
            final(self)@ == spec_fill_rect(
                old(self)@,
                0,
                0,
                old(self)@.width,
                old(self)@.height,
                color,
            ),
    {
        let w = self.width;
        let h = self.height;
        self.fill_rect(0, 0, w, h, color);
    }
}

/// Mathematical content of a text writer: pen position and colour.
#[verifier::ext_equal]
pub ghost struct WriterModel {
    pub x: int,
    pub y: int,
    pub color: Color,
}

/// A text writer over a framebuffer: keeps a pen position, wraps at the
/// right margin and on newlines.
pub struct GraphicsWriter {
    x: usize,
    y: usize,
    color: Color,
}

impl View for GraphicsWriter {
    type V = WriterModel;

    closed spec fn view(&self) -> WriterModel {
        WriterModel { x: self.x as int, y: self.y as int, color: self.color }
    }
}

impl GraphicsWriter {
    /// A writer at the top-left text position, writing white.
    pub fn new() -> (r: GraphicsWriter)
        ensures
            r@ == (WriterModel { x: 10, y: 10, color: Color { r: 255, g: 255, b: 255 } }),
    {
        GraphicsWriter { x: 10, y: 10, color: Color::new(255, 255, 255) }
    }

    /// The pen position, as (x, y).
    pub fn position(&self) -> (r: (usize, usize))
        ensures
            r.0 == self@.x,
            r.1 == self@.y,
    {
        (self.x, self.y)
    }

    /// Print `s` at the pen position: glyphs eight pixels apart, a new
    /// text row on `\n` or past the right margin. The pen ends where the
    /// layout says it ends.
    pub fn write_string(&mut self, fb: &mut Framebuffer, s: &str)
        requires
            old(fb).wf(),
            old(self)@.x + 8 <= usize::MAX,
            old(self)@.y + 10 * s@.len() + 8 <= usize::MAX,
        ensures
            final(fb).wf(),
            final(self)@.color == old(self)@.color,
            (final(fb)@, final(self)@.x, final(self)@.y) == Framebuffer::spec_write(
                old(fb)@,
                old(self)@.x,
                old(self)@.y,
                old(self)@.color,
                s@,
            ),
    {
        let ghost total = Framebuffer::spec_write(
            old(fb)@,
            old(self)@.x,
            old(self)@.y,
            old(self)@.color,
            s@,
        );
        let n = s.unicode_len();
        let mut i: usize = 0;
        proof {
            assert(s@.skip(0) =~= s@);
        }
        while i < n
            invariant
                old(fb).wf(),
                fb.wf(),
                fb@.width == old(fb)@.width,
                i <= n,
                n == s@.len(),
                self.color == old(self)@.color,
                i == 0 ==> self.x == old(self)@.x && self.y == old(self)@.y,
                i > 0 ==> self.x <= 8192,
                self.y <= old(self)@.y + 10 * i,
                old(self)@.x + 8 <= usize::MAX,
                old(self)@.y + 10 * s@.len() + 8 <= usize::MAX,
                Framebuffer::spec_write(fb@, self.x as int, self.y as int, self.color, s@.skip(
                    i as int,
                )) == total,
            decreases n - i,
        {
            let c = s.get_char(i);
            proof {
                assert(s@.skip(i as int)[0] == s@[i as int]);
                assert(s@.skip(i as int).skip(1) =~= s@.skip(i as int + 1));
            }
            if c == '\n' {
                self.x = 10;
                self.y = self.y + 10;
            } else {
                fb.draw_char(c, self.x, self.y, self.color);
                self.x = self.x + 8;
                if self.x > fb.width() - 10 {
                    self.x = 10;
                    self.y = self.y + 10;
                }
            }
            i = i + 1;
        }
        proof {
            assert(s@.skip(n as int).len() == 0);
        }
    }
}

/// What the bring-up screen shows: a task bar along the bottom edge and
/// a terminal window with its greeting, drawn in order.
pub open spec fn spec_draw_ui(m: FbModel) -> FbModel {
    let m1 = spec_fill_rect(m, 0, m.height - 40, m.width, 40, (Color { r: 64, g: 64, b: 64 }));
    let m2 = draw_string_from(m1, "Orbita OS"@, 10, m.height - 30, (Color {
        r: 255,
        g: 255,
        b: 255,
    }));
    let m3 = spec_fill_rect(m2, 50, 50, 600, 30, (Color { r: 128, g: 128, b: 128 }));
    let m4 = draw_string_from(m3, "Terminal"@, 60, 60, (Color { r: 255, g: 255, b: 255 }));
    let m5 = spec_fill_rect(m4, 50, 80, 600, 370, (Color { r: 0, g: 0, b: 0 }));
    let m6 = draw_string_from(m5, "> Welcome to Orbita OS"@, 60, 90, (Color { r: 0, g: 255, b: 0 }));
    let m7 = draw_string_from(m6, "> System initialized"@, 60, 105, (Color { r: 0, g: 255, b: 0 }));
    draw_string_from(m7, "> _"@, 60, 120, (Color { r: 0, g: 255, b: 0 }))
}

/// Draw the bring-up screen: the bottom task bar, then the terminal
/// window frame, body and greeting lines.
pub fn draw_ui(fb: &mut Framebuffer)
    requires
        old(fb).wf(),
        old(fb)@.height >= 40,
    ensures
        final(fb).wf(),
        final(fb)@ == spec_draw_ui(old(fb)@),
{
    // Task bar
    let w = fb.width();
    let h = fb.height();
    fb.fill_rect(0, h - 40, w, 40, Color::new(64, 64, 64));
    proof {
        reveal_strlit("Orbita OS");
    }
    fb.draw_string("Orbita OS", 10, h - 30, Color::new(255, 255, 255));

    // Terminal window
    let terminal_x: usize = 50;
    let terminal_y: usize = 50;
    let terminal_width: usize = 600;
    let terminal_height: usize = 400;

    // Title bar
    fb.fill_rect(terminal_x, terminal_y, terminal_width, 30, Color::new(128, 128, 128));
    proof {
        reveal_strlit("Terminal");
    }
    fb.draw_string("Terminal", terminal_x + 10, terminal_y + 10, Color::new(255, 255, 255));

    // Window body
    fb.fill_rect(
        terminal_x,
        terminal_y + 30,
        terminal_width,
        terminal_height - 30,
        Color::new(0, 0, 0),
    );
    proof {
        reveal_strlit("> Welcome to Orbita OS");
        reveal_strlit("> System initialized");
        reveal_strlit("> _");
    }
    fb.draw_string(
        "> Welcome to Orbita OS",
        terminal_x + 10,
        terminal_y + 40,
        Color::new(0, 255, 0),
    );
    fb.draw_string("> System initialized", terminal_x + 10, terminal_y + 55, Color::new(0, 255, 0));
    fb.draw_string("> _", terminal_x + 10, terminal_y + 70, Color::new(0, 255, 0));
}

} // verus!
