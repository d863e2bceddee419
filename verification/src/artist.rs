//! Drawing text and bitmaps on a 320 by 200 screen of 8-bit palette colors,
//! directly or through a double buffer.
use vstd::prelude::*;
use crate::physics::Point;
use crate::num::Integer;
use vstd::string::StringSliceAdditionalSpecFns;

verus! {

/// The width of the screen in pixels.
pub const SCREEN_WIDTH: usize = 320;
/// The height of the screen in pixels.
pub const SCREEN_HEIGHT: usize = 200;
/// The factor by which bitmaps are scaled horizontally to fit the screen.
pub const X_SCALE: usize = 1;
/// The factor by which bitmaps are scaled vertically to fit the screen.
pub const Y_SCALE: usize = 1;
/// The height of a character of the font.
pub const FONT_HEIGHT: usize = 8;
/// The width of a character of the font.
pub const FONT_WIDTH: usize = 8;
/// The number of pixels of the screen.
pub const DOUBLE_BUFFER_SIZE: usize = 64000;

/// A color of the default VGA palette.
#[derive(Copy, Clone, Debug, PartialEq, Eq, Structural)]
pub struct Color(pub u8);

impl Color {
    pub const Black: u8 = 0x0;
    pub const Blue: u8 = 0x1;
    pub const Green: u8 = 0x2;
    pub const Cyan: u8 = 0x3;
    pub const Red: u8 = 0x4;
    pub const Magenta: u8 = 0x5;
    pub const Brown: u8 = 0x6;
    pub const LightGray: u8 = 0x7;
    pub const DarkGray: u8 = 0x8;
    pub const LightBlue: u8 = 0x9;
    pub const LightGreen: u8 = 0xa;
    pub const LightCyan: u8 = 0xb;
    pub const LightRed: u8 = 0xc;
    pub const Pink: u8 = 0xd;
    pub const Yellow: u8 = 0xe;
    pub const White: u8 = 0xf;
    pub const Purple: u8 = 0x6b;

    /// The color with palette index `color`.
    pub fn new(color: u8) -> (r: Color)
        ensures
            r.0 == color,
    {
        Color(color)
    }
}

/// Colors that bitmaps can be drawn with.
pub trait Hue: Sized {
    /// The color that a byte of a bitmap's pixel array stands for.
    fn from_bitmap_data(raw_color: u8) -> Self;

    /// The color as a 32-bit number.
    fn to_num(&self) -> u32;
}

impl Hue for Color {
    /// The palette index is the color itself.
    fn from_bitmap_data(raw_color: u8) -> (r: Color)
        ensures
            r.0 == raw_color,
    {
        Color(raw_color)
    }

    /// The index repeated in the four bytes.
    fn to_num(&self) -> (r: u32)
        ensures
            r == self.0 as u32 * 0x0101_0101,
    {
        let b = self.0 as u32;
        assert((b << 24u32) | (b << 16u32) | (b << 8u32) | b == b * 0x0101_0101) by (bit_vector)
            requires
                b < 256,
        ;
        (b << 24u32) | (b << 16u32) | (b << 8u32) | b
    }
}

} // verus!

verus! {

/// Whether bit `col` from the left of row `row` of a glyph is set.
pub open spec fn glyph_bit(glyph: [u8; 8], row: int, col: int) -> bool {
    glyph@[row] & (1u8 << ((7 - col) as u8)) != 0
}

/// The pixels of a screen once the first `n` pixels, in row-major order, of
/// the glyph with its top-left corner at (`x0`, `y0`) are drawn: set bits in
/// `fg`, clear ones in `bg`.
pub open spec fn glyph_drawn<C>(
    buf: Seq<Seq<C>>,
    x0: int,
    y0: int,
    glyph: [u8; 8],
    fg: C,
    bg: C,
    n: int,
) -> Seq<Seq<C>> {
    Seq::new(
        buf.len(),
        |r: int|
            Seq::new(
                buf[r].len(),
                |c: int|
                    if y0 <= r < y0 + 8 && x0 <= c < x0 + 8 && (r - y0) * 8 + (c - x0) < n {
                        if glyph_bit(glyph, r - y0, c - x0) {
                            fg
                        } else {
                            bg
                        }
                    } else {
                        buf[r][c]
                    },
            ),
    )
}

/// Whether a buffer has the rows and columns of the screen.
pub open spec fn screen_shaped<C>(buf: Seq<Seq<C>>) -> bool {
    &&& buf.len() == SCREEN_HEIGHT
    &&& forall|r: int| 0 <= r < buf.len() ==> #[trigger] buf[r].len() == SCREEN_WIDTH
}

/// Drawing a glyph keeps the shape of the screen.
proof fn lemma_glyph_drawn_shape<C>(buf: Seq<Seq<C>>, x0: int, y0: int, glyph: [u8; 8], fg: C, bg: C, n: int)
    requires
        screen_shaped(buf),
    ensures
        screen_shaped(glyph_drawn(buf, x0, y0, glyph, fg, bg, n)),
{
}

/// Draws a glyph with its top-left corner at (`x0`, `y0`).
pub fn draw_glyph<C: Copy>(
    buf: &mut std::vec::Vec<std::vec::Vec<C>>,
    x0: usize,
    y0: usize,
    glyph: [u8; 8],
    fg: C,
    bg: C,
)
    requires
        screen_shaped(old(buf)@.map_values(|row: std::vec::Vec<C>| row@)),
        x0 + FONT_WIDTH <= SCREEN_WIDTH,
        y0 + FONT_HEIGHT <= SCREEN_HEIGHT,
    ensures
        final(buf)@.map_values(|row: std::vec::Vec<C>| row@) == glyph_drawn(
            old(buf)@.map_values(|row: std::vec::Vec<C>| row@),
            x0 as int,
            y0 as int,
            glyph,
            fg,
            bg,
            64,
        ),
        screen_shaped(final(buf)@.map_values(|row: std::vec::Vec<C>| row@)),
{
    proof {
        lemma_glyph_drawn_shape(old(buf)@.map_values(|row: std::vec::Vec<C>| row@), x0 as int, y0 as int, glyph, fg, bg, 64);
    }
    let ghost start = buf@.map_values(|row: std::vec::Vec<C>| row@);
    assert(glyph_drawn(start, x0 as int, y0 as int, glyph, fg, bg, 0) =~~= start);
    let mut y: usize = 0;
    while y < FONT_HEIGHT
        invariant
            y <= FONT_HEIGHT,
            x0 + FONT_WIDTH <= SCREEN_WIDTH,
            y0 + FONT_HEIGHT <= SCREEN_HEIGHT,
            screen_shaped(start),
            buf@.map_values(|row: std::vec::Vec<C>| row@) == glyph_drawn(start, x0 as int, y0 as int, glyph, fg, bg, y * 8),
        decreases FONT_HEIGHT - y,
    {
        let byte = glyph[y];
        let mut x: usize = 0;
        while x < FONT_WIDTH
            invariant
                y < FONT_HEIGHT,
                x <= FONT_WIDTH,
                byte == glyph@[y as int],
                x0 + FONT_WIDTH <= SCREEN_WIDTH,
                y0 + FONT_HEIGHT <= SCREEN_HEIGHT,
                screen_shaped(start),
                buf@.map_values(|row: std::vec::Vec<C>| row@) == glyph_drawn(start, x0 as int, y0 as int, glyph, fg, bg, y * 8 + x),
            decreases FONT_WIDTH - x,
        {
            let ghost before = buf@.map_values(|row: std::vec::Vec<C>| row@);
            assert(before.len() == buf@.len());
            assert(before[y0 + y] == buf@[y0 + y as int]@);
            assert(before[y0 + y].len() == SCREEN_WIDTH);
            let shift: u8 = (FONT_WIDTH - x - 1) as u8;
            let color = if byte & (1u8 << shift) == 0 { bg } else { fg };
            assert(color == if glyph_bit(glyph, y as int, x as int) { fg } else { bg });
            buf[y0 + y].set(x0 + x, color);
            proof {
                let after = buf@.map_values(|row: std::vec::Vec<C>| row@);
                let target = glyph_drawn(start, x0 as int, y0 as int, glyph, fg, bg, y * 8 + x + 1);
                assert(after[y0 + y] =~= before[y0 + y].update(x0 + x, color));
                assert forall|r: int| 0 <= r < after.len() && r != y0 + y implies after[r] == before[r] by {}
                assert forall|r: int| 0 <= r < after.len() implies after[r] =~= target[r] by {
                    if r == y0 + y {
                        assert forall|c: int| 0 <= c < after[r].len() implies after[r][c] == target[r][c] by {}
                    }
                }
                assert(after =~~= target);
            }
            x = x + 1;
        }
        y = y + 1;
    }
}

} // verus!

verus! {

/// A foreground and a background color for text.
#[derive(Copy, Clone, Debug, PartialEq, Eq, Structural)]
pub struct ColorCode(pub Color, pub Color);

impl ColorCode {
    /// The background color.
    pub fn background(&self) -> (r: Color)
        ensures
            r == self.1,
    {
        self.1
    }

    /// The foreground color.
    pub fn foreground(&self) -> (r: Color)
        ensures
            r == self.0,
    {
        self.0
    }
}

/// Where the artist writes text.
#[derive(Copy, Clone, Debug, PartialEq, Eq, Structural)]
pub enum WriteTarget {
    VGABuffer,
    DoubleBuffer,
}

/// Whether a byte is a printable ASCII character, space to tilde.
pub open spec fn printable_ascii(c: u8) -> bool {
    0x20 <= c <= 0x7e
}

/// Whether `c` is a printable ASCII character.
pub fn is_printable_ascii(c: u8) -> (r: bool)
    ensures
        r == printable_ascii(c),
{
    0x20 <= c && c <= 0x7e
}

/// Whether the pixel (`dx`, `dy`) away from `pos` is on the screen.
pub open spec fn within_screen(pos: Point, dx: int, dy: int) -> bool {
    pos.1 >= 0 && pos.0 >= 0 && pos.1 + dy < SCREEN_HEIGHT && pos.0 + dx < SCREEN_WIDTH
}

/// Whether the pixel (`dx`, `dy`) away from `pos` is on the screen.
pub fn pos_is_within_screen_bounds(pos: Point, dx: usize, dy: usize) -> (r: bool)
    requires
        pos.1 >= 0 && pos.0 >= 0 ==> pos.1 + dy <= usize::MAX,
        pos.1 >= 0 && pos.0 >= 0 && pos.1 + dy < SCREEN_HEIGHT ==> pos.0 + dx <= usize::MAX,
    ensures
        r == within_screen(pos, dx as int, dy as int),
{
    pos.1 >= 0 && pos.0 >= 0 && (pos.1 as usize) + dy < SCREEN_HEIGHT && (pos.0 as usize) + dx < SCREEN_WIDTH
}

/// The screen as rows of pixels.
pub open spec fn rows_of(buf: Seq<std::vec::Vec<Color>>) -> Seq<Seq<Color>> {
    buf.map_values(|row: std::vec::Vec<Color>| row@)
}

/// A screen of one color.
pub open spec fn filled_screen(color: Color) -> Seq<Seq<Color>> {
    Seq::new(SCREEN_HEIGHT as nat, |r: int| Seq::new(SCREEN_WIDTH as nat, |c: int| color))
}

/// Writes text and draws bitmaps on the screen and in a double buffer.
pub struct Artist {
    pub x_pos: usize,
    pub y_pos: usize,
    pub color_code: ColorCode,
    /// The pixels of the screen, row by row.
    pub vga_buffer: std::vec::Vec<std::vec::Vec<Color>>,
    /// The pixels of the double buffer, row by row.
    pub double_buffer: std::vec::Vec<std::vec::Vec<Color>>,
    /// The glyphs of the font, indexed by ASCII code.
    pub font: std::vec::Vec<[u8; 8]>,
}

impl Artist {
    /// The pixels of the screen.
    pub open spec fn screen(&self) -> Seq<Seq<Color>> {
        rows_of(self.vga_buffer@)
    }

    /// The pixels of the double buffer.
    pub open spec fn back(&self) -> Seq<Seq<Color>> {
        rows_of(self.double_buffer@)
    }

    /// The glyphs of the font, indexed by ASCII code.
    pub open spec fn glyphs(&self) -> Seq<[u8; 8]> {
        self.font@
    }

    /// The buffer that a write target names.
    pub open spec fn target_buffer(&self, target: WriteTarget) -> Seq<Seq<Color>> {
        match target {
            WriteTarget::VGABuffer => self.screen(),
            WriteTarget::DoubleBuffer => self.back(),
        }
    }

    /// Both buffers have the shape of the screen, the font has a glyph for
    /// every ASCII code, and the writing position is at a character cell of
    /// the line.
    pub open spec fn wf(&self) -> bool {
        &&& screen_shaped(self.screen())
        &&& screen_shaped(self.back())
        &&& self.glyphs().len() >= 128
        &&& self.x_pos % 8 == 0
        &&& self.x_pos < SCREEN_WIDTH
    }

    /// An artist writing yellow on black at the top left, with both buffers
    /// black and the glyphs of `font`.
    pub fn new(font: std::vec::Vec<[u8; 8]>) -> (r: Artist)
        requires
            font@.len() >= 128,
        ensures
            r.wf(),
            r.x_pos == 0,
            r.y_pos == 0,
            r.color_code == ColorCode(Color(Color::Yellow), Color(Color::Black)),
            r.screen() == filled_screen(Color(Color::Black)),
            r.back() == filled_screen(Color(Color::Black)),
            r.glyphs() == font@,
    {
        let vga_buffer = filled_buffer(Color(Color::Black));
        let double_buffer = filled_buffer(Color(Color::Black));
        Artist {
            x_pos: 0,
            y_pos: 0,
            color_code: ColorCode(Color(Color::Yellow), Color(Color::Black)),
            vga_buffer,
            double_buffer,
            font,
        }
    }
}

/// A screen-sized buffer of one color.
fn filled_buffer(color: Color) -> (r: std::vec::Vec<std::vec::Vec<Color>>)
    ensures
        rows_of(r@) == filled_screen(color),
{
    let mut rows: std::vec::Vec<std::vec::Vec<Color>> = std::vec::Vec::new();
    while rows.len() < SCREEN_HEIGHT
        invariant
            rows.len() <= SCREEN_HEIGHT,
            forall|r: int| 0 <= r < rows.len() ==> #[trigger] rows@[r]@ == Seq::new(SCREEN_WIDTH as nat, |c: int| color),
        decreases SCREEN_HEIGHT - rows.len(),
    {
        let mut row: std::vec::Vec<Color> = std::vec::Vec::new();
        while row.len() < SCREEN_WIDTH
            invariant
                row.len() <= SCREEN_WIDTH,
                forall|c: int| 0 <= c < row.len() ==> #[trigger] row@[c] == color,
            decreases SCREEN_WIDTH - row.len(),
        {
            row.push(color);
        }
        assert(row@ =~= Seq::new(SCREEN_WIDTH as nat, |c: int| color));
        rows.push(row);
    }
    assert(rows_of(rows@) =~~= filled_screen(color));
    rows
}

} // verus!

verus! {

/// The character that a byte is drawn as: a printable one as itself, any
/// other as a question mark.
pub open spec fn drawn_char(c: u8) -> u8 {
    if printable_ascii(c) {
        c
    } else {
        0x3f
    }
}

/// Where text continues after a character written at (`x`, `y`).
pub open spec fn pen_after_char(x: int, y: int) -> (int, int) {
    let x1 = x + FONT_WIDTH * X_SCALE;
    let (x2, y1) = if x1 >= SCREEN_WIDTH { (0, y + FONT_HEIGHT * Y_SCALE) } else { (x1, y) };
    let y2 = if y1 >= SCREEN_HEIGHT - FONT_HEIGHT * Y_SCALE { 0 } else { y1 };
    (x2, y2)
}

/// The writing position and the target buffer after one byte, from the
/// position (`x`, `y`) and the buffer `buf`.
pub open spec fn text_step(
    x: int,
    y: int,
    buf: Seq<Seq<Color>>,
    c: u8,
    glyphs: Seq<[u8; 8]>,
    code: ColorCode,
) -> (int, int, Seq<Seq<Color>>) {
    if c == 0x0a {
        (0, y + FONT_HEIGHT * Y_SCALE, buf)
    } else {
        let (x2, y2) = pen_after_char(x, y);
        (x2, y2, glyph_drawn(buf, x, y, glyphs[drawn_char(c) as int], code.0, code.1, 64))
    }
}

/// Whether a byte can be written at (`x`, `y`): a character must fit below
/// the position, and a line feed must not run past the largest position.
pub open spec fn text_step_defined(x: int, y: int, c: u8) -> bool {
    if c == 0x0a {
        y + FONT_HEIGHT * Y_SCALE <= usize::MAX
    } else {
        y + FONT_HEIGHT * Y_SCALE <= SCREEN_HEIGHT
    }
}

/// The writing position and the target buffer after a string of bytes.
pub open spec fn text_after(
    x: int,
    y: int,
    buf: Seq<Seq<Color>>,
    s: Seq<u8>,
    glyphs: Seq<[u8; 8]>,
    code: ColorCode,
) -> (int, int, Seq<Seq<Color>>)
    decreases s.len(),
{
    if s.len() == 0 {
        (x, y, buf)
    } else {
        let (x1, y1, b1) = text_after(x, y, buf, s.drop_last(), glyphs, code);
        text_step(x1, y1, b1, s.last(), glyphs, code)
    }
}

/// Whether every byte of a string can be written in turn.
pub open spec fn text_defined(
    x: int,
    y: int,
    buf: Seq<Seq<Color>>,
    s: Seq<u8>,
    glyphs: Seq<[u8; 8]>,
    code: ColorCode,
) -> bool
    decreases s.len(),
{
    if s.len() == 0 {
        true
    } else {
        let (x1, y1, b1) = text_after(x, y, buf, s.drop_last(), glyphs, code);
        text_defined(x, y, buf, s.drop_last(), glyphs, code) && text_step_defined(x1, y1, s.last())
    }
}

/// Writing a string and then the byte `c`, as `write_byte` does it, is
/// writing the string with `c` at its end: a string is written byte by
/// byte, each byte as `write_byte` writes it.
pub proof fn law_text_byte_by_byte(
    x: int,
    y: int,
    buf: Seq<Seq<Color>>,
    s: Seq<u8>,
    c: u8,
    glyphs: Seq<[u8; 8]>,
    code: ColorCode,
)
    ensures
        ({
            let (x1, y1, b1) = text_after(x, y, buf, s, glyphs, code);
            &&& text_after(x, y, buf, s.push(c), glyphs, code) == text_step(x1, y1, b1, c, glyphs, code)
            &&& text_defined(x, y, buf, s.push(c), glyphs, code) == (text_defined(x, y, buf, s, glyphs, code)
                && text_step_defined(x1, y1, c))
        }),
{
    assert(s.push(c).drop_last() =~= s);
}

/// Writing `s1` and then `s2` is writing `s1 + s2`: the position and the
/// buffer come out the same, and the whole can be written exactly when `s1`
/// can and `s2` can from where `s1` leaves off.
pub proof fn law_text_append(
    x: int,
    y: int,
    buf: Seq<Seq<Color>>,
    s1: Seq<u8>,
    s2: Seq<u8>,
    glyphs: Seq<[u8; 8]>,
    code: ColorCode,
)
    ensures
        ({
            let (x1, y1, b1) = text_after(x, y, buf, s1, glyphs, code);
            &&& text_after(x, y, buf, s1 + s2, glyphs, code) == text_after(x1, y1, b1, s2, glyphs, code)
            &&& text_defined(x, y, buf, s1 + s2, glyphs, code) == (text_defined(x, y, buf, s1, glyphs, code)
                && text_defined(x1, y1, b1, s2, glyphs, code))
        }),
    decreases s2.len(),
{
    if s2.len() == 0 {
        assert(s1 + s2 =~= s1);
    } else {
        law_text_append(x, y, buf, s1, s2.drop_last(), glyphs, code);
        assert((s1 + s2).drop_last() =~= s1 + s2.drop_last());
        assert((s1 + s2).last() == s2.last());
    }
}

impl Artist {
    /// Moves to the start of the next line of text.
    pub fn newline(&mut self)
        requires
            old(self).y_pos + FONT_HEIGHT * Y_SCALE <= usize::MAX,
        ensures
            final(self).x_pos == 0,
            final(self).y_pos == old(self).y_pos + FONT_HEIGHT * Y_SCALE,
            final(self).color_code == old(self).color_code,
            final(self).vga_buffer@ == old(self).vga_buffer@,
            final(self).double_buffer@ == old(self).double_buffer@,
            final(self).font@ == old(self).font@,
    {
        self.y_pos = self.y_pos + FONT_HEIGHT * Y_SCALE;
        self.x_pos = 0;
    }

    /// Moves to the top left of the screen.
    pub fn reset_writing_pos(&mut self)
        ensures
            final(self).x_pos == 0,
            final(self).y_pos == 0,
            final(self).color_code == old(self).color_code,
            final(self).vga_buffer@ == old(self).vga_buffer@,
            final(self).double_buffer@ == old(self).double_buffer@,
            final(self).font@ == old(self).font@,
    {
        self.x_pos = 0;
        self.y_pos = 0;
    }

    /// Writes a byte at the writing position: a line feed moves to the next
    /// line; a printable character is drawn in the text colors and the
    /// position moves on, to the next line at the end of one and back to the
    /// top near the bottom of the screen; any other byte is drawn as a
    /// question mark.
    pub fn write_byte(&mut self, c: u8, write_target: WriteTarget)
        requires
            old(self).wf(),
            text_step_defined(old(self).x_pos as int, old(self).y_pos as int, c),
        ensures
            final(self).wf(),
            final(self).color_code == old(self).color_code,
            final(self).font@ == old(self).font@,
            ({
                let (x1, y1, b1) = text_step(
                    old(self).x_pos as int,
                    old(self).y_pos as int,
                    old(self).target_buffer(write_target),
                    c,
                    old(self).glyphs(),
                    old(self).color_code,
                );
                &&& final(self).x_pos == x1
                &&& final(self).y_pos == y1
                &&& final(self).target_buffer(write_target) == b1
            }),
            write_target == WriteTarget::VGABuffer ==> final(self).double_buffer@ == old(self).double_buffer@,
            write_target == WriteTarget::DoubleBuffer ==> final(self).vga_buffer@ == old(self).vga_buffer@,
    {
        if c == 0x0a {
            self.newline();
            return;
        }
        let ch = if is_printable_ascii(c) { c } else { 0x3f };
        let glyph = self.font[ch as usize];
        let fg = self.color_code.foreground();
        let bg = self.color_code.background();
        match write_target {
            WriteTarget::VGABuffer => draw_glyph(&mut self.vga_buffer, self.x_pos, self.y_pos, glyph, fg, bg),
            WriteTarget::DoubleBuffer => draw_glyph(&mut self.double_buffer, self.x_pos, self.y_pos, glyph, fg, bg),
        }
        self.x_pos = self.x_pos + FONT_WIDTH * X_SCALE;
        if self.x_pos >= SCREEN_WIDTH {
            self.newline();
            self.x_pos = 0;
        }
        if self.y_pos >= SCREEN_HEIGHT - FONT_HEIGHT * Y_SCALE {
            self.y_pos = 0;
        }
    }
}

} // verus!

verus! {

/// A string whose bytes can all be written has every prefix writable.
proof fn lemma_text_defined_prefix(
    x: int,
    y: int,
    buf: Seq<Seq<Color>>,
    s: Seq<u8>,
    glyphs: Seq<[u8; 8]>,
    code: ColorCode,
    n: int,
)
    requires
        text_defined(x, y, buf, s, glyphs, code),
        0 <= n <= s.len(),
    ensures
        text_defined(x, y, buf, s.take(n), glyphs, code),
    decreases s.len(),
{
    if n < s.len() {
        assert(s.drop_last().take(n) == s.take(n));
        lemma_text_defined_prefix(x, y, buf, s.drop_last(), glyphs, code, n);
    } else {
        assert(s.take(n) == s);
    }
}

impl Artist {
    /// Writes the bytes of `s` one after the other.
    pub fn write_string(&mut self, s: &str, write_target: WriteTarget)
        requires
            old(self).wf(),
            text_defined(
                old(self).x_pos as int,
                old(self).y_pos as int,
                old(self).target_buffer(write_target),
                s.spec_bytes(),
                old(self).glyphs(),
                old(self).color_code,
            ),
        ensures
            final(self).wf(),
            final(self).color_code == old(self).color_code,
            final(self).font@ == old(self).font@,
            ({
                let (x1, y1, b1) = text_after(
                    old(self).x_pos as int,
                    old(self).y_pos as int,
                    old(self).target_buffer(write_target),
                    s.spec_bytes(),
                    old(self).glyphs(),
                    old(self).color_code,
                );
                &&& final(self).x_pos == x1
                &&& final(self).y_pos == y1
                &&& final(self).target_buffer(write_target) == b1
            }),
            write_target == WriteTarget::VGABuffer ==> final(self).double_buffer@ == old(self).double_buffer@,
            write_target == WriteTarget::DoubleBuffer ==> final(self).vga_buffer@ == old(self).vga_buffer@,
    {
        let bytes = s.as_bytes();
        let ghost x0 = self.x_pos as int;
        let ghost y0 = self.y_pos as int;
        let ghost b0 = self.target_buffer(write_target);
        let mut i: usize = 0;
        while i < bytes.len()
            invariant
                self.wf(),
                bytes@ == s.spec_bytes(),
                i <= bytes.len(),
                self.color_code == old(self).color_code,
                self.font@ == old(self).font@,
                x0 == old(self).x_pos,
                y0 == old(self).y_pos,
                b0 == old(self).target_buffer(write_target),
                text_defined(x0, y0, b0, bytes@, self.glyphs(), self.color_code),
                ({
                    let (x1, y1, b1) = text_after(x0, y0, b0, bytes@.take(i as int), self.glyphs(), self.color_code);
                    &&& self.x_pos == x1
                    &&& self.y_pos == y1
                    &&& self.target_buffer(write_target) == b1
                }),
                write_target == WriteTarget::VGABuffer ==> self.double_buffer@ == old(self).double_buffer@,
                write_target == WriteTarget::DoubleBuffer ==> self.vga_buffer@ == old(self).vga_buffer@,
            decreases bytes.len() - i,
        {
            proof {
                lemma_text_defined_prefix(x0, y0, b0, bytes@, self.glyphs(), self.color_code, i + 1);
                assert(bytes@.take(i + 1).drop_last() == bytes@.take(i as int));
            }
            self.write_byte(bytes[i], write_target);
            i = i + 1;
        }
        assert(bytes@.take(i as int) == bytes@);
    }

    /// Writes the bytes of `s` in the double buffer.
    pub fn write_string_in_double_buffer(&mut self, s: &str)
        requires
            old(self).wf(),
            text_defined(
                old(self).x_pos as int,
                old(self).y_pos as int,
                old(self).back(),
                s.spec_bytes(),
                old(self).glyphs(),
                old(self).color_code,
            ),
        ensures
            final(self).wf(),
            final(self).color_code == old(self).color_code,
            final(self).font@ == old(self).font@,
            ({
                let (x1, y1, b1) = text_after(
                    old(self).x_pos as int,
                    old(self).y_pos as int,
                    old(self).back(),
                    s.spec_bytes(),
                    old(self).glyphs(),
                    old(self).color_code,
                );
                &&& final(self).x_pos == x1
                &&& final(self).y_pos == y1
                &&& final(self).back() == b1
            }),
            final(self).vga_buffer@ == old(self).vga_buffer@,
    {
        self.write_string(s, WriteTarget::DoubleBuffer);
    }
}

} // verus!

verus! {

/// Which pixels of a bitmap are left out when it is drawn.
#[derive(Copy, Clone, Debug, PartialEq, Eq, Structural)]
pub enum Transparency {
    /// Black pixels are left out.
    Black,
    /// Every pixel is drawn.
    Opaque,
}

/// A bitmap scaled to the screen: `height` rows of `width` colors, stored
/// bottom row first.
pub struct ScaledBitmap {
    pub width: usize,
    pub height: usize,
    pub image_data: std::vec::Vec<Color>,
    pub transparency: Transparency,
}

impl ScaledBitmap {
    /// The number of pixels in a row.
    pub fn width(&self) -> (r: usize)
        ensures
            r == self.width,
    {
        self.width
    }

    /// The number of rows.
    pub fn height(&self) -> (r: usize)
        ensures
            r == self.height,
    {
        self.height
    }

    /// The image data holds every row.
    pub open spec fn wf(&self) -> bool {
        self.width * self.height <= self.image_data@.len()
    }

    /// The color of the pixel `x` from the left in row `y` from the top.
    pub open spec fn pixel(&self, x: int, y: int) -> Color {
        self.image_data@[(self.height - y - 1) * self.width + x]
    }

    /// Whether the pixel is left out when the bitmap is drawn.
    pub open spec fn skips(&self, x: int, y: int) -> bool {
        self.transparency == Transparency::Black && self.pixel(x, y).0 == Color::Black
    }
}

/// The buffer once the pixels of `bm` at `pos` that are on the screen and not
/// left out are painted: in the bitmap's colors, or all in `fill` when given.
/// Only the pixels of rows above `row`, and of row `row` left of `col`, are
/// painted.
pub open spec fn painted_upto(
    buf: Seq<Seq<Color>>,
    pos: Point,
    bm: ScaledBitmap,
    fill: Option<Color>,
    row: int,
    col: int,
) -> Seq<Seq<Color>> {
    Seq::new(
        buf.len(),
        |r: int|
            Seq::new(
                buf[r].len(),
                |c: int|
                    {
                        let y = r - pos.1;
                        let x = c - pos.0;
                        if 0 <= y < bm.height && 0 <= x < bm.width && (y < row || (y == row && x < col))
                            && within_screen(pos, x, y) && !bm.skips(x, y) {
                            match fill {
                                Some(f) => f,
                                None => bm.pixel(x, y),
                            }
                        } else {
                            buf[r][c]
                        }
                    },
            ),
    )
}

/// The buffer once all of `bm` is painted at `pos`.
pub open spec fn painted(buf: Seq<Seq<Color>>, pos: Point, bm: ScaledBitmap, fill: Option<Color>) -> Seq<Seq<Color>> {
    painted_upto(buf, pos, bm, fill, bm.height as int, 0)
}

proof fn lemma_row_index(w: int, h: int, x: int, y: int)
    requires
        0 <= x < w,
        0 <= y < h,
    ensures
        0 <= (h - y - 1) * w + x < w * h,
{
    assert(0 <= (h - y - 1) * w) by (nonlinear_arith)
        requires
            h - y - 1 >= 0,
            w >= 0,
    ;
    assert((h - y - 1) * w + x < w * h) by (nonlinear_arith)
        requires
            0 <= x < w,
            0 <= y < h,
    ;
}

/// Paints `bm` at `pos` into a screen buffer.
fn paint_bitmap(buf: &mut std::vec::Vec<std::vec::Vec<Color>>, pos: Point, bm: &ScaledBitmap, fill: Option<Color>)
    requires
        screen_shaped(rows_of(old(buf)@)),
        bm.wf(),
    ensures
        rows_of(final(buf)@) == painted(rows_of(old(buf)@), pos, *bm, fill),
        screen_shaped(rows_of(final(buf)@)),
{
    let ghost start = rows_of(buf@);
    assert(painted_upto(start, pos, *bm, fill, 0, 0) =~~= start);
    let h = bm.height();
    let w = bm.width();
    let mut y: usize = 0;
    while y < h
        invariant
            h == bm.height,
            w == bm.width,
            y <= h,
            bm.wf(),
            screen_shaped(start),
            rows_of(buf@) == painted_upto(start, pos, *bm, fill, y as int, 0),
        decreases h - y,
    {
        let mut x: usize = 0;
        while x < w
            invariant
                h == bm.height,
                w == bm.width,
                y < h,
                x <= w,
                bm.wf(),
                screen_shaped(start),
                rows_of(buf@) == painted_upto(start, pos, *bm, fill, y as int, x as int),
            decreases w - x,
        {
            let ghost before = rows_of(buf@);
            let inside = pos.1 >= 0 && pos.0 >= 0 && (pos.1 as usize) < SCREEN_HEIGHT && y < SCREEN_HEIGHT
                - (pos.1 as usize) && (pos.0 as usize) < SCREEN_WIDTH && x < SCREEN_WIDTH - (pos.0 as usize);
            assert(inside == within_screen(pos, x as int, y as int));
            if inside {
                proof {
                    lemma_row_index(w as int, h as int, x as int, y as int);
                    assert((h - y - 1) * w + x < bm.image_data@.len());
                    assert((h - y - 1) * w <= (h - y - 1) * w + x);
                    assert(bm.image_data@.len() == bm.image_data.len());
                }
                let row_from_bottom: usize = h - y - 1;
                let start_of_row: usize = row_from_bottom * w;
                let color = bm.image_data[start_of_row + x];
                if !(bm.transparency == Transparency::Black && color.0 == Color::Black) {
                    let r = (pos.1 as usize) + y;
                    let c = (pos.0 as usize) + x;
                    let value = match fill {
                        Some(f) => f,
                        None => color,
                    };
                    assert(r < SCREEN_HEIGHT && c < SCREEN_WIDTH);
                    assert(before.len() == buf@.len());
                    assert(before.len() == SCREEN_HEIGHT);
                    assert(before[r as int] == buf@[r as int]@);
                    assert(before[r as int].len() == SCREEN_WIDTH);
                    buf[r].set(c, value);
                    proof {
                        let after = rows_of(buf@);
                        let target = painted_upto(start, pos, *bm, fill, y as int, x + 1);
                        assert(after[r as int] =~= before[r as int].update(c as int, value));
                        assert forall|rr: int| 0 <= rr < after.len() && rr != r implies after[rr] == before[rr] by {}
                        assert forall|rr: int| 0 <= rr < after.len() implies after[rr] =~= target[rr] by {}
                        assert(after =~~= target);
                    }
                } else {
                    assert(rows_of(buf@) =~~= painted_upto(start, pos, *bm, fill, y as int, x + 1));
                }
            } else {
                assert(rows_of(buf@) =~~= painted_upto(start, pos, *bm, fill, y as int, x + 1));
            }
            x = x + 1;
        }
        assert(painted_upto(start, pos, *bm, fill, y as int, w as int) =~~= painted_upto(start, pos, *bm, fill, y + 1, 0));
        y = y + 1;
    }
}

} // verus!

verus! {

impl Artist {
    /// Draws `bitmap` with its top-left corner at `pos` in the double buffer,
    /// leaving out the pixels off the screen and the transparent ones.
    pub fn draw_scaled_bitmap_in_double_buffer(&mut self, pos: Point, bitmap: &ScaledBitmap)
        requires
            old(self).wf(),
            bitmap.wf(),
        ensures
            final(self).wf(),
            final(self).back() == painted(old(self).back(), pos, *bitmap, None),
            final(self).vga_buffer@ == old(self).vga_buffer@,
            final(self).x_pos == old(self).x_pos,
            final(self).y_pos == old(self).y_pos,
            final(self).color_code == old(self).color_code,
            final(self).font@ == old(self).font@,
    {
        paint_bitmap(&mut self.double_buffer, pos, bitmap, None);
    }

    /// Paints the pixels that `bitmap` at `pos` would draw in the double
    /// buffer with `background`.
    pub fn erase_scaled_bitmap_from_double_buffer(&mut self, bitmap: &ScaledBitmap, pos: Point, background: &Color)
        requires
            old(self).wf(),
            bitmap.wf(),
        ensures
            final(self).wf(),
            final(self).back() == painted(old(self).back(), pos, *bitmap, Some(*background)),
            final(self).vga_buffer@ == old(self).vga_buffer@,
            final(self).x_pos == old(self).x_pos,
            final(self).y_pos == old(self).y_pos,
            final(self).color_code == old(self).color_code,
            final(self).font@ == old(self).font@,
    {
        paint_bitmap(&mut self.double_buffer, pos, bitmap, Some(*background));
    }

    /// Erases `bitmap` at `old_pos` with `background` and draws it at `new_pos`.
    pub fn move_scaled_bitmap_in_double_buffer(
        &mut self,
        bitmap: &ScaledBitmap,
        old_pos: Point,
        new_pos: Point,
        background: &Color,
    )
        requires
            old(self).wf(),
            bitmap.wf(),
        ensures
            final(self).wf(),
            final(self).back() == painted(
                painted(old(self).back(), old_pos, *bitmap, Some(*background)),
                new_pos,
                *bitmap,
                None,
            ),
            final(self).vga_buffer@ == old(self).vga_buffer@,
            final(self).x_pos == old(self).x_pos,
            final(self).y_pos == old(self).y_pos,
            final(self).color_code == old(self).color_code,
            final(self).font@ == old(self).font@,
    {
        self.erase_scaled_bitmap_from_double_buffer(bitmap, old_pos, background);
        self.draw_scaled_bitmap_in_double_buffer(new_pos, bitmap);
    }

    /// Fills the double buffer with `color`.
    pub fn draw_background_in_double_buffer(&mut self, color: &Color)
        requires
            old(self).wf(),
        ensures
            final(self).wf(),
            final(self).back() == filled_screen(*color),
            final(self).vga_buffer@ == old(self).vga_buffer@,
            final(self).x_pos == old(self).x_pos,
            final(self).y_pos == old(self).y_pos,
            final(self).color_code == old(self).color_code,
            final(self).font@ == old(self).font@,
    {
        self.double_buffer = filled_buffer(*color);
    }

    /// Copies the double buffer to the screen.
    pub fn draw_on_screen_from_double_buffer(&mut self)
        requires
            old(self).wf(),
        ensures
            final(self).wf(),
            final(self).screen() == old(self).back(),
            final(self).double_buffer@ == old(self).double_buffer@,
            final(self).x_pos == old(self).x_pos,
            final(self).y_pos == old(self).y_pos,
            final(self).color_code == old(self).color_code,
            final(self).font@ == old(self).font@,
    {
        let mut copy: std::vec::Vec<std::vec::Vec<Color>> = std::vec::Vec::new();
        let mut r: usize = 0;
        while r < SCREEN_HEIGHT
            invariant
                r <= SCREEN_HEIGHT,
                screen_shaped(self.back()),
                copy@.len() == r,
                forall|k: int| 0 <= k < r ==> #[trigger] copy@[k]@ == self.back()[k],
            decreases SCREEN_HEIGHT - r,
        {
            let row = self.double_buffer[r].clone();
            assert(row@ =~= self.back()[r as int]);
            copy.push(row);
            r = r + 1;
        }
        assert(rows_of(copy@) =~~= self.back());
        self.vga_buffer = copy;
    }
}

} // verus!

verus! {

/// The size of a bitmap file's header.
pub const BITMAP_FILE_HEADER_SIZE: usize = 14;
/// The size of a BITMAPV5HEADER.
pub const BITMAP_DIB_HEADER_SIZE: usize = 124;
/// The number of colors in the default VGA palette that a bitmap's color
/// table holds.
pub const COLOR_TABLE_SIZE: usize = 254;

/// The little-endian number in the four bytes from `i`.
pub open spec fn le_u32_at(raw: Seq<u8>, i: int) -> int {
    raw[i] + raw[i + 1] * 0x100 + raw[i + 2] * 0x1_0000 + raw[i + 3] * 0x100_0000
}

/// Whether the bytes start like a bitmap file: longer than two bytes, and
/// "BM" first.
pub open spec fn bitmap_signature(raw: Seq<u8>) -> bool {
    raw.len() > 2 && raw[0] == 0x42 && raw[1] == 0x4d
}

/// The offset of the pixel array, from the file header.
pub open spec fn bitmap_data_offset(raw: Seq<u8>) -> int {
    le_u32_at(raw, 10)
}

/// The width in pixels, from the DIB header.
pub open spec fn bitmap_width(raw: Seq<u8>) -> int {
    le_u32_at(raw, 18)
}

/// The height in pixels, from the DIB header.
pub open spec fn bitmap_height(raw: Seq<u8>) -> int {
    le_u32_at(raw, 22)
}

/// Whether the headers, the color table and the pixel array that the
/// headers describe all lie within the bytes.
pub open spec fn bitmap_complete(raw: Seq<u8>) -> bool {
    &&& raw.len() >= BITMAP_FILE_HEADER_SIZE + BITMAP_DIB_HEADER_SIZE + COLOR_TABLE_SIZE
    &&& bitmap_width(raw) * bitmap_height(raw) <= usize::MAX
    &&& bitmap_data_offset(raw) + bitmap_width(raw) * bitmap_height(raw) <= raw.len()
}

/// An 8 bits per pixel bitmap in the default VGA palette.
pub struct Bitmap {
    /// The width in pixels.
    pub width: u32,
    /// The height in pixels.
    pub height: u32,
    /// The palette.
    pub color_table: std::vec::Vec<u8>,
    /// The pixel array, bottom row first.
    pub image_data: std::vec::Vec<u8>,
}

/// The little-endian number in the four bytes from `i`.
fn read_le_u32(raw: &[u8], i: usize) -> (r: u32)
    requires
        i + 4 <= raw@.len(),
    ensures
        r == le_u32_at(raw@, i as int),
{
    raw[i] as u32 + (raw[i + 1] as u32) * 0x100 + (raw[i + 2] as u32) * 0x1_0000 + (raw[i + 3] as u32) * 0x100_0000
}

/// The bytes of `raw` from `start` up to `end`.
fn copy_range(raw: &[u8], start: usize, end: usize) -> (r: std::vec::Vec<u8>)
    requires
        start <= end <= raw@.len(),
    ensures
        r@ == raw@.subrange(start as int, end as int),
{
    let mut out: std::vec::Vec<u8> = std::vec::Vec::new();
    let mut i = start;
    while i < end
        invariant
            start <= i <= end <= raw@.len(),
            out@ == raw@.subrange(start as int, i as int),
        decreases end - i,
    {
        out.push(raw[i]);
        i = i + 1;
        assert(out@ =~= raw@.subrange(start as int, i as int));
    }
    out
}

/// Whether `raw` starts like a bitmap file.
fn is_valid_bitmap(raw: &[u8]) -> (r: bool)
    ensures
        r == bitmap_signature(raw@),
{
    raw.len() > 2 && raw[0] == 0x42 && raw[1] == 0x4d
}

/// Whether `raw` can be read as a bitmap: it does not start like a bitmap
/// file, or it holds all that its headers describe.
pub fn bitmap_is_readable(raw: &[u8]) -> (r: bool)
    ensures
        r == (bitmap_signature(raw@) ==> bitmap_complete(raw@)),
{
    if !is_valid_bitmap(raw) {
        return true;
    }
    let start = BITMAP_FILE_HEADER_SIZE + BITMAP_DIB_HEADER_SIZE + COLOR_TABLE_SIZE;
    if raw.len() < start {
        return false;
    }
    let offset = read_le_u32(raw, 10) as u128;
    let width = read_le_u32(raw, 18) as u128;
    let height = read_le_u32(raw, 22) as u128;
    assert(width * height <= 0xffff_ffff_ffff_ffff) by (nonlinear_arith)
        requires
            width <= 0xffff_ffff,
            height <= 0xffff_ffff,
    ;
    let size = width * height;
    size <= usize::MAX as u128 && offset + size <= raw.len() as u128
}

impl Bitmap {
    /// The bitmap in `raw_bytes`, or an error when they do not start with "BM".
    pub fn from(raw_bytes: &[u8]) -> (r: Result<Bitmap, &'static str>)
        requires
            bitmap_signature(raw_bytes@) ==> bitmap_complete(raw_bytes@),
        ensures
            !bitmap_signature(raw_bytes@) ==> r is Err,
            bitmap_signature(raw_bytes@) ==> (r matches Ok(b) && {
                let start = BITMAP_FILE_HEADER_SIZE + BITMAP_DIB_HEADER_SIZE;
                let offset = bitmap_data_offset(raw_bytes@);
                let size = bitmap_width(raw_bytes@) * bitmap_height(raw_bytes@);
                &&& b.width == bitmap_width(raw_bytes@)
                &&& b.height == bitmap_height(raw_bytes@)
                &&& b.color_table@ == raw_bytes@.subrange(start as int, start + COLOR_TABLE_SIZE)
                &&& b.image_data@ == raw_bytes@.subrange(offset, offset + size)
            }),
    {
        if !is_valid_bitmap(raw_bytes) {
            return Err("Bitmap is not valid");
        }
        let offset = read_le_u32(raw_bytes, 10) as usize;
        let width = read_le_u32(raw_bytes, 18);
        let height = read_le_u32(raw_bytes, 22);
        let size = (width as usize) * (height as usize);
        let start = BITMAP_FILE_HEADER_SIZE + BITMAP_DIB_HEADER_SIZE;
        let color_table = copy_range(raw_bytes, start, start + COLOR_TABLE_SIZE);
        assert(offset + size <= raw_bytes@.len());
        assert(raw_bytes@.len() == raw_bytes.len());
        let image_data = copy_range(raw_bytes, offset, offset + size);
        Ok(Bitmap { width, height, color_table, image_data })
    }

    /// The width in pixels.
    pub fn width(&self) -> (r: usize)
        ensures
            r == self.width,
    {
        self.width as usize
    }

    /// The height in pixels.
    pub fn height(&self) -> (r: usize)
        ensures
            r == self.height,
    {
        self.height as usize
    }
}

} // verus!

verus! {

/// The low byte of zero is zero.
pub proof fn lemma_low_byte_of_zero(n: u64)
    ensures
        n == 0 ==> n as u8 == 0,
{
    assert(n == 0 ==> n as u8 == 0) by (bit_vector);
}

/// The decimal digits of `n` as ASCII bytes, most significant first, as the
/// artist prints a number: a value whose low byte is below ten is printed as
/// that one digit.
pub open spec fn decimal_digits(n: u64) -> Seq<u8>
    decreases n,
{
    if (n as u8) < 10 {
        seq![((n as u8) + 48) as u8]
    } else {
        proof {
            lemma_low_byte_of_zero(n);
        }
        decimal_digits(n / 10).push(((n % 10) as u8 + 48) as u8)
    }
}

/// The bytes the artist prints for a number of any integer type.
pub open spec fn printed_number<T: Integer>(n: T) -> Seq<u8> {
    if n.spec_to_u8() < 10 {
        seq![(n.spec_to_u8() + 48) as u8]
    } else {
        let m = n.spec_to_u64();
        decimal_digits(m / 10).push(((m % 10) as u8 + 48) as u8)
    }
}

impl Artist {
    /// Writes the decimal digits of `n` on the screen.
    fn print_decimal(&mut self, n: u64)
        requires
            old(self).wf(),
            text_defined(
                old(self).x_pos as int,
                old(self).y_pos as int,
                old(self).screen(),
                decimal_digits(n),
                old(self).glyphs(),
                old(self).color_code,
            ),
        ensures
            final(self).wf(),
            final(self).color_code == old(self).color_code,
            final(self).font@ == old(self).font@,
            ({
                let (x1, y1, b1) = text_after(
                    old(self).x_pos as int,
                    old(self).y_pos as int,
                    old(self).screen(),
                    decimal_digits(n),
                    old(self).glyphs(),
                    old(self).color_code,
                );
                &&& final(self).x_pos == x1
                &&& final(self).y_pos == y1
                &&& final(self).screen() == b1
            }),
            final(self).double_buffer@ == old(self).double_buffer@,
        decreases n,
    {
        if (n as u8) < 10 {
            proof {
                assert(decimal_digits(n).drop_last() =~= Seq::<u8>::empty());
            }
            self.write_byte((n as u8) + 48, WriteTarget::VGABuffer);
        } else {
            proof {
                lemma_low_byte_of_zero(n);
                assert(decimal_digits(n).drop_last() == decimal_digits(n / 10));
            }
            let q = n / 10;
            let r = n % 10;
            self.print_decimal(q);
            self.write_byte((r as u8) + 48u8, WriteTarget::VGABuffer);
        }
    }

    /// Writes the decimal digits of `n` on the screen and moves to the next line.
    fn printint<T: Integer>(&mut self, n: T)
        requires
            old(self).wf(),
            text_defined(
                old(self).x_pos as int,
                old(self).y_pos as int,
                old(self).screen(),
                printed_number(n).push(0x0a),
                old(self).glyphs(),
                old(self).color_code,
            ),
        ensures
            final(self).wf(),
            final(self).color_code == old(self).color_code,
            final(self).font@ == old(self).font@,
            ({
                let (x1, y1, b1) = text_after(
                    old(self).x_pos as int,
                    old(self).y_pos as int,
                    old(self).screen(),
                    printed_number(n).push(0x0a),
                    old(self).glyphs(),
                    old(self).color_code,
                );
                &&& final(self).x_pos == x1
                &&& final(self).y_pos == y1
                &&& final(self).screen() == b1
            }),
            final(self).double_buffer@ == old(self).double_buffer@,
    {
        let ghost s = printed_number(n).push(0x0a);
        let ghost x0 = self.x_pos as int;
        let ghost y0 = self.y_pos as int;
        let ghost b0 = self.screen();
        assert(s.drop_last() == printed_number(n));
        assert(s.last() == 0x0a);
        assert(text_defined(x0, y0, b0, printed_number(n), self.glyphs(), self.color_code));
        if n.to_u8() < 10 {
            assert(printed_number(n).drop_last() =~= Seq::<u8>::empty());
            self.write_byte(n.to_u8() + 48, WriteTarget::VGABuffer);
        } else {
            let m = n.to_u64();
            assert(printed_number(n).drop_last() == decimal_digits(m / 10));
            self.print_decimal(m / 10);
            self.write_byte((m % 10) as u8 + 48u8, WriteTarget::VGABuffer);
        }
        self.newline();
    }
}

} // verus!
