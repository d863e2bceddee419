//! Printing text on a 320 by 200 screen of 16 colors, line after line from
//! the top, without scrolling.
use vstd::prelude::*;
use vstd::string::StringSliceAdditionalSpecFns;
use crate::artist::{draw_glyph, glyph_drawn, screen_shaped, printable_ascii, SCREEN_WIDTH, SCREEN_HEIGHT};

verus! {

/// A color that can be put in a pixel.
#[derive(Copy, Clone, Debug, PartialEq, Eq, Structural)]
pub enum Color {
    Black,
    Blue,
    Green,
    Cyan,
    Red,
    Magenta,
    Brown,
    LightGray,
    DarkGray,
    LightBlue,
    LightGreen,
    LightCyan,
    LightRed,
    Pink,
    Yellow,
    White,
}

/// A foreground and a background color for text.
#[derive(Copy, Clone, Debug, PartialEq, Eq, Structural)]
pub struct ColorCode(pub Color, pub Color);

impl ColorCode {
    /// The background color.
    pub fn background(&self) -> (r: Color)
        ensures
            r == self.1,
    {
        self.1
    }

    /// The foreground color.
    pub fn foreground(&self) -> (r: Color)
        ensures
            r == self.0,
    {
        self.0
    }
}

/// The screen as rows of pixels.
pub open spec fn pixel_rows(buf: Seq<std::vec::Vec<Color>>) -> Seq<Seq<Color>> {
    buf.map_values(|row: std::vec::Vec<Color>| row@)
}

/// Writes text on the screen.
pub struct Writer {
    pub x_pos: usize,
    pub y_pos: usize,
    pub color_code: ColorCode,
    /// The pixels of the screen, row by row.
    pub pixels: std::vec::Vec<std::vec::Vec<Color>>,
    /// The glyphs of the font, indexed by ASCII code.
    pub font: std::vec::Vec<[u8; 8]>,
}

/// The writing position and the screen after one byte written at (`x`, `y`):
/// a line feed moves to the start of the next line; a printable character is
/// drawn and the position moves on, to the next line at the end of one.
pub open spec fn print_step(
    x: int,
    y: int,
    buf: Seq<Seq<Color>>,
    c: u8,
    glyphs: Seq<[u8; 8]>,
    code: ColorCode,
) -> (int, int, Seq<Seq<Color>>) {
    if c == 0x0a {
        (0, y + 8, buf)
    } else {
        let drawn = glyph_drawn(buf, x, y, glyphs[c as int], code.0, code.1, 64);
        if x + 8 >= SCREEN_WIDTH {
            (0, y + 8, drawn)
        } else {
            (x + 8, y, drawn)
        }
    }
}

/// Whether a byte can be written at (`x`, `y`): a line feed anywhere above
/// the largest position, a printable character only where it fits.
pub open spec fn print_step_defined(x: int, y: int, c: u8) -> bool {
    if c == 0x0a {
        y + 8 <= usize::MAX
    } else {
        printable_ascii(c) && x + 8 <= SCREEN_WIDTH && y + 8 <= SCREEN_HEIGHT
    }
}

/// The writing position and the screen after a string of bytes.
pub open spec fn print_after(
    x: int,
    y: int,
    buf: Seq<Seq<Color>>,
    s: Seq<u8>,
    glyphs: Seq<[u8; 8]>,
    code: ColorCode,
) -> (int, int, Seq<Seq<Color>>)
    decreases s.len(),
{
    if s.len() == 0 {
        (x, y, buf)
    } else {
        let (x1, y1, b1) = print_after(x, y, buf, s.drop_last(), glyphs, code);
        print_step(x1, y1, b1, s.last(), glyphs, code)
    }
}

/// Whether every byte of a string can be written in turn.
pub open spec fn print_defined(
    x: int,
    y: int,
    buf: Seq<Seq<Color>>,
    s: Seq<u8>,
    glyphs: Seq<[u8; 8]>,
    code: ColorCode,
) -> bool
    decreases s.len(),
{
    if s.len() == 0 {
        true
    } else {
        let (x1, y1, b1) = print_after(x, y, buf, s.drop_last(), glyphs, code);
        print_defined(x, y, buf, s.drop_last(), glyphs, code) && print_step_defined(x1, y1, s.last())
    }
}

proof fn lemma_print_defined_prefix(
    x: int,
    y: int,
    buf: Seq<Seq<Color>>,
    s: Seq<u8>,
    glyphs: Seq<[u8; 8]>,
    code: ColorCode,
    n: int,
)
    requires
        print_defined(x, y, buf, s, glyphs, code),
        0 <= n <= s.len(),
    ensures
        print_defined(x, y, buf, s.take(n), glyphs, code),
    decreases s.len(),
{
    if n < s.len() {
        assert(s.drop_last().take(n) == s.take(n));
        lemma_print_defined_prefix(x, y, buf, s.drop_last(), glyphs, code, n);
    } else {
        assert(s.take(n) == s);
    }
}

impl Writer {
    /// The pixels of the screen.
    pub open spec fn screen(&self) -> Seq<Seq<Color>> {
        pixel_rows(self.pixels@)
    }

    /// The screen has its rows and columns, the font a glyph for every ASCII code.
    pub open spec fn wf(&self) -> bool {
        &&& screen_shaped(self.screen())
        &&& self.font@.len() >= 128
    }

    /// Moves to the start of the next line.
    pub fn newline(&mut self)
        requires
            old(self).y_pos + 8 <= usize::MAX,
        ensures
            final(self).x_pos == 0,
            final(self).y_pos == old(self).y_pos + 8,
            final(self).color_code == old(self).color_code,
            final(self).pixels@ == old(self).pixels@,
            final(self).font@ == old(self).font@,
    {
        self.y_pos = self.y_pos + 8;
        self.x_pos = 0;
    }

    /// Writes a byte: a line feed or a printable character.
    pub fn write_byte(&mut self, c: u8)
        requires
            old(self).wf(),
            print_step_defined(old(self).x_pos as int, old(self).y_pos as int, c),
        ensures
            final(self).wf(),
            final(self).color_code == old(self).color_code,
            final(self).font@ == old(self).font@,
            ({
                let (x1, y1, b1) = print_step(
                    old(self).x_pos as int,
                    old(self).y_pos as int,
                    old(self).screen(),
                    c,
                    old(self).font@,
                    old(self).color_code,
                );
                &&& final(self).x_pos == x1
                &&& final(self).y_pos == y1
                &&& final(self).screen() == b1
            }),
    {
        if c == 0x0a {
            self.newline();
        } else {
            let glyph = self.font[c as usize];
            let fg = self.color_code.foreground();
            let bg = self.color_code.background();
            draw_glyph(&mut self.pixels, self.x_pos, self.y_pos, glyph, fg, bg);
            self.x_pos = self.x_pos + 8;
            if self.x_pos >= SCREEN_WIDTH {
                self.newline();
            }
        }
    }

    /// Writes the bytes of `s` one after the other.
    pub fn write_string(&mut self, s: &str)
        requires
            old(self).wf(),
            print_defined(
                old(self).x_pos as int,
                old(self).y_pos as int,
                old(self).screen(),
                s.spec_bytes(),
                old(self).font@,
                old(self).color_code,
            ),
        ensures
            final(self).wf(),
            final(self).color_code == old(self).color_code,
            final(self).font@ == old(self).font@,
            ({
                let (x1, y1, b1) = print_after(
                    old(self).x_pos as int,
                    old(self).y_pos as int,
                    old(self).screen(),
                    s.spec_bytes(),
                    old(self).font@,
                    old(self).color_code,
                );
                &&& final(self).x_pos == x1
                &&& final(self).y_pos == y1
                &&& final(self).screen() == b1
            }),
    {
        let bytes = s.as_bytes();
        let ghost x0 = self.x_pos as int;
        let ghost y0 = self.y_pos as int;
        let ghost b0 = self.screen();
        let mut i: usize = 0;
        while i < bytes.len()
            invariant
                self.wf(),
                bytes@ == s.spec_bytes(),
                i <= bytes.len(),
                self.color_code == old(self).color_code,
                self.font@ == old(self).font@,
                x0 == old(self).x_pos,
                y0 == old(self).y_pos,
                b0 == old(self).screen(),
                print_defined(x0, y0, b0, bytes@, self.font@, self.color_code),
                ({
                    let (x1, y1, b1) = print_after(x0, y0, b0, bytes@.take(i as int), self.font@, self.color_code);
                    &&& self.x_pos == x1
                    &&& self.y_pos == y1
                    &&& self.screen() == b1
                }),
            decreases bytes.len() - i,
        {
            proof {
                lemma_print_defined_prefix(x0, y0, b0, bytes@, self.font@, self.color_code, i + 1);
                assert(bytes@.take(i + 1).drop_last() == bytes@.take(i as int));
            }
            self.write_byte(bytes[i]);
            i = i + 1;
        }
        assert(bytes@.take(i as int) == bytes@);
    }

    /// Deletes all characters on row `row` of the screen: its pixels
    /// become black.
    pub fn clear_row(&mut self, row: usize)
        requires
            old(self).wf(),
            row < SCREEN_HEIGHT,
        ensures
            final(self).wf(),
            final(self).screen() == old(self).screen().update(row as int, black_row()),
            final(self).x_pos == old(self).x_pos,
            final(self).y_pos == old(self).y_pos,
            final(self).color_code == old(self).color_code,
            final(self).font@ == old(self).font@,
    {
        let ghost before = self.screen();
        self.pixels.set(row, new_black_row());
        assert(self.screen() =~= before.update(row as int, black_row()));
    }

    /// Clears the screen: every pixel becomes black and writing starts
    /// again at the top left corner.
    pub fn clear_screen(&mut self)
        requires
            old(self).wf(),
        ensures
            final(self).wf(),
            final(self).screen() == Seq::new(SCREEN_HEIGHT as nat, |r: int| black_row()),
            final(self).x_pos == 0,
            final(self).y_pos == 0,
            final(self).color_code == old(self).color_code,
            final(self).font@ == old(self).font@,
    {
        let mut row: usize = 0;
        while row < SCREEN_HEIGHT
            invariant
                self.wf(),
                row <= SCREEN_HEIGHT,
                self.color_code == old(self).color_code,
                self.font@ == old(self).font@,
                forall|r: int| 0 <= r < row ==> #[trigger] self.screen()[r] == black_row(),
            decreases SCREEN_HEIGHT - row,
        {
            let ghost before = self.screen();
            self.pixels.set(row, new_black_row());
            assert(self.screen() =~= before.update(row as int, black_row()));
            row = row + 1;
        }
        self.x_pos = 0;
        self.y_pos = 0;
        assert(self.screen() =~= Seq::new(SCREEN_HEIGHT as nat, |r: int| black_row()));
    }
}

/// A row of the screen with every pixel black.
pub open spec fn black_row() -> Seq<Color> {
    Seq::new(SCREEN_WIDTH as nat, |i: int| Color::Black)
}

/// A new row of black pixels.
fn new_black_row() -> (r: std::vec::Vec<Color>)
    ensures
        r@ == black_row(),
{
    let mut r: std::vec::Vec<Color> = std::vec::Vec::new();
    while r.len() < SCREEN_WIDTH
        invariant
            r.len() <= SCREEN_WIDTH,
            forall|i: int| 0 <= i < r.len() ==> r@[i] == Color::Black,
        decreases SCREEN_WIDTH - r.len(),
    {
        r.push(Color::Black);
    }
    assert(r@ =~= black_row());
    r
}

} // verus!
