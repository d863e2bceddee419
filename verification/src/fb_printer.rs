//! Quick text output on a 640 by 480 frame buffer of 32-bit pixels: each
//! character of the 8 by 8 font is drawn twice as wide and twice as high.
use vstd::prelude::*;
use crate::artist::{glyph_bit, printable_ascii, is_printable_ascii};

verus! {

/// The width of the frame buffer in pixels.
pub const FB_WIDTH: usize = 640;
/// The height of the frame buffer in pixels.
pub const FB_HEIGHT: usize = 480;
/// The size of a drawn character's cell: the font's 8 pixels, doubled.
pub const CELL: usize = 16;

/// A pixel of the frame buffer.
#[derive(Copy, Clone, Debug, PartialEq, Eq, Structural)]
pub struct Pixel {
    pub blue: u8,
    pub green: u8,
    pub red: u8,
    pub reserved: u8,
}

/// The color of the cell around a character: yellow.
pub open spec fn paper() -> Pixel {
    Pixel { blue: 0, green: 255, red: 255, reserved: 0 }
}

/// The color of a character's strokes: black.
pub open spec fn ink() -> Pixel {
    Pixel { blue: 0, green: 0, red: 0, reserved: 0 }
}

/// The frame buffer once the first `n` pixels, in row-major order, of the
/// doubled glyph with its top-left corner at (`x0`, `y0`) are drawn.
pub open spec fn doubled_glyph_drawn(buf: Seq<Seq<Pixel>>, x0: int, y0: int, glyph: [u8; 8], n: int) -> Seq<Seq<Pixel>> {
    Seq::new(
        buf.len(),
        |r: int|
            Seq::new(
                buf[r].len(),
                |c: int|
                    if y0 <= r < y0 + 16 && x0 <= c < x0 + 16 && (r - y0) * 16 + (c - x0) < n {
                        if glyph_bit(glyph, (r - y0) / 2, (c - x0) / 2) {
                            ink()
                        } else {
                            paper()
                        }
                    } else {
                        buf[r][c]
                    },
            ),
    )
}

/// Whether the rows and columns are those of the frame buffer.
pub open spec fn fb_shaped(buf: Seq<Seq<Pixel>>) -> bool {
    &&& buf.len() == FB_HEIGHT
    &&& forall|r: int| 0 <= r < buf.len() ==> #[trigger] buf[r].len() == FB_WIDTH
}

/// The frame buffer as rows of pixels.
pub open spec fn fb_rows(buf: Seq<std::vec::Vec<Pixel>>) -> Seq<Seq<Pixel>> {
    buf.map_values(|row: std::vec::Vec<Pixel>| row@)
}

/// Draws a doubled glyph with its top-left corner at (`x0`, `y0`).
fn draw_doubled_glyph(buf: &mut std::vec::Vec<std::vec::Vec<Pixel>>, x0: usize, y0: usize, glyph: [u8; 8])
    requires
        fb_shaped(fb_rows(old(buf)@)),
        x0 + CELL <= FB_WIDTH,
        y0 + CELL <= FB_HEIGHT,
    ensures
        fb_rows(final(buf)@) == doubled_glyph_drawn(fb_rows(old(buf)@), x0 as int, y0 as int, glyph, 256),
        fb_shaped(fb_rows(final(buf)@)),
{
    let ghost start = fb_rows(buf@);
    assert(doubled_glyph_drawn(start, x0 as int, y0 as int, glyph, 0) =~~= start);
    let mut py: usize = 0;
    while py < CELL
        invariant
            py <= CELL,
            x0 + CELL <= FB_WIDTH,
            y0 + CELL <= FB_HEIGHT,
            fb_shaped(start),
            fb_rows(buf@) == doubled_glyph_drawn(start, x0 as int, y0 as int, glyph, py * 16),
        decreases CELL - py,
    {
        let byte = glyph[py / 2];
        let mut px: usize = 0;
        while px < CELL
            invariant
                py < CELL,
                px <= CELL,
                byte == glyph@[(py / 2) as int],
                x0 + CELL <= FB_WIDTH,
                y0 + CELL <= FB_HEIGHT,
                fb_shaped(start),
                fb_rows(buf@) == doubled_glyph_drawn(start, x0 as int, y0 as int, glyph, py * 16 + px),
            decreases CELL - px,
        {
            let ghost before = fb_rows(buf@);
            assert(before.len() == buf@.len());
            assert(before[y0 + py] == buf@[y0 + py as int]@);
            assert(before[y0 + py].len() == FB_WIDTH);
            let shift: u8 = (8 - px / 2 - 1) as u8;
            let color = if byte & (1u8 << shift) == 0 {
                Pixel { blue: 0, green: 255, red: 255, reserved: 0 }
            } else {
                Pixel { blue: 0, green: 0, red: 0, reserved: 0 }
            };
            assert(color == if glyph_bit(glyph, (py / 2) as int, (px / 2) as int) { ink() } else { paper() });
            buf[y0 + py].set(x0 + px, color);
            proof {
                let after = fb_rows(buf@);
                let target = doubled_glyph_drawn(start, x0 as int, y0 as int, glyph, py * 16 + px + 1);
                assert(after[y0 + py] =~= before[y0 + py].update(x0 + px, color));
                assert forall|r: int| 0 <= r < after.len() && r != y0 + py implies after[r] == before[r] by {}
                assert forall|r: int| 0 <= r < after.len() implies after[r] =~= target[r] by {
                    if r == y0 + py {
                        assert forall|c: int| 0 <= c < after[r].len() implies after[r][c] == target[r][c] by {}
                    }
                }
                assert(after =~~= target);
            }
            px = px + 1;
        }
        py = py + 1;
    }
}

/// Prints characters on the frame buffer, keeping its writing position.
pub struct Printer {
    pub x_pos: usize,
    pub y_pos: usize,
    /// The pixels of the frame buffer, row by row.
    pub pixels: std::vec::Vec<std::vec::Vec<Pixel>>,
    /// The glyphs of the font, indexed by ASCII code.
    pub font: std::vec::Vec<[u8; 8]>,
}

/// The writing position and the frame buffer after one byte at (`x`, `y`):
/// a line feed moves to the start of the next line; a printable character
/// is drawn and the position moves on, to the next line at the end of one;
/// any other byte is printed as a question mark.
pub open spec fn fb_print_step(x: int, y: int, buf: Seq<Seq<Pixel>>, c: u8, glyphs: Seq<[u8; 8]>) -> (
    int,
    int,
    Seq<Seq<Pixel>>,
) {
    if c == 0x0a {
        (0, y + CELL, buf)
    } else {
        let ch = if printable_ascii(c) { c } else { 0x3f };
        let drawn = doubled_glyph_drawn(buf, x, y, glyphs[ch as int], 256);
        if x + CELL >= FB_WIDTH {
            (0, y + CELL, drawn)
        } else {
            (x + CELL, y, drawn)
        }
    }
}

impl Printer {
    /// The pixels of the frame buffer.
    pub open spec fn screen(&self) -> Seq<Seq<Pixel>> {
        fb_rows(self.pixels@)
    }

    /// The frame buffer has its rows and columns, the font a glyph for every
    /// ASCII code.
    pub open spec fn wf(&self) -> bool {
        fb_shaped(self.screen()) && self.font@.len() >= 128
    }

    /// Prints a byte at the writing position.
    pub fn print_char(&mut self, c: u8)
        requires
            old(self).wf(),
            c == 0x0a ==> old(self).y_pos + CELL <= usize::MAX,
            c != 0x0a ==> old(self).x_pos + CELL <= FB_WIDTH && old(self).y_pos + CELL <= FB_HEIGHT,
        ensures
            final(self).wf(),
            final(self).font@ == old(self).font@,
            ({
                let (x1, y1, b1) = fb_print_step(
                    old(self).x_pos as int,
                    old(self).y_pos as int,
                    old(self).screen(),
                    c,
                    old(self).font@,
                );
                &&& final(self).x_pos == x1
                &&& final(self).y_pos == y1
                &&& final(self).screen() == b1
            }),
    {
        let curr_x = self.x_pos;
        let curr_y = self.y_pos;
        if c == 0x0a {
            self.x_pos = 0;
            self.y_pos = curr_y + CELL;
        } else {
            let ch = if is_printable_ascii(c) { c } else { 0x3f };
            let glyph = self.font[ch as usize];
            draw_doubled_glyph(&mut self.pixels, curr_x, curr_y, glyph);
            self.x_pos = curr_x + CELL;
            if self.x_pos >= FB_WIDTH {
                self.x_pos = 0;
                self.y_pos = curr_y + CELL;
            }
        }
    }
}

} // verus!
