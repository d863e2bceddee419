//! The writer of panic messages on the 320 by 200 screen after a BIOS start:
//! yellow characters on black, line after line from the top left corner.
use vstd::prelude::*;
use crate::artist::{
    draw_glyph, glyph_drawn, is_printable_ascii, printable_ascii, screen_shaped, Color, SCREEN_HEIGHT, SCREEN_WIDTH,
};

verus! {

/// Writes panic messages on the screen.
pub struct PanicWriter {
    pub x_pos: usize,
    pub y_pos: usize,
    /// The pixels of the screen, row by row.
    pub pixels: std::vec::Vec<std::vec::Vec<Color>>,
    /// The glyphs of the font, indexed by ASCII code.
    pub font: std::vec::Vec<[u8; 8]>,
}

/// The character drawn for byte `c`: a line feed is drawn as a space, and a
/// byte that is not printable as a question mark.
pub open spec fn panic_char(c: u8) -> u8 {
    if c == 0x0a {
        0x20
    } else if printable_ascii(c) {
        c
    } else {
        0x3f
    }
}

/// The position and the screen after byte `c` is written at (`x`, `y`): its
/// character is drawn in yellow on black and the position moves eight
/// pixels on, to the start of the next line at the end of one.
pub open spec fn panic_step(x: int, y: int, buf: Seq<Seq<Color>>, c: u8, glyphs: Seq<[u8; 8]>) -> (
    int,
    int,
    Seq<Seq<Color>>,
) {
    let drawn = glyph_drawn(buf, x, y, glyphs[panic_char(c) as int], Color(Color::Yellow), Color(Color::Black), 64);
    if x + 8 >= SCREEN_WIDTH {
        (0, y + 8, drawn)
    } else {
        (x + 8, y, drawn)
    }
}

impl PanicWriter {
    /// The screen as rows of pixels.
    pub open spec fn screen(&self) -> Seq<Seq<Color>> {
        self.pixels@.map_values(|row: std::vec::Vec<Color>| row@)
    }

    /// The screen has its rows and columns, the font a glyph for every ASCII code.
    pub open spec fn wf(&self) -> bool {
        &&& screen_shaped(self.screen())
        &&& self.font@.len() >= 128
    }

    /// Writes byte `c` where the writer stands.
    pub fn print_char(&mut self, c: u8)
        requires
            old(self).wf(),
            old(self).x_pos + 8 <= SCREEN_WIDTH,
            old(self).y_pos + 8 <= SCREEN_HEIGHT,
        ensures
            final(self).wf(),
            final(self).font@ == old(self).font@,
            ({
                let (x1, y1, b1) = panic_step(
                    old(self).x_pos as int,
                    old(self).y_pos as int,
                    old(self).screen(),
                    c,
                    old(self).font@,
                );
                &&& final(self).x_pos == x1
                &&& final(self).y_pos == y1
                &&& final(self).screen() == b1
            }),
    {
        let ch: u8 = if c == 0x0a {
            0x20
        } else if is_printable_ascii(c) {
            c
        } else {
            0x3f
        };
        let glyph = self.font[ch as usize];
        draw_glyph(&mut self.pixels, self.x_pos, self.y_pos, glyph, Color(Color::Yellow), Color(Color::Black));
        self.x_pos = self.x_pos + 8;
        if self.x_pos >= SCREEN_WIDTH {
            self.y_pos = self.y_pos + 8;
            self.x_pos = 0;
        }
    }
}

} // verus!
