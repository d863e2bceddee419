//! Writing text in the 80 by 25 character VGA text mode: text goes on the
//! bottom line, and a new line scrolls the screen up.
use vstd::prelude::*;
use vstd::string::StringSliceAdditionalSpecFns;

verus! {

/// The number of lines of the text screen.
pub const VGA_BUFFER_HEIGHT: usize = 25;
/// The number of characters in a line of the text screen.
pub const VGA_BUFFER_WIDTH: usize = 80;

/// A color of the text mode.
#[derive(Copy, Clone, Debug, PartialEq, Eq, Structural)]
pub enum Color {
    Black,
    Blue,
    Green,
    Cyan,
    Red,
    Magenta,
    Brown,
    LightGray,
    DarkGray,
    LightBlue,
    LightGreen,
    LightCyan,
    LightRed,
    Pink,
    Yellow,
    White,
}

/// The number of a color in the text mode.
pub open spec fn color_number(c: Color) -> u8 {
    match c {
        Color::Black => 0x0,
        Color::Blue => 0x1,
        Color::Green => 0x2,
        Color::Cyan => 0x3,
        Color::Red => 0x4,
        Color::Magenta => 0x5,
        Color::Brown => 0x6,
        Color::LightGray => 0x7,
        Color::DarkGray => 0x8,
        Color::LightBlue => 0x9,
        Color::LightGreen => 0xa,
        Color::LightCyan => 0xb,
        Color::LightRed => 0xc,
        Color::Pink => 0xd,
        Color::Yellow => 0xe,
        Color::White => 0xf,
    }
}

impl Color {
    /// The number of the color.
    pub fn as_u8(&self) -> (r: u8)
        ensures
            r == color_number(*self),
    {
        match *self {
            Color::Black => 0x0,
            Color::Blue => 0x1,
            Color::Green => 0x2,
            Color::Cyan => 0x3,
            Color::Red => 0x4,
            Color::Magenta => 0x5,
            Color::Brown => 0x6,
            Color::LightGray => 0x7,
            Color::DarkGray => 0x8,
            Color::LightBlue => 0x9,
            Color::LightGreen => 0xa,
            Color::LightCyan => 0xb,
            Color::LightRed => 0xc,
            Color::Pink => 0xd,
            Color::Yellow => 0xe,
            Color::White => 0xf,
        }
    }
}

/// The attribute byte of a character: the foreground in the low four bits,
/// the background in the high four.
#[derive(Copy, Clone, Debug, PartialEq, Eq, Structural)]
pub struct ColorCode(pub u8);

impl ColorCode {
    /// The attribute of `foreground` text on `background`.
    pub fn new(foreground: Color, background: Color) -> (r: ColorCode)
        ensures
            r.0 == color_number(foreground) + color_number(background) * 16,
    {
        let f = foreground.as_u8();
        let b = background.as_u8();
        assert(f | (b << 4u8) == f + b * 16) by (bit_vector)
            requires
                f < 16,
                b < 16,
        ;
        ColorCode(f | (b << 4u8))
    }
}

/// A character of the text screen with its attribute.
#[derive(Copy, Clone, Debug, PartialEq, Eq, Structural)]
pub struct VGAScreenChar {
    pub ascii_code: u8,
    pub color_code: ColorCode,
}

/// Whether a byte is shown as itself: printable ASCII or a line feed.
pub open spec fn printable(byte: u8) -> bool {
    (0x20 <= byte <= 0x7e) || byte == 0x0a
}

/// Whether `byte` is shown as itself.
pub fn is_printable(byte: u8) -> (r: bool)
    ensures
        r == printable(byte),
{
    (0x20 <= byte && byte <= 0x7e) || byte == 0x0a
}

/// A line of blanks in `code`.
pub open spec fn blank_line(code: ColorCode) -> Seq<VGAScreenChar> {
    Seq::new(VGA_BUFFER_WIDTH as nat, |c: int| VGAScreenChar { ascii_code: 0x20, color_code: code })
}

/// The lines once they scroll up by one and a blank line comes in at the bottom.
pub open spec fn scrolled(lines: Seq<Seq<VGAScreenChar>>, code: ColorCode) -> Seq<Seq<VGAScreenChar>> {
    Seq::new(
        VGA_BUFFER_HEIGHT as nat,
        |r: int|
            if r < VGA_BUFFER_HEIGHT - 1 {
                lines[r + 1]
            } else {
                blank_line(code)
            },
    )
}

/// Whether the lines are those of the text screen.
pub open spec fn text_shaped(lines: Seq<Seq<VGAScreenChar>>) -> bool {
    &&& lines.len() == VGA_BUFFER_HEIGHT
    &&& forall|r: int| 0 <= r < lines.len() ==> #[trigger] lines[r].len() == VGA_BUFFER_WIDTH
}

/// The lines as sequences.
pub open spec fn lines_of(buf: Seq<std::vec::Vec<VGAScreenChar>>) -> Seq<Seq<VGAScreenChar>> {
    buf.map_values(|line: std::vec::Vec<VGAScreenChar>| line@)
}

/// Writes text on the bottom line of the text screen.
pub struct Writer {
    pub column_pos: usize,
    pub color_code: ColorCode,
    /// The lines of the screen, top first.
    pub chars: std::vec::Vec<std::vec::Vec<VGAScreenChar>>,
}

/// The column and the lines after a byte is written in column `col`.
pub open spec fn write_step(col: int, lines: Seq<Seq<VGAScreenChar>>, c: u8, code: ColorCode) -> (
    int,
    Seq<Seq<VGAScreenChar>>,
) {
    if c == 0x0a {
        (0, scrolled(lines, code))
    } else {
        let (col1, lines1) = if col >= VGA_BUFFER_WIDTH { (0, scrolled(lines, code)) } else { (col, lines) };
        let last = VGA_BUFFER_HEIGHT - 1;
        (col1 + 1, lines1.update(last, lines1[last].update(col1, VGAScreenChar { ascii_code: c, color_code: code })))
    }
}

/// The column and the lines after a string is written from column `col`,
/// with every byte that is not shown as itself written as 0xfe.
pub open spec fn write_after(col: int, lines: Seq<Seq<VGAScreenChar>>, s: Seq<u8>, code: ColorCode) -> (
    int,
    Seq<Seq<VGAScreenChar>>,
)
    decreases s.len(),
{
    if s.len() == 0 {
        (col, lines)
    } else {
        let (col1, lines1) = write_after(col, lines, s.drop_last(), code);
        let b = s.last();
        write_step(col1, lines1, if printable(b) { b } else { 0xfe }, code)
    }
}

impl Writer {
    /// The lines of the screen.
    pub open spec fn lines(&self) -> Seq<Seq<VGAScreenChar>> {
        lines_of(self.chars@)
    }

    /// The screen has its lines and columns, and the column is at most the
    /// end of the line.
    pub open spec fn wf(&self) -> bool {
        text_shaped(self.lines()) && self.column_pos <= VGA_BUFFER_WIDTH
    }

    /// Blanks the line `row`.
    pub fn clear_row(&mut self, row: usize)
        requires
            old(self).wf(),
            row < VGA_BUFFER_HEIGHT,
        ensures
            final(self).wf(),
            final(self).lines() == old(self).lines().update(row as int, blank_line(old(self).color_code)),
            final(self).column_pos == old(self).column_pos,
            final(self).color_code == old(self).color_code,
    {
        let blank = VGAScreenChar { ascii_code: 0x20, color_code: self.color_code };
        let mut line: std::vec::Vec<VGAScreenChar> = std::vec::Vec::new();
        while line.len() < VGA_BUFFER_WIDTH
            invariant
                line.len() <= VGA_BUFFER_WIDTH,
                forall|c: int| 0 <= c < line.len() ==> #[trigger] line@[c] == blank,
            decreases VGA_BUFFER_WIDTH - line.len(),
        {
            line.push(blank);
        }
        assert(line@ =~= blank_line(self.color_code));
        self.chars.set(row, line);
        assert(self.lines() =~= old(self).lines().update(row as int, blank_line(old(self).color_code)));
    }

    /// Blanks every line.
    pub fn clear_screen(&mut self)
        requires
            old(self).wf(),
        ensures
            final(self).wf(),
            final(self).lines() == Seq::new(VGA_BUFFER_HEIGHT as nat, |r: int| blank_line(old(self).color_code)),
            final(self).column_pos == old(self).column_pos,
            final(self).color_code == old(self).color_code,
    {
        let mut row: usize = 0;
        while row < VGA_BUFFER_HEIGHT
            invariant
                self.wf(),
                row <= VGA_BUFFER_HEIGHT,
                self.column_pos == old(self).column_pos,
                self.color_code == old(self).color_code,
                forall|r: int| 0 <= r < row ==> #[trigger] self.lines()[r] == blank_line(old(self).color_code),
            decreases VGA_BUFFER_HEIGHT - row,
        {
            self.clear_row(row);
            row = row + 1;
        }
        assert(self.lines() =~= Seq::new(VGA_BUFFER_HEIGHT as nat, |r: int| blank_line(old(self).color_code)));
    }

    /// Scrolls the lines up by one, blanks the bottom line and goes back to
    /// its start.
    pub fn newline(&mut self)
        requires
            old(self).wf(),
        ensures
            final(self).wf(),
            final(self).lines() == scrolled(old(self).lines(), old(self).color_code),
            final(self).column_pos == 0,
            final(self).color_code == old(self).color_code,
    {
        let mut row: usize = 1;
        while row < VGA_BUFFER_HEIGHT
            invariant
                self.wf(),
                old(self).wf(),
                1 <= row <= VGA_BUFFER_HEIGHT,
                self.color_code == old(self).color_code,
                forall|r: int| 0 <= r < row - 1 ==> #[trigger] self.lines()[r] == old(self).lines()[r + 1],
                forall|r: int| row <= r < VGA_BUFFER_HEIGHT ==> #[trigger] self.lines()[r] == old(self).lines()[r],
            decreases VGA_BUFFER_HEIGHT - row,
        {
            let ghost before = self.lines();
            let line = self.chars[row].clone();
            assert(line@ == self.lines()[row as int]);
            self.chars.set(row - 1, line);
            assert(self.lines() =~= before.update(row - 1, line@));
            row = row + 1;
        }
        self.column_pos = 0;
        self.clear_row(VGA_BUFFER_HEIGHT - 1);
        assert(self.lines() =~= scrolled(old(self).lines(), old(self).color_code));
    }

    /// Writes a byte: a line feed starts a new line; any other byte goes in
    /// the next column of the bottom line, after a new line when that one is
    /// full.
    pub fn write_byte(&mut self, c: u8)
        requires
            old(self).wf(),
        ensures
            final(self).wf(),
            final(self).color_code == old(self).color_code,
            (final(self).column_pos as int, final(self).lines()) == write_step(
                old(self).column_pos as int,
                old(self).lines(),
                c,
                old(self).color_code,
            ),
    {
        if c == 0x0a {
            self.newline();
        } else {
            if self.column_pos >= VGA_BUFFER_WIDTH {
                self.newline();
            }
            let row = VGA_BUFFER_HEIGHT - 1;
            let ch = VGAScreenChar { ascii_code: c, color_code: self.color_code };
            let ghost before = self.lines();
            assert(before[row as int] == self.chars@[row as int]@);
            assert(before[row as int].len() == VGA_BUFFER_WIDTH);
            self.chars[row].set(self.column_pos, ch);
            assert(self.lines() =~= before.update(row as int, before[row as int].update(self.column_pos as int, ch)));
            self.column_pos = self.column_pos + 1;
        }
    }

    /// Writes the bytes of `s`, each one that is not printable as 0xfe.
    pub fn write_string(&mut self, s: &str)
        requires
            old(self).wf(),
        ensures
            final(self).wf(),
            final(self).color_code == old(self).color_code,
            (final(self).column_pos as int, final(self).lines()) == write_after(
                old(self).column_pos as int,
                old(self).lines(),
                s.spec_bytes(),
                old(self).color_code,
            ),
    {
        let bytes = s.as_bytes();
        let mut i: usize = 0;
        while i < bytes.len()
            invariant
                self.wf(),
                bytes@ == s.spec_bytes(),
                i <= bytes.len(),
                self.color_code == old(self).color_code,
                (self.column_pos as int, self.lines()) == write_after(
                    old(self).column_pos as int,
                    old(self).lines(),
                    bytes@.take(i as int),
                    old(self).color_code,
                ),
            decreases bytes.len() - i,
        {
            assert(bytes@.take(i + 1).drop_last() == bytes@.take(i as int));
            let b = bytes[i];
            if is_printable(b) {
                self.write_byte(b);
            } else {
                self.write_byte(0xfe);
            }
            i = i + 1;
        }
        assert(bytes@.take(i as int) == bytes@);
    }
}

} // verus!
