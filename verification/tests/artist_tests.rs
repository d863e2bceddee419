use lib::artist::{bitmap_is_readable, pos_is_within_screen_bounds, Artist, Bitmap, Color, ColorCode, WriteTarget};
use lib::physics::Point;
use lib::printer::{Color as PixelColor, ColorCode as PixelColorCode, Writer as PixelWriter};

#[test]
fn test_pos_is_within_screen_bounds() {
    let pos = Point(0, 0);
    let is_within_bounds = pos_is_within_screen_bounds(pos, 0, 0);
    assert!(is_within_bounds);

    let pos = Point(320, 200);
    let is_within_bounds = pos_is_within_screen_bounds(pos, 0, 0);
    assert!(!is_within_bounds);

    let pos = Point(200, 220);
    let is_within_bounds = pos_is_within_screen_bounds(pos, 0, 0);
    assert!(!is_within_bounds);

    let pos = Point(321, 200);
    let is_within_bounds = pos_is_within_screen_bounds(pos, 0, 0);
    assert!(!is_within_bounds);

    let pos = Point(322, 221);
    let is_within_bounds = pos_is_within_screen_bounds(pos, 0, 0);
    assert!(!is_within_bounds);

    let pos = Point(-1, 12);
    let is_within_bounds = pos_is_within_screen_bounds(pos, 2, 43);
    assert!(!is_within_bounds);

    let pos = Point(100, 201);
    let is_within_bounds = pos_is_within_screen_bounds(pos, 0, 0);
    assert!(!is_within_bounds);

    let pos = Point(319, 199);
    let is_within_bounds = pos_is_within_screen_bounds(pos, 0, 0);
    assert!(is_within_bounds);
}

#[test]
fn offsets_count_toward_the_bounds() {
    assert!(pos_is_within_screen_bounds(Point(310, 190), 9, 9));
    assert!(!pos_is_within_screen_bounds(Point(310, 190), 10, 9));
    assert!(!pos_is_within_screen_bounds(Point(310, 190), 9, 10));
}

fn font() -> Vec<[u8; 8]> {
    let mut font = vec![[0u8; 8]; 128];
    // A glyph whose first row has its leftmost pixel set.
    font[b'A' as usize] = [0x80, 0, 0, 0, 0, 0, 0, 0];
    font[b'?' as usize] = [0xff, 0, 0, 0, 0, 0, 0, 0];
    font
}

#[test]
fn a_new_artist_is_blank() {
    let artist = Artist::new(font());
    assert_eq!(artist.x_pos, 0);
    assert_eq!(artist.y_pos, 0);
    assert_eq!(artist.vga_buffer.len(), 200);
    assert_eq!(artist.vga_buffer[0].len(), 320);
    assert!(artist.vga_buffer.iter().all(|row| row.iter().all(|c| c.0 == Color::Black)));
}

#[test]
fn writing_a_byte_draws_its_glyph_and_moves_on() {
    let mut artist = Artist::new(font());
    artist.write_byte(b'A', WriteTarget::VGABuffer);
    assert_eq!(artist.x_pos, 8);
    assert_eq!(artist.y_pos, 0);
    assert_eq!(artist.vga_buffer[0][0].0, Color::Yellow);
    assert_eq!(artist.vga_buffer[0][1].0, Color::Black);
    assert_eq!(artist.vga_buffer[1][0].0, Color::Black);
    // The double buffer is left alone.
    assert_eq!(artist.double_buffer[0][0].0, Color::Black);
}

#[test]
fn unprintable_bytes_are_drawn_as_question_marks() {
    let mut artist = Artist::new(font());
    artist.write_byte(0x07, WriteTarget::DoubleBuffer);
    for c in 0..8 {
        assert_eq!(artist.double_buffer[0][c].0, Color::Yellow);
    }
}

#[test]
fn a_full_line_wraps() {
    let mut artist = Artist::new(font());
    let line: String = std::iter::repeat('A').take(40).collect();
    artist.write_string(&line, WriteTarget::VGABuffer);
    assert_eq!(artist.x_pos, 0);
    assert_eq!(artist.y_pos, 8);
    artist.write_string("\n", WriteTarget::VGABuffer);
    assert_eq!(artist.y_pos, 16);
}

#[test]
fn color_code_parts() {
    let code = ColorCode(Color::new(Color::Blue), Color::new(Color::Red));
    assert_eq!(code.foreground().0, Color::Blue);
    assert_eq!(code.background().0, Color::Red);
}

fn raw_bitmap(width: u32, height: u32, pixels: usize) -> Vec<u8> {
    let offset: u32 = 14 + 124 + 254;
    let mut raw = vec![0u8; offset as usize + pixels];
    raw[0] = 0x42;
    raw[1] = 0x4d;
    raw[10..14].copy_from_slice(&offset.to_le_bytes());
    raw[18..22].copy_from_slice(&width.to_le_bytes());
    raw[22..26].copy_from_slice(&height.to_le_bytes());
    raw
}

#[test]
fn readable_bitmaps() {
    assert!(bitmap_is_readable(b"not a bitmap"));
    assert!(!bitmap_is_readable(&[0x42, 0x4d, 0]));
    let raw = raw_bitmap(2, 3, 6);
    assert!(bitmap_is_readable(&raw));
    let bitmap = Bitmap::from(&raw).unwrap();
    assert_eq!((bitmap.width, bitmap.height), (2, 3));
    assert!(!bitmap_is_readable(&raw_bitmap(2, 4, 6)));
}

fn pixel_writer() -> PixelWriter {
    PixelWriter {
        x_pos: 16,
        y_pos: 8,
        color_code: PixelColorCode(PixelColor::Yellow, PixelColor::Blue),
        pixels: vec![vec![PixelColor::White; 320]; 200],
        font: vec![[0u8; 8]; 128],
    }
}

#[test]
fn clearing_the_pixel_screen_blackens_it_and_restarts_at_the_corner() {
    let mut w = pixel_writer();
    w.clear_row(3);
    assert!(w.pixels[3].iter().all(|&c| c == PixelColor::Black));
    assert!(w.pixels[2].iter().all(|&c| c == PixelColor::White));
    assert_eq!((w.x_pos, w.y_pos), (16, 8));
    w.clear_screen();
    assert!(w.pixels.iter().all(|row| row.iter().all(|&c| c == PixelColor::Black)));
    assert_eq!((w.x_pos, w.y_pos), (0, 0));
}

#[test]
fn writing_two_strings_is_writing_their_concatenation() {
    let mut one = Artist::new(font());
    one.write_string_in_double_buffer("A?");
    one.write_string_in_double_buffer("\nA");
    let mut both = Artist::new(font());
    both.write_string_in_double_buffer("A?\nA");
    assert_eq!((one.x_pos, one.y_pos), (both.x_pos, both.y_pos));
    assert!(one.double_buffer == both.double_buffer);
}

#[test]
fn panic_messages_draw_line_feeds_as_spaces_and_wrap_at_the_edge() {
    let mut w = lib::panic_writer::PanicWriter {
        x_pos: 312,
        y_pos: 0,
        pixels: vec![vec![Color(Color::Blue); 320]; 200],
        font: font(),
    };
    w.print_char(b'A');
    assert_eq!((w.x_pos, w.y_pos), (0, 8));
    assert_eq!(w.pixels[0][312], Color(Color::Yellow));
    assert_eq!(w.pixels[0][313], Color(Color::Black));
    w.print_char(b'\n');
    assert_eq!((w.x_pos, w.y_pos), (8, 8));
    assert_eq!(w.pixels[8][0], Color(Color::Black));
    w.print_char(0x07);
    assert_eq!(w.pixels[8][8], Color(Color::Yellow));
}

#[test]
fn a_string_is_written_byte_by_byte() {
    let mut whole = Artist::new(font());
    whole.write_string_in_double_buffer("A\n?");
    let mut bytes = Artist::new(font());
    for &c in b"A\n?" {
        bytes.write_byte(c, WriteTarget::DoubleBuffer);
    }
    assert_eq!((whole.x_pos, whole.y_pos), (bytes.x_pos, bytes.y_pos));
    assert!(whole.double_buffer == bytes.double_buffer);
    assert!(whole.vga_buffer == bytes.vga_buffer);
}
