use vga_buffer::{Color, ColorCode, ScreenChar, Writer, _print};

const HEIGHT: usize = 25;
const WIDTH: usize = 80;

fn default_byte() -> u8 {
    ColorCode::new(Color::LightGreen, Color::Black).byte()
}

fn char_at(w: &Writer, row: usize, column: usize) -> u8 {
    w.read_char(row, column).ascii_character
}

fn snapshot(w: &Writer) -> Vec<ScreenChar> {
    let mut cells = Vec::new();
    for r in 0..HEIGHT {
        for c in 0..WIDTH {
            cells.push(w.read_char(r, c));
        }
    }
    cells
}

fn is_blank(w: &Writer) -> bool {
    snapshot(w)
        .iter()
        .all(|c| c.ascii_character == 0 && c.color_code.byte() == 0)
}

#[test]
fn color_code_packs_foreground_low_background_high() {
    let code = ColorCode::new(Color::LightGreen, Color::Black);
    assert_eq!(code.byte(), (0 << 4) | 10);
    assert_eq!(ColorCode::new(Color::Blue, Color::Black).byte(), (0 << 4) | 1);
    assert_eq!(ColorCode::new(Color::White, Color::Red).byte(), 0x4f);
    assert_eq!(ColorCode::new(Color::Black, Color::White).byte(), 0xf0);
}

#[test]
fn palette_codes_cover_zero_to_fifteen() {
    let all = [
        Color::Black,
        Color::Blue,
        Color::Green,
        Color::Cyan,
        Color::Red,
        Color::Meganta,
        Color::Brown,
        Color::LightGray,
        Color::DarkGray,
        Color::LightBlue,
        Color::LightGreen,
        Color::LightCyan,
        Color::LightRed,
        Color::Pink,
        Color::Yellow,
        Color::White,
    ];
    for (i, c) in all.iter().enumerate() {
        assert_eq!(c.code() as usize, i);
    }
}

#[test]
fn cell_word_is_character_low_attribute_high() {
    let cell = ScreenChar {
        ascii_character: b'A',
        color_code: ColorCode::new(Color::Yellow, Color::Blue),
    };
    assert_eq!(cell.to_bits(), 0x1e41);
    assert_eq!(ScreenChar::from_bits(0x1e41), cell);
}

#[test]
fn new_writer_is_blank_at_origin() {
    let w = Writer::with_default_color();
    assert_eq!(w.row(), 0);
    assert_eq!(w.column(), 0);
    assert_eq!(w.color_code().byte(), default_byte());
    assert!(is_blank(&w));
}

#[test]
fn writes_ab_newline_cd() {
    let mut w = Writer::with_default_color();
    w.write_string("AB\nCD");
    assert_eq!(char_at(&w, 0, 0), b'A');
    assert_eq!(char_at(&w, 0, 1), b'B');
    assert_eq!(char_at(&w, 1, 0), b'C');
    assert_eq!(char_at(&w, 1, 1), b'D');
    assert_eq!(w.read_char(1, 1).color_code.byte(), default_byte());
    assert_eq!(char_at(&w, 0, 2), 0);
    assert_eq!(w.row(), 1);
    assert_eq!(w.column(), 2);
}

#[test]
fn clean_text_matches_byte_writes() {
    let text = "Hello, world!\n ~tilde and space\n0123456789";
    let mut by_string = Writer::with_default_color();
    by_string.write_string(text);
    let mut by_byte = Writer::with_default_color();
    for b in text.bytes() {
        by_byte.write_byte(b);
    }
    assert_eq!(snapshot(&by_string), snapshot(&by_byte));
    assert_eq!(by_string.row(), by_byte.row());
    assert_eq!(by_string.column(), by_byte.column());
}

#[test]
fn unprintable_bytes_become_placeholder() {
    let mut w = Writer::new(ColorCode::new(Color::Red, Color::White));
    w.write_string("a\u{7}\tb");
    assert_eq!(char_at(&w, 0, 0), b'a');
    assert_eq!(char_at(&w, 0, 1), 0xfe);
    assert_eq!(char_at(&w, 0, 2), 0xfe);
    assert_eq!(char_at(&w, 0, 3), b'b');
    assert_eq!(w.read_char(0, 1).color_code.byte(), 0xf4);
    assert_eq!(w.column(), 4);
}

#[test]
fn multibyte_character_gives_one_placeholder_per_byte() {
    let mut w = Writer::with_default_color();
    w.write_string("é!");
    assert_eq!(char_at(&w, 0, 0), 0xfe);
    assert_eq!(char_at(&w, 0, 1), 0xfe);
    assert_eq!(char_at(&w, 0, 2), b'!');
    assert_eq!(w.column(), 3);
}

#[test]
fn eighty_first_byte_wraps_to_next_row() {
    let mut w = Writer::with_default_color();
    let row: String = "x".repeat(WIDTH);
    w.write_string(&row);
    assert_eq!(w.row(), 0);
    assert_eq!(w.column(), WIDTH);
    w.write_string("y");
    assert_eq!(char_at(&w, 0, WIDTH - 1), b'x');
    assert_eq!(char_at(&w, 1, 0), b'y');
    assert_eq!(w.row(), 1);
    assert_eq!(w.column(), 1);
}

#[test]
fn newline_on_last_row_scrolls() {
    let mut w = Writer::with_default_color();
    let mut text = String::new();
    for i in 0..HEIGHT {
        if i > 0 {
            text.push('\n');
        }
        text.push_str(&format!("line{}", i));
    }
    w.write_string(&text);
    assert_eq!(w.row(), 24);
    assert_eq!(char_at(&w, 1, 4), b'1');
    w.write_string("\n");
    assert_eq!(w.row(), 24);
    assert_eq!(w.column(), 0);
    assert_eq!(char_at(&w, 0, 4), b'1');
    assert_eq!(char_at(&w, 22, 5), b'3');
    assert_eq!(char_at(&w, 23, 5), b'4');
    for c in 0..WIDTH {
        assert_eq!(w.read_char(24, c).ascii_character, 0);
        assert_eq!(w.read_char(24, c).color_code.byte(), 0);
    }
}

#[test]
fn scrolling_blank_grid_stays_blank() {
    let mut w = Writer::with_default_color();
    for _ in 0..60 {
        w.write_byte(b'\n');
    }
    assert_eq!(w.row(), 24);
    assert_eq!(w.column(), 0);
    assert!(is_blank(&w));
}

#[test]
fn long_text_keeps_cursor_on_screen() {
    let mut w = Writer::with_default_color();
    let text = "abcdefghij".repeat(300);
    w.write_string(&text);
    assert_eq!(w.row(), 24);
    assert_eq!(w.column(), 40);
    assert_eq!(char_at(&w, 24, 39), b'j');
    assert_eq!(char_at(&w, 24, 40), 0);
    assert_eq!(char_at(&w, 23, WIDTH - 1), b'j');
    assert_eq!(char_at(&w, 0, 0), b'a');
}

#[test]
fn print_sink_writes_text() {
    let mut w = Writer::with_default_color();
    _print(&mut w, "ok\n");
    assert_eq!(char_at(&w, 0, 0), b'o');
    assert_eq!(char_at(&w, 0, 1), b'k');
    assert_eq!(w.row(), 1);
    assert_eq!(w.column(), 0);
}
