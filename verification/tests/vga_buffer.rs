use kfs_v2::vga_buffer::{Color, ColorCode, VgaChar, Writer, BUFFER_CELLS, BUFFER_HEIGHT, BUFFER_WIDTH};

fn console() -> Writer {
    let color = ColorCode::new(Color::LightGreen, Color::DarkGray);
    let cells = vec![VgaChar { ascii_char: b' ', color_code: color }; BUFFER_CELLS];
    Writer::new(color, cells)
}

fn row_text(w: &Writer, row: usize) -> String {
    (0..BUFFER_WIDTH).map(|c| w.char_at(row, c).ascii_char as char).collect()
}

#[test]
fn test_println_output() {
    let mut writer = console();
    let s = "Some test string that fits on a single line";
    writer.write_string("\n");
    writer.write_string(s);
    writer.write_string("\n");
    for (i, c) in s.chars().enumerate() {
        let screen_char = writer.char_at(BUFFER_HEIGHT - 2, i);
        assert_eq!(char::from(screen_char.ascii_char), c);
    }
    assert_eq!(writer.col_pos(), 0);
}

#[test]
fn test_println_many_output() {
    let mut writer = console();
    for i in 0..300 {
        writer.write_string(&format!("One of many lines {}\n", i));
    }
    assert!(row_text(&writer, BUFFER_HEIGHT - 2).starts_with("One of many lines 299 "));
    assert!(row_text(&writer, BUFFER_HEIGHT - 3).starts_with("One of many lines 298 "));
    assert_eq!(row_text(&writer, BUFFER_HEIGHT - 1), " ".repeat(BUFFER_WIDTH));
}

#[test]
fn test_println_long_line() {
    let mut writer = console();
    writer.write_string(
        "A Very long line AAAAAAAAAAAAAAAAAAAAAAAAAAAAAAAA
        klBBBBBBBBBBBBBBBBBBBBBBBBBBBBBBBBBBBBBBBBBBBBBBBBBBBB
        CCCCCCCCCCCCCCCCCCCCCCCCCCCCCCCCCCCCCCCCCCCCCCCCCCCCCC
        DDDDDDDDDDDDDDDDDDDDDDDDDDDDDDDDDDDDDDDDDDDDDDDDDDDDDD\n",
    );
    assert_eq!(writer.col_pos(), 0);
    let last = row_text(&writer, BUFFER_HEIGHT - 2);
    assert_eq!(last.trim_end(), "        DDDDDDDDDDDDDDDDDDDDDDDDDDDDDDDDDDDDDDDDDDDDDDDDDDDDDD");
}

#[test]
fn color_code_packs_background_high() {
    assert_eq!(ColorCode::new(Color::LightGreen, Color::DarkGray), ColorCode(0x8a));
    assert_eq!(ColorCode::new(Color::White, Color::Black), ColorCode(0x0f));
    assert_eq!(ColorCode::new(Color::Black, Color::White), ColorCode(0xf0));
    assert_ne!(ColorCode::new(Color::Blue, Color::Red), ColorCode::new(Color::Red, Color::Blue));
}

#[test]
fn write_byte_goes_to_bottom_row() {
    let mut w = console();
    w.write_byte(b'x');
    assert_eq!(w.col_pos(), 1);
    assert_eq!(w.char_at(24, 0), VgaChar { ascii_char: b'x', color_code: ColorCode(0x8a) });
    assert_eq!(w.char_at(23, 0).ascii_char, b' ');
}

#[test]
fn full_row_wraps_onto_new_line() {
    let mut w = console();
    for _ in 0..BUFFER_WIDTH {
        w.write_byte(b'a');
    }
    assert_eq!(w.col_pos(), 80);
    w.write_byte(b'b');
    assert_eq!(w.col_pos(), 1);
    assert_eq!(row_text(&w, 23), "a".repeat(80));
    assert_eq!(w.char_at(24, 0).ascii_char, b'b');
}

#[test]
fn new_line_blanks_stale_dots_above_two_lowest_rows() {
    let color = ColorCode(0x07);
    let cells = vec![VgaChar { ascii_char: b'.', color_code: color }; BUFFER_CELLS];
    let mut w = Writer::new(color, cells);
    w.new_line();
    assert_eq!(w.char_at(0, 79).ascii_char, b' ');
    assert_eq!(w.char_at(22, 79).ascii_char, b' ');
    assert_eq!(w.char_at(23, 79).ascii_char, b'.');
    assert_eq!(w.char_at(22, 78).ascii_char, b'.');
    assert_eq!(row_text(&w, 24), " ".repeat(80));
    w.shape();
}

#[test]
fn clear_row_blanks_one_row() {
    let color = ColorCode(0x07);
    let cells = vec![VgaChar { ascii_char: b'#', color_code: color }; BUFFER_CELLS];
    let mut w = Writer::new(color, cells);
    w.clear_row(3);
    assert_eq!(row_text(&w, 3), " ".repeat(80));
    assert_eq!(row_text(&w, 2), "#".repeat(80));
    assert_eq!(row_text(&w, 4), "#".repeat(80));
}

#[test]
fn backspace_erases_last_char() {
    let mut w = console();
    w.write_string("ab");
    w.write_string("\u{8}");
    assert_eq!(w.col_pos(), 1);
    assert_eq!(w.char_at(24, 1).ascii_char, b' ');
    assert_eq!(w.char_at(24, 0).ascii_char, b'a');
}

#[test]
fn backspace_at_line_start_stays() {
    let mut w = console();
    w.write_non_print(8);
    assert_eq!(w.col_pos(), 0);
    assert_eq!(w.char_at(24, 0).ascii_char, b' ');
}

#[test]
fn non_printable_bytes_show_block() {
    let mut w = console();
    w.write_string("\u{e9}");
    assert_eq!(w.col_pos(), 2);
    assert_eq!(w.char_at(24, 0).ascii_char, 0xfe);
    assert_eq!(w.char_at(24, 1).ascii_char, 0xfe);
    w.write_non_print(0x7f);
    assert_eq!(w.char_at(24, 2).ascii_char, 0xfe);
}

#[test]
fn writing_in_pieces_equals_writing_at_once() {
    let mut a = console();
    let mut b = console();
    a.write_string("hello\nwor");
    a.write_string("ld\u{8}!");
    b.write_string("hello\nworld\u{8}!");
    for r in 0..BUFFER_HEIGHT {
        assert_eq!(row_text(&a, r), row_text(&b, r));
    }
    assert_eq!(a.col_pos(), b.col_pos());
}

#[test]
fn toggle_dot_twice_restores_corner() {
    let mut w = console();
    w.toggle_dot();
    assert_eq!(w.char_at(24, 79).ascii_char, b'.');
    w.toggle_dot();
    assert_eq!(w.char_at(24, 79).ascii_char, b' ');
}

#[test]
fn toggle_dot_blanks_other_chars() {
    let color = ColorCode(0x07);
    let cells = vec![VgaChar { ascii_char: b'x', color_code: color }; BUFFER_CELLS];
    let mut w = Writer::new(color, cells);
    w.toggle_dot();
    assert_eq!(w.char_at(24, 79).ascii_char, b' ');
    w.toggle_dot();
    assert_eq!(w.char_at(24, 79).ascii_char, b'.');
}

#[test]
fn cursor_follows_column() {
    let mut w = console();
    assert_eq!(w.cursor_position(), 1920);
    w.write_string("hello");
    assert_eq!(w.cursor_position(), 1925);
    assert_eq!(
        w.cursor_port_writes(),
        [(0x3d4, 0x0f), (0x3d5, 0x85), (0x3d4, 0x0e), (0x3d5, 0x07)]
    );
    assert_eq!(w.color_code(), ColorCode(0x8a));
}
