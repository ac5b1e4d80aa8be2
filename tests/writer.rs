use kernel_heap::colors::{Color, ColorCode};
use kernel_heap::commands::clear;
use kernel_heap::writer::{Buffer, ScreenChar, Writer, BUFFER_HEIGHT, BUFFER_WIDTH};

fn pink() -> ColorCode {
    ColorCode::new(Color::Pink, Color::Black)
}

fn console() -> Writer {
    Writer::new(0, pink(), Buffer::blank(pink()))
}

fn row_text(w: &Writer, row: usize) -> String {
    (0..BUFFER_WIDTH)
        .map(|c| w.buffer().char_at(row, c).ascii_character as char)
        .collect::<String>()
        .trim_end()
        .to_string()
}

#[test]
fn write_string_goes_to_bottom_row() {
    let mut w = console();
    w.write_string("hello");
    assert_eq!(row_text(&w, BUFFER_HEIGHT - 1), "hello");
    assert_eq!(w.column_position(), 5);
    assert_eq!(
        w.buffer().char_at(BUFFER_HEIGHT - 1, 0),
        ScreenChar { ascii_character: b'h', color_code: pink() }
    );
}

#[test]
fn newline_scrolls_up() {
    let mut w = console();
    w.write_string("\nSome test string that fits on a single line\n");
    assert_eq!(row_text(&w, BUFFER_HEIGHT - 2), "Some test string that fits on a single line");
    assert_eq!(row_text(&w, BUFFER_HEIGHT - 1), "");
    assert_eq!(w.column_position(), 0);
}

#[test]
fn long_line_wraps() {
    let mut w = console();
    let line: String = std::iter::repeat('x').take(BUFFER_WIDTH + 3).collect();
    w.write_string(&line);
    assert_eq!(row_text(&w, BUFFER_HEIGHT - 2).len(), BUFFER_WIDTH);
    assert_eq!(row_text(&w, BUFFER_HEIGHT - 1), "xxx");
    assert_eq!(w.column_position(), 3);
}

#[test]
fn tab_moves_four_columns_and_unprintables_become_blocks() {
    let mut w = console();
    w.write_string("a\tb");
    assert_eq!(w.column_position(), 6);
    assert_eq!(w.buffer().char_at(BUFFER_HEIGHT - 1, 5).ascii_character, b'b');
    w.write_string("\u{e9}");
    assert_eq!(w.buffer().char_at(BUFFER_HEIGHT - 1, 6).ascii_character, 0xfe);
    assert_eq!(w.buffer().char_at(BUFFER_HEIGHT - 1, 7).ascii_character, 0xfe);
}

#[test]
fn write_at_ignores_places_outside_the_grid() {
    let mut w = console();
    let red = ColorCode::new(Color::Red, Color::Yellow);
    w.write_string_at(3, 78, "abcd", red);
    assert_eq!(w.buffer().char_at(3, 78), ScreenChar { ascii_character: b'a', color_code: red });
    assert_eq!(w.buffer().char_at(3, 79).ascii_character, b'b');
    assert_eq!(w.buffer().char_at(4, 0).ascii_character, b' ');
    w.write_byte_at(BUFFER_HEIGHT, 0, b'z', red);
    w.write_byte_at(0, BUFFER_WIDTH, b'z', red);
    assert_eq!(w.column_position(), 0);
}

#[test]
fn delete_char_stops_at_the_prompt() {
    let mut w = console();
    w.write_string("01.01.2025 12:00:00$ ab");
    assert_eq!(w.column_position(), 23);
    w.delete_char();
    assert_eq!(w.column_position(), 22);
    assert_eq!(row_text(&w, BUFFER_HEIGHT - 1), "01.01.2025 12:00:00$ a");
    w.delete_char();
    assert_eq!(w.column_position(), 21);
    w.delete_char();
    assert_eq!(w.column_position(), 21);
    assert_eq!(row_text(&w, BUFFER_HEIGHT - 1), "01.01.2025 12:00:00$");
}

#[test]
fn set_color_code_changes_foreground() {
    let mut w = console();
    w.set_color_code(Color::LightRed);
    w.write_byte(b'x');
    assert_eq!(
        w.buffer().char_at(BUFFER_HEIGHT - 1, 0).color_code,
        ColorCode::new(Color::LightRed, Color::Black)
    );
}

#[test]
fn clear_blanks_everything() {
    let mut w = console();
    w.write_string("one\ntwo");
    w.set_column_position(40);
    clear(&mut w);
    assert_eq!(w.column_position(), 0);
    for row in 0..BUFFER_HEIGHT {
        assert_eq!(row_text(&w, row), "");
    }
}
