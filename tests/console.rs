use rcpu_os::terminal::{Color, ColorCode, ScreenChar, Writer, BUFFER_HEIGHT, BUFFER_WIDTH};

fn yellow_on_black() -> ColorCode {
    ColorCode::new(Color::Yellow, Color::Black)
}

#[test]
fn color_code_packs_background_high() {
    assert_eq!(yellow_on_black(), ColorCode(0x0e));
    assert_eq!(ColorCode::new(Color::White, Color::Blue), ColorCode(0x1f));
    assert_eq!(Color::LightRed.index(), 12);
}

fn bottom_row(w: &Writer) -> Vec<u8> {
    (0..BUFFER_WIDTH).map(|c| w.cell(BUFFER_HEIGHT - 1, c).ascii_character).collect()
}

#[test]
fn write_string_on_bottom_row() {
    let mut w = Writer::new(yellow_on_black());
    w.write_string("Hi\u{e9}!");
    let row = bottom_row(&w);
    assert_eq!(&row[..5], &[b'H', b'i', 0xfe, 0xfe, b'!']);
    assert_eq!(row[5], b' ');
    assert_eq!(
        w.cell(BUFFER_HEIGHT - 1, 0),
        ScreenChar { ascii_character: b'H', color_code: yellow_on_black() }
    );
}

#[test]
fn newline_scrolls_up() {
    let mut w = Writer::new(yellow_on_black());
    w.write_string("ab\ncd");
    assert_eq!(w.cell(BUFFER_HEIGHT - 2, 0).ascii_character, b'a');
    assert_eq!(w.cell(BUFFER_HEIGHT - 2, 1).ascii_character, b'b');
    assert_eq!(&bottom_row(&w)[..3], b"cd ");
}

#[test]
fn full_row_wraps_to_a_new_line() {
    let mut w = Writer::new(yellow_on_black());
    for _ in 0..BUFFER_WIDTH {
        w.write_byte(b'x');
    }
    w.write_byte(b'y');
    assert_eq!(w.cell(BUFFER_HEIGHT - 2, BUFFER_WIDTH - 1).ascii_character, b'x');
    assert_eq!(w.cell(BUFFER_HEIGHT - 1, 0).ascii_character, b'y');
    assert_eq!(w.cell(BUFFER_HEIGHT - 1, 1).ascii_character, b' ');
}

#[test]
fn put_char_at_leaves_the_column() {
    let mut w = Writer::new(yellow_on_black());
    w.put_char_at(b'>', 3, 0);
    w.write_byte(b'q');
    assert_eq!(w.cell(3, 0).ascii_character, b'>');
    assert_eq!(w.cell(BUFFER_HEIGHT - 1, 0).ascii_character, b'q');
}
