use oscore::vga_buffer::{color_code, Color, VgaBufferWriter, BUFFER_HEIGHT, BUFFER_WIDTH};

const WHITE_ON_BLACK: u8 = 0x0F;

#[test]
fn color_codes_pack_nibbles() {
    assert_eq!(color_code(Color::White, Color::Black), 0x0F);
    assert_eq!(color_code(Color::Black, Color::White), 0xF0);
    assert_eq!(color_code(Color::Yellow, Color::Blue), 0x1E);
    assert_eq!(Color::LightGray.as_u8(), 7);
}

#[test]
fn fresh_console_is_default() {
    let w = VgaBufferWriter::new();
    assert_eq!(w.cursor_col(), 0);
    for row in 0..BUFFER_HEIGHT {
        for col in 0..BUFFER_WIDTH {
            let cell = w.char_at(row, col);
            assert_eq!(cell.ascii_character, 0);
            assert_eq!(cell.color_code, 0);
        }
    }
}

#[test]
fn short_line_lands_on_bottom_row() {
    let mut w = VgaBufferWriter::new();
    let text = b"Hello, kernel";
    w.write_bytes(text);
    assert_eq!(w.cursor_col(), text.len());
    for (i, &b) in text.iter().enumerate() {
        let cell = w.char_at(BUFFER_HEIGHT - 1, i);
        assert_eq!(cell.ascii_character, b);
        assert_eq!(cell.color_code, WHITE_ON_BLACK);
    }
    for col in text.len()..BUFFER_WIDTH {
        assert_eq!(w.char_at(BUFFER_HEIGHT - 1, col).ascii_character, 0);
    }
    for row in 0..BUFFER_HEIGHT - 1 {
        for col in 0..BUFFER_WIDTH {
            assert_eq!(w.char_at(row, col).ascii_character, 0);
        }
    }
}

#[test]
fn long_line_wraps_to_next_row() {
    let mut w = VgaBufferWriter::new();
    let long_line = [b'A'; BUFFER_WIDTH + 10];
    w.write_bytes(&long_line);
    for col in 0..BUFFER_WIDTH {
        assert_eq!(w.char_at(BUFFER_HEIGHT - 2, col).ascii_character, b'A');
    }
    for col in 0..10 {
        assert_eq!(w.char_at(BUFFER_HEIGHT - 1, col).ascii_character, b'A');
    }
    for col in 10..BUFFER_WIDTH {
        assert_eq!(w.char_at(BUFFER_HEIGHT - 1, col).ascii_character, 0);
    }
    assert_eq!(w.cursor_col(), 10);
}

#[test]
fn newline_scrolls_text_up() {
    let mut w = VgaBufferWriter::new();
    w.write_bytes(b"ab\ncd");
    assert_eq!(w.char_at(BUFFER_HEIGHT - 2, 0).ascii_character, b'a');
    assert_eq!(w.char_at(BUFFER_HEIGHT - 2, 1).ascii_character, b'b');
    assert_eq!(w.char_at(BUFFER_HEIGHT - 1, 0).ascii_character, b'c');
    assert_eq!(w.char_at(BUFFER_HEIGHT - 1, 1).ascii_character, b'd');
    assert_eq!(w.cursor_col(), 2);
}

#[test]
fn many_lines_do_not_disturb_the_writer() {
    let mut w = VgaBufferWriter::new();
    for _ in 0..200 {
        w.write_bytes(b"test output line\n");
    }
    assert_eq!(w.cursor_col(), 0);
    for col in 0..16 {
        assert_eq!(
            w.char_at(BUFFER_HEIGHT - 2, col).ascii_character,
            b"test output line"[col]
        );
    }
}

#[test]
fn unprintable_byte_becomes_fallback_glyph() {
    let mut w = VgaBufferWriter::new();
    w.write_bytes(&[0x01, 0x7F, 0x80]);
    for col in 0..3 {
        assert_eq!(w.char_at(BUFFER_HEIGHT - 1, col).ascii_character, 0xFE);
    }
}

#[test]
fn print_changes_the_colour() {
    let mut w = VgaBufferWriter::new();
    w.print(Color::Red, b"r");
    let cell = w.char_at(BUFFER_HEIGHT - 1, 0);
    assert_eq!(cell.ascii_character, b'r');
    assert_eq!(cell.color_code, color_code(Color::Red, Color::Black));
}

#[test]
fn error_level_tags_in_red_then_message_in_white() {
    let mut w = VgaBufferWriter::new();
    w.error(b"boom");
    let tag = b"[ ERROR ] ";
    for (i, &b) in tag.iter().enumerate() {
        let cell = w.char_at(BUFFER_HEIGHT - 2, i);
        assert_eq!(cell.ascii_character, b);
        assert_eq!(cell.color_code, color_code(Color::Red, Color::Black));
    }
    for (i, &b) in b"boom".iter().enumerate() {
        let cell = w.char_at(BUFFER_HEIGHT - 2, tag.len() + i);
        assert_eq!(cell.ascii_character, b);
        assert_eq!(cell.color_code, WHITE_ON_BLACK);
    }
    assert_eq!(w.cursor_col(), 0);
}

#[test]
fn each_level_has_its_tag_and_colour() {
    let mut w = VgaBufferWriter::new();
    w.trace(b"t");
    assert_eq!(w.char_at(BUFFER_HEIGHT - 2, 2).ascii_character, b'T');
    assert_eq!(
        w.char_at(BUFFER_HEIGHT - 2, 0).color_code,
        color_code(Color::Cyan, Color::Black)
    );
    w.debug(b"d");
    assert_eq!(w.char_at(BUFFER_HEIGHT - 2, 2).ascii_character, b'D');
    assert_eq!(
        w.char_at(BUFFER_HEIGHT - 2, 0).color_code,
        color_code(Color::LightBlue, Color::Black)
    );
    w.info(b"i");
    assert_eq!(w.char_at(BUFFER_HEIGHT - 2, 2).ascii_character, b'I');
    assert_eq!(
        w.char_at(BUFFER_HEIGHT - 2, 0).color_code,
        color_code(Color::Green, Color::Black)
    );
    w.warn(b"w");
    assert_eq!(w.char_at(BUFFER_HEIGHT - 2, 2).ascii_character, b'W');
    assert_eq!(
        w.char_at(BUFFER_HEIGHT - 2, 0).color_code,
        color_code(Color::Yellow, Color::Black)
    );
}
