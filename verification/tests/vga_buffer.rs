use ostridge::vga_buffer::{
    colour_print, print, Colour, ColourCode, ScreenChar, Writer, BUFFER_HEIGHT, BUFFER_WIDTH,
};

fn empty_char() -> ScreenChar {
    ScreenChar {
        ascii_character: b' ',
        colour_code: ColourCode::new(Colour::Green, Colour::Brown),
    }
}

fn construct_writer() -> Writer {
    Writer::new(ColourCode::new(Colour::Blue, Colour::Magenta), empty_char())
}

#[test]
fn write_byte() {
    let mut writer = construct_writer();
    writer.write_byte(b'X');
    writer.write_byte(b'Y');

    let colour_code = writer.get_colour();
    for i in 0..BUFFER_HEIGHT {
        for j in 0..BUFFER_WIDTH {
            let screen_char = writer.char_at(i, j);

            if i == BUFFER_HEIGHT - 1 && j == 0 {
                assert_eq!(screen_char.ascii_character, b'X');
                assert_eq!(screen_char.colour_code, colour_code);
            } else if i == BUFFER_HEIGHT - 1 && j == 1 {
                assert_eq!(screen_char.ascii_character, b'Y');
                assert_eq!(screen_char.colour_code, colour_code);
            } else {
                assert_eq!(screen_char, empty_char());
            }
        }
    }
}

#[test]
fn write_formatted() {
    let mut writer = construct_writer();
    writer.write_string("a\n");
    writer.write_string(&format!("b{}\n", "c"));

    let colour_code = writer.get_colour();
    for i in 0..BUFFER_HEIGHT {
        for j in 0..BUFFER_WIDTH {
            let screen_char = writer.char_at(i, j);
            if i == BUFFER_HEIGHT - 3 && j == 0 {
                assert_eq!(screen_char.ascii_character, b'a');
                assert_eq!(screen_char.colour_code, colour_code);
            } else if i == BUFFER_HEIGHT - 2 && j == 0 {
                assert_eq!(screen_char.ascii_character, b'b');
                assert_eq!(screen_char.colour_code, colour_code);
            } else if i == BUFFER_HEIGHT - 2 && j == 1 {
                assert_eq!(screen_char.ascii_character, b'c');
                assert_eq!(screen_char.colour_code, colour_code);
            } else if i >= BUFFER_HEIGHT - 2 {
                assert_eq!(screen_char.ascii_character, b' ');
                assert_eq!(screen_char.colour_code, colour_code);
            } else {
                assert_eq!(screen_char, empty_char());
            }
        }
    }
}

#[test]
fn change_colours() {
    let mut writer = construct_writer();
    let old_colour_code = writer.get_colour();
    let new_colour_code = ColourCode::new(Colour::Red, Colour::Pink);

    writer.write_string("a\n");

    // Change colours of the writer
    writer.change_colours(new_colour_code);
    assert_eq!(writer.get_colour(), new_colour_code);

    writer.write_string("b\n");

    for i in 0..BUFFER_HEIGHT {
        for j in 0..BUFFER_WIDTH {
            let screen_char = writer.char_at(i, j);
            if i == BUFFER_HEIGHT - 3 && j == 0 {
                assert_eq!(screen_char.ascii_character, b'a');
                assert_eq!(screen_char.colour_code, old_colour_code);
            } else if i == BUFFER_HEIGHT - 2 && j == 0 {
                assert_eq!(screen_char.ascii_character, b'b');
                assert_eq!(screen_char.colour_code, new_colour_code);
            } else if i >= BUFFER_HEIGHT - 2 {
                assert_eq!(screen_char.ascii_character, b' ');
            } else {
                assert_eq!(screen_char, empty_char());
            }
        }
    }
}

#[test]
fn top_line_shift() {
    let mut writer = construct_writer();

    for _ in 0..BUFFER_HEIGHT {
        writer.write_string("Test\n");
    }

    let colour_code = writer.get_colour();
    for i in 0..BUFFER_HEIGHT {
        for j in 0..BUFFER_WIDTH {
            let screen_char = writer.char_at(i, j);
            if i == BUFFER_HEIGHT - 1 {
                assert_eq!(screen_char.ascii_character, b' ');
                assert_eq!(screen_char.colour_code, colour_code);
            }
        }
    }
}

#[test]
fn non_ascii_chars() {
    let mut writer = construct_writer();

    writer.write_string("\u{f6}\n");
    for i in 0..BUFFER_HEIGHT {
        for j in 0..BUFFER_WIDTH {
            let screen_char = writer.char_at(i, j);
            if i == BUFFER_HEIGHT - 2 && j == 0 {
                assert_eq!(screen_char.ascii_character, 0xfe);
                assert_eq!(screen_char.colour_code, writer.get_colour());
            }
        }
    }
}

#[test]
fn full_row_wraps_to_fresh_line() {
    let mut writer = construct_writer();
    for _ in 0..BUFFER_WIDTH {
        writer.write_byte(b'x');
    }
    // The row is full: the next byte scrolls first and lands on column 0.
    writer.write_byte(b'y');
    assert_eq!(writer.char_at(BUFFER_HEIGHT - 1, 0).ascii_character, b'y');
    assert_eq!(writer.char_at(BUFFER_HEIGHT - 2, 0).ascii_character, b'x');
    assert_eq!(
        writer.char_at(BUFFER_HEIGHT - 2, BUFFER_WIDTH - 1).ascii_character,
        b'x'
    );
}

#[test]
fn unprintable_byte_paints_replacement() {
    let mut writer = construct_writer();
    writer.write_string("\t");
    assert_eq!(writer.char_at(BUFFER_HEIGHT - 1, 0).ascii_character, 0xfe);
    writer.write_string("ok");
    assert_eq!(writer.char_at(BUFFER_HEIGHT - 1, 1).ascii_character, b'o');
    assert_eq!(writer.char_at(BUFFER_HEIGHT - 1, 2).ascii_character, b'k');
}

#[test]
fn print_writes_text() {
    let mut writer = construct_writer();
    print(&mut writer, "READY");
    let expected = b"READY";
    for (j, b) in expected.iter().enumerate() {
        assert_eq!(writer.char_at(BUFFER_HEIGHT - 1, j).ascii_character, *b);
    }
}

#[test]
fn colour_print_restores_colours() {
    let mut writer = construct_writer();
    let own = writer.get_colour();
    colour_print(&mut writer, "Welcome", Colour::Green, Colour::Black);
    // The text lands in the temporary colours ...
    let tinted = ColourCode::new(Colour::Green, Colour::Black);
    assert_eq!(writer.char_at(BUFFER_HEIGHT - 1, 0).ascii_character, b'W');
    assert_eq!(writer.char_at(BUFFER_HEIGHT - 1, 0).colour_code, tinted);
    // ... and the writer's own colours come back afterwards.
    assert_eq!(writer.get_colour(), own);
}

#[test]
fn colour_code_packs_nibbles() {
    // Background in the high four bits, foreground in the low four.
    assert_eq!(ColourCode::new(Colour::Yellow, Colour::Black), ColourCode(14));
    assert_eq!(ColourCode::new(Colour::Blue, Colour::Magenta), ColourCode(0x51));
    assert_eq!(ColourCode::new(Colour::White, Colour::White), ColourCode(0xff));
}
