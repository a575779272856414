use ostridge::ps_2_scancodes::{ControlKey, PS2ScancodeReader, ScanCodeSet, PS2_PORT_ADDR};

fn set1_reader() -> PS2ScancodeReader {
    PS2ScancodeReader::new(ScanCodeSet::SET1)
}

#[test]
fn number_row_pressed_and_released() {
    let expected = ['1', '2', '3', '4', '5', '6', '7', '8', '9', '0', '-', '='];
    for (i, glyph) in expected.iter().enumerate() {
        let code = 0x02u8 + i as u8;
        let mut reader = set1_reader();

        let pressed = reader.match_scancode(code);
        assert_eq!(pressed.key, Some(*glyph));
        assert_eq!(pressed.control_key, None);
        assert!(pressed.pressed);
        assert!(!pressed.keypad);

        let released = reader.match_scancode(code | 0x80);
        assert_eq!(released.key, Some(*glyph));
        assert_eq!(released.control_key, None);
        assert!(!released.pressed);
        assert!(!released.keypad);
    }
}

#[test]
fn escape_prefix_reports_nothing_and_primes() {
    let mut reader = set1_reader();
    let event = reader.match_scancode(0xE0);
    assert_eq!(event.key, None);
    assert_eq!(event.control_key, None);
    assert!(reader.double_code);
}

#[test]
fn escaped_enter_is_keypad_enter() {
    let mut reader = set1_reader();
    reader.match_scancode(0xE0);
    let keypad_enter = reader.match_scancode(0x1C);
    assert_eq!(keypad_enter.control_key, Some(ControlKey::Enter));
    assert!(keypad_enter.keypad);
    assert!(keypad_enter.pressed);
    assert!(!reader.double_code);

    let plain_enter = reader.match_scancode(0x1C);
    assert_eq!(plain_enter.control_key, Some(ControlKey::Enter));
    assert!(!plain_enter.keypad);
    assert!(plain_enter.pressed);
}

#[test]
fn escape_state_never_leaks() {
    let mut reader = set1_reader();
    // A resolved escape pair leaves nothing behind.
    reader.match_scancode(0xE0);
    reader.match_scancode(0x1D);
    let a = reader.match_scancode(0x1E);
    assert_eq!(a.key, Some('a'));
    assert!(a.pressed);
    assert!(!a.keypad);

    // Even a byte no table knows consumes the pending escape.
    reader.match_scancode(0xE0);
    let unknown = reader.match_scancode(0x54);
    assert_eq!(unknown.key, None);
    assert_eq!(unknown.control_key, None);
    assert!(!reader.double_code);
    let plain = reader.match_scancode(0x1C);
    assert_eq!(plain.control_key, Some(ControlKey::Enter));
    assert!(!plain.keypad);
}

#[test]
fn unknown_byte_reports_nothing() {
    let mut reader = set1_reader();
    let event = reader.match_scancode(0x54);
    assert_eq!(event.key, None);
    assert_eq!(event.control_key, None);
    assert!(!event.pressed);
    assert!(!event.keypad);
}

#[test]
fn pair_symmetry_across_base_table() {
    // Every implemented press code below 0x80 has its release twin at
    // code | 0x80: same glyph or control key, released instead of pressed.
    for code in 0x01u8..0x80 {
        let mut reader = set1_reader();
        let pressed = reader.match_scancode(code);
        if pressed.key.is_none() && pressed.control_key.is_none() {
            continue;
        }
        let mut reader = set1_reader();
        let released = reader.match_scancode(code | 0x80);
        assert_eq!(released.key, pressed.key, "key mismatch at {code:#x}");
        assert_eq!(
            released.control_key, pressed.control_key,
            "control key mismatch at {code:#x}"
        );
        assert_eq!(released.keypad, pressed.keypad, "keypad mismatch at {code:#x}");
        assert!(pressed.pressed);
        assert!(!released.pressed);
    }
}

#[test]
fn escape_only_codes_need_the_prefix() {
    let mut reader = set1_reader();
    let bare = reader.match_scancode(0x5B);
    assert_eq!(bare.key, None);
    assert_eq!(bare.control_key, None);

    reader.match_scancode(0xE0);
    let left_gui = reader.match_scancode(0x5B);
    assert_eq!(left_gui.control_key, Some(ControlKey::LeftGUI));
    assert!(left_gui.pressed);
}

#[test]
fn keypad_digits_and_their_escaped_navigation() {
    let mut reader = set1_reader();
    let seven = reader.match_scancode(0x47);
    assert_eq!(seven.key, Some('7'));
    assert!(seven.keypad);

    reader.match_scancode(0xE0);
    let home = reader.match_scancode(0x47);
    assert_eq!(home.control_key, Some(ControlKey::Home));
    assert!(!home.keypad);
}

#[test]
fn print_screen_release_pairing() {
    // The escaped tables pair print screen asymmetrically: 0xE0 0x2A presses
    // it, 0xE0 0xB7 releases it, and 0xE0 0xAA stays a left-shift release.
    let mut reader = set1_reader();
    reader.match_scancode(0xE0);
    let press = reader.match_scancode(0x2A);
    assert_eq!(press.control_key, Some(ControlKey::PrintScreen));
    assert!(press.pressed);

    reader.match_scancode(0xE0);
    let release = reader.match_scancode(0xB7);
    assert_eq!(release.control_key, Some(ControlKey::PrintScreen));
    assert!(!release.pressed);

    reader.match_scancode(0xE0);
    let shift_release = reader.match_scancode(0xAA);
    assert_eq!(shift_release.control_key, Some(ControlKey::LeftShift));
    assert!(!shift_release.pressed);
}

#[test]
fn right_and_left_modifiers() {
    let mut reader = set1_reader();
    let left_ctrl = reader.match_scancode(0x1D);
    assert_eq!(left_ctrl.control_key, Some(ControlKey::LeftCtrl));

    reader.match_scancode(0xE0);
    let right_ctrl = reader.match_scancode(0x1D);
    assert_eq!(right_ctrl.control_key, Some(ControlKey::RightCtrl));

    let left_alt = reader.match_scancode(0x38);
    assert_eq!(left_alt.control_key, Some(ControlKey::LeftAlt));

    reader.match_scancode(0xE0);
    let right_alt = reader.match_scancode(0x38);
    assert_eq!(right_alt.control_key, Some(ControlKey::RightAlt));
}

#[test]
fn unimplemented_sets_report_nothing() {
    let mut reader = PS2ScancodeReader::new(ScanCodeSet::SET2);
    let event = reader.match_scancode(0x1C);
    assert_eq!(event.key, None);
    assert_eq!(event.control_key, None);

    reader.set_scancode_set(ScanCodeSet::SET3);
    let event = reader.match_scancode(0x02);
    assert_eq!(event.key, None);
    assert_eq!(event.control_key, None);

    reader.set_scancode_set(ScanCodeSet::SET1);
    let event = reader.match_scancode(0x02);
    assert_eq!(event.key, Some('1'));
}

#[test]
fn keyboard_data_port() {
    assert_eq!(PS2_PORT_ADDR, 0x60);
}
