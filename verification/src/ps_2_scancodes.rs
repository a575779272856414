//! PS/2 scancode decoding.
//!
//! A `PS2ScancodeReader` consumes the raw bytes delivered by the keyboard
//! controller, one byte per interrupt, and classifies each of them as a key
//! event.  Set 1 scancodes are decoded through a fixed base table plus a
//! sparser escape table that is consulted only while the `0xE0` escape prefix
//! is pending; the other scancode sets are unimplemented placeholders that
//! classify every byte as "no actionable key".

use vstd::prelude::*;

verus! {

/// Data port of the PS/2 controller; the keyboard handler reads one byte from
/// it per interrupt.
pub const PS2_PORT_ADDR: u16 = 0x60;

/// Which scancode set the reader decodes against.  Only `SET1` is
/// implemented; the other two classify every byte as "no actionable key".
#[derive(Clone, Copy, PartialEq, Eq, Structural, Debug)]
pub enum ScanCodeSet {
    SET1,
    SET2,
    SET3,
}

/// The named, non-printing keys that set 1 can report.
#[derive(Clone, Copy, PartialEq, Eq, Structural, Debug)]
pub enum ControlKey {
    Escape,
    Backspace,
    Tab,
    Enter,
    LeftCtrl,
    LeftShift,
    RightShift,
    LeftAlt,
    CapsLock,
    F1,
    F2,
    F3,
    F4,
    F5,
    F6,
    F7,
    F8,
    F9,
    F10,
    NumberLock,
    ScrollLock,
    F11,
    F12,
    MultimediaPrevTrack,
    MultimediaNextTrack,
    RightCtrl,
    MultimediaMute,
    MultimediaCalculator,
    MultimediaPlay,
    MultimediaStop,
    MultimediaVolumeDown,
    MultimediaVolumeUp,
    MultimediaWWWHome,
    RightAlt,
    Home,
    CursorUp,
    PageUp,
    CursorLeft,
    CursorRight,
    End,
    CursorDown,
    PageDown,
    Insert,
    Delete,
    LeftGUI,
    RightGUI,
    Apps,
    ACPIPower,
    ACPISleep,
    ACPIWake,
    MultimediaWWWSearch,
    MultimediaWWWFavourites,
    MultimediaWWWRefresh,
    MultimediaWWWStop,
    MultimediaWWWForward,
    MultimediaWWWBack,
    MultimediaMyComputer,
    MultimediaEmail,
    MultimediaSelect,
    PrintScreen,
}

/// One decoded key event.  `key` and `control_key` are mutually exclusive;
/// when both are absent the byte carried no actionable key (an escape prefix,
/// or a code the tables do not know) and the caller discards the event.
#[derive(Clone, Copy, PartialEq, Debug)]
pub struct PS2Key {
    pub key: Option<char>,
    pub control_key: Option<ControlKey>,
    pub pressed: bool,
    pub keypad: bool,
}

/// What a scancode table maps a byte to: a printable glyph, a named control
/// key, or nothing at all.
#[derive(Clone, Copy, PartialEq, Debug)]
pub enum KeySym {
    Glyph(char),
    Control(ControlKey),
    NoKey,
}

/// The decoder: the selected scancode set, and whether the previous byte was
/// the `0xE0` escape prefix of a two-byte sequence.
pub struct PS2ScancodeReader {
    pub scan_code_set: ScanCodeSet,
    pub double_code: bool,
}

/// The event that reports no actionable key.
pub open spec fn no_key() -> PS2Key {
    PS2Key { key: None, control_key: None, pressed: false, keypad: false }
}

/// The set 1 base table, given for press codes (high bit clear).  Each entry
/// is the key the code selects while no escape is pending, and whether that
/// key sits on the numeric keypad.  The same code with the high bit set
/// releases the same key.
pub open spec fn set1_press(code: u8) -> (KeySym, bool) {
    match code {
        0x01 => (KeySym::Control(ControlKey::Escape), false),
        0x02 => (KeySym::Glyph('1'), false),
        0x03 => (KeySym::Glyph('2'), false),
        0x04 => (KeySym::Glyph('3'), false),
        0x05 => (KeySym::Glyph('4'), false),
        0x06 => (KeySym::Glyph('5'), false),
        0x07 => (KeySym::Glyph('6'), false),
        0x08 => (KeySym::Glyph('7'), false),
        0x09 => (KeySym::Glyph('8'), false),
        0x0a => (KeySym::Glyph('9'), false),
        0x0b => (KeySym::Glyph('0'), false),
        0x0c => (KeySym::Glyph('-'), false),
        0x0d => (KeySym::Glyph('='), false),
        0x0e => (KeySym::Control(ControlKey::Backspace), false),
        0x0f => (KeySym::Control(ControlKey::Tab), false),
        0x10 => (KeySym::Glyph('q'), false),
        0x11 => (KeySym::Glyph('w'), false),
        0x12 => (KeySym::Glyph('e'), false),
        0x13 => (KeySym::Glyph('r'), false),
        0x14 => (KeySym::Glyph('t'), false),
        0x15 => (KeySym::Glyph('y'), false),
        0x16 => (KeySym::Glyph('u'), false),
        0x17 => (KeySym::Glyph('i'), false),
        0x18 => (KeySym::Glyph('o'), false),
        0x19 => (KeySym::Glyph('p'), false),
        0x1a => (KeySym::Glyph('['), false),
        0x1b => (KeySym::Glyph(']'), false),
        0x1c => (KeySym::Control(ControlKey::Enter), false),
        0x1d => (KeySym::Control(ControlKey::LeftCtrl), false),
        0x1e => (KeySym::Glyph('a'), false),
        0x1f => (KeySym::Glyph('s'), false),
        0x20 => (KeySym::Glyph('d'), false),
        0x21 => (KeySym::Glyph('f'), false),
        0x22 => (KeySym::Glyph('g'), false),
        0x23 => (KeySym::Glyph('h'), false),
        0x24 => (KeySym::Glyph('j'), false),
        0x25 => (KeySym::Glyph('k'), false),
        0x26 => (KeySym::Glyph('l'), false),
        0x27 => (KeySym::Glyph(';'), false),
        0x28 => (KeySym::Glyph('\''), false),
        0x29 => (KeySym::Glyph('`'), false),
        0x2a => (KeySym::Control(ControlKey::LeftShift), false),
        0x2b => (KeySym::Glyph('\\'), false),
        0x2c => (KeySym::Glyph('z'), false),
        0x2d => (KeySym::Glyph('x'), false),
        0x2e => (KeySym::Glyph('c'), false),
        0x2f => (KeySym::Glyph('v'), false),
        0x30 => (KeySym::Glyph('b'), false),
        0x31 => (KeySym::Glyph('n'), false),
        0x32 => (KeySym::Glyph('m'), false),
        0x33 => (KeySym::Glyph(','), false),
        0x34 => (KeySym::Glyph('.'), false),
        0x35 => (KeySym::Glyph('/'), false),
        0x36 => (KeySym::Control(ControlKey::RightShift), false),
        0x37 => (KeySym::Glyph('*'), true),
        0x38 => (KeySym::Control(ControlKey::LeftAlt), false),
        0x39 => (KeySym::Glyph(' '), false),
        0x3a => (KeySym::Control(ControlKey::CapsLock), false),
        0x3b => (KeySym::Control(ControlKey::F1), false),
        0x3c => (KeySym::Control(ControlKey::F2), false),
        0x3d => (KeySym::Control(ControlKey::F3), false),
        0x3e => (KeySym::Control(ControlKey::F4), false),
        0x3f => (KeySym::Control(ControlKey::F5), false),
        0x40 => (KeySym::Control(ControlKey::F6), false),
        0x41 => (KeySym::Control(ControlKey::F7), false),
        0x42 => (KeySym::Control(ControlKey::F8), false),
        0x43 => (KeySym::Control(ControlKey::F9), false),
        0x44 => (KeySym::Control(ControlKey::F10), false),
        0x45 => (KeySym::Control(ControlKey::NumberLock), false),
        0x46 => (KeySym::Control(ControlKey::ScrollLock), false),
        0x47 => (KeySym::Glyph('7'), true),
        0x48 => (KeySym::Glyph('8'), true),
        0x49 => (KeySym::Glyph('9'), true),
        0x4a => (KeySym::Glyph('-'), true),
        0x4b => (KeySym::Glyph('4'), true),
        0x4c => (KeySym::Glyph('5'), true),
        0x4d => (KeySym::Glyph('6'), true),
        0x4e => (KeySym::Glyph('+'), true),
        0x4f => (KeySym::Glyph('1'), true),
        0x50 => (KeySym::Glyph('2'), true),
        0x51 => (KeySym::Glyph('3'), true),
        0x52 => (KeySym::Glyph('0'), true),
        0x53 => (KeySym::Glyph('.'), true),
        0x57 => (KeySym::Control(ControlKey::F11), false),
        0x58 => (KeySym::Control(ControlKey::F12), false),
        _ => (KeySym::NoKey, false),
    }
}

/// The set 1 escape table: the meaning a byte takes when the previous byte
/// was the `0xE0` prefix.  Codes absent from this table keep their base
/// meaning even after the prefix.  Press and release entries are listed
/// separately because set 1 pairs them asymmetrically on the wire
/// around print screen: `0xE0 0x2A` presses it but `0xE0 0xB7` releases it,
/// while `0xE0 0xAA` stays a plain left-shift release.
pub open spec fn set1_escape(code: u8) -> Option<(KeySym, bool)> {
    match code {
        0x10 => Some((KeySym::Control(ControlKey::MultimediaPrevTrack), false)),
        0x19 => Some((KeySym::Control(ControlKey::MultimediaNextTrack), false)),
        0x1c => Some((KeySym::Control(ControlKey::Enter), true)),
        0x1d => Some((KeySym::Control(ControlKey::RightCtrl), false)),
        0x20 => Some((KeySym::Control(ControlKey::MultimediaMute), false)),
        0x21 => Some((KeySym::Control(ControlKey::MultimediaCalculator), false)),
        0x22 => Some((KeySym::Control(ControlKey::MultimediaPlay), false)),
        0x24 => Some((KeySym::Control(ControlKey::MultimediaStop), false)),
        0x2a => Some((KeySym::Control(ControlKey::PrintScreen), false)),
        0x2e => Some((KeySym::Control(ControlKey::MultimediaVolumeDown), false)),
        0x30 => Some((KeySym::Control(ControlKey::MultimediaVolumeUp), false)),
        0x32 => Some((KeySym::Control(ControlKey::MultimediaWWWHome), false)),
        0x35 => Some((KeySym::Glyph('/'), true)),
        0x38 => Some((KeySym::Control(ControlKey::RightAlt), false)),
        0x47 => Some((KeySym::Control(ControlKey::Home), false)),
        0x48 => Some((KeySym::Control(ControlKey::CursorUp), false)),
        0x49 => Some((KeySym::Control(ControlKey::PageUp), false)),
        0x4b => Some((KeySym::Control(ControlKey::CursorLeft), false)),
        0x4d => Some((KeySym::Control(ControlKey::CursorRight), false)),
        0x4f => Some((KeySym::Control(ControlKey::End), false)),
        0x50 => Some((KeySym::Control(ControlKey::CursorDown), false)),
        0x51 => Some((KeySym::Control(ControlKey::PageDown), false)),
        0x52 => Some((KeySym::Control(ControlKey::Insert), false)),
        0x53 => Some((KeySym::Control(ControlKey::Delete), false)),
        0x5b => Some((KeySym::Control(ControlKey::LeftGUI), false)),
        0x5c => Some((KeySym::Control(ControlKey::RightGUI), false)),
        0x5d => Some((KeySym::Control(ControlKey::Apps), false)),
        0x5e => Some((KeySym::Control(ControlKey::ACPIPower), false)),
        0x5f => Some((KeySym::Control(ControlKey::ACPISleep), false)),
        0x63 => Some((KeySym::Control(ControlKey::ACPIWake), false)),
        0x65 => Some((KeySym::Control(ControlKey::MultimediaWWWSearch), false)),
        0x66 => Some((KeySym::Control(ControlKey::MultimediaWWWFavourites), false)),
        0x67 => Some((KeySym::Control(ControlKey::MultimediaWWWRefresh), false)),
        0x68 => Some((KeySym::Control(ControlKey::MultimediaWWWStop), false)),
        0x69 => Some((KeySym::Control(ControlKey::MultimediaWWWForward), false)),
        0x6a => Some((KeySym::Control(ControlKey::MultimediaWWWBack), false)),
        0x6b => Some((KeySym::Control(ControlKey::MultimediaMyComputer), false)),
        0x6c => Some((KeySym::Control(ControlKey::MultimediaEmail), false)),
        0x6d => Some((KeySym::Control(ControlKey::MultimediaSelect), false)),
        0x90 => Some((KeySym::Control(ControlKey::MultimediaPrevTrack), false)),
        0x99 => Some((KeySym::Control(ControlKey::MultimediaNextTrack), false)),
        0x9c => Some((KeySym::Control(ControlKey::Enter), true)),
        0x9d => Some((KeySym::Control(ControlKey::RightCtrl), false)),
        0xa0 => Some((KeySym::Control(ControlKey::MultimediaMute), false)),
        0xa1 => Some((KeySym::Control(ControlKey::MultimediaCalculator), false)),
        0xa2 => Some((KeySym::Control(ControlKey::MultimediaPlay), false)),
        0xa4 => Some((KeySym::Control(ControlKey::MultimediaStop), false)),
        0xae => Some((KeySym::Control(ControlKey::MultimediaVolumeDown), false)),
        0xb0 => Some((KeySym::Control(ControlKey::MultimediaVolumeUp), false)),
        0xb2 => Some((KeySym::Control(ControlKey::MultimediaWWWHome), false)),
        0xb5 => Some((KeySym::Glyph('/'), true)),
        0xb7 => Some((KeySym::Control(ControlKey::PrintScreen), false)),
        0xb8 => Some((KeySym::Control(ControlKey::RightAlt), false)),
        0xc7 => Some((KeySym::Control(ControlKey::Home), false)),
        0xc8 => Some((KeySym::Control(ControlKey::CursorUp), false)),
        0xc9 => Some((KeySym::Control(ControlKey::PageUp), false)),
        0xcb => Some((KeySym::Control(ControlKey::CursorLeft), false)),
        0xcd => Some((KeySym::Control(ControlKey::CursorRight), false)),
        0xcf => Some((KeySym::Control(ControlKey::End), false)),
        0xd0 => Some((KeySym::Control(ControlKey::CursorDown), false)),
        0xd1 => Some((KeySym::Control(ControlKey::PageDown), false)),
        0xd2 => Some((KeySym::Control(ControlKey::Insert), false)),
        0xd3 => Some((KeySym::Control(ControlKey::Delete), false)),
        0xdb => Some((KeySym::Control(ControlKey::LeftGUI), false)),
        0xdc => Some((KeySym::Control(ControlKey::RightGUI), false)),
        0xdd => Some((KeySym::Control(ControlKey::Apps), false)),
        0xde => Some((KeySym::Control(ControlKey::ACPIPower), false)),
        0xdf => Some((KeySym::Control(ControlKey::ACPISleep), false)),
        0xe3 => Some((KeySym::Control(ControlKey::ACPIWake), false)),
        0xe5 => Some((KeySym::Control(ControlKey::MultimediaWWWSearch), false)),
        0xe6 => Some((KeySym::Control(ControlKey::MultimediaWWWFavourites), false)),
        0xe7 => Some((KeySym::Control(ControlKey::MultimediaWWWRefresh), false)),
        0xe8 => Some((KeySym::Control(ControlKey::MultimediaWWWStop), false)),
        0xe9 => Some((KeySym::Control(ControlKey::MultimediaWWWForward), false)),
        0xea => Some((KeySym::Control(ControlKey::MultimediaWWWBack), false)),
        0xeb => Some((KeySym::Control(ControlKey::MultimediaMyComputer), false)),
        0xec => Some((KeySym::Control(ControlKey::MultimediaEmail), false)),
        0xed => Some((KeySym::Control(ControlKey::MultimediaSelect), false)),
        _ => None,
    }
}

/// Base meaning of any byte: a code with the high bit set releases the key
/// that the same code with the high bit clear presses.
pub open spec fn set1_base(code: u8) -> (KeySym, bool) {
    if code < 0x80 {
        set1_press(code)
    } else {
        set1_press((code - 0x80) as u8)
    }
}

/// The table entry a byte resolves to: the escape table when the escape flag
/// is set and the byte appears there, the base table otherwise.
pub open spec fn set1_entry(escape_pending: bool, code: u8) -> (KeySym, bool) {
    if escape_pending {
        match set1_escape(code) {
            Some(e) => e,
            None => set1_base(code),
        }
    } else {
        set1_base(code)
    }
}

/// The key event a non-prefix byte decodes to in set 1.  A byte whose entry
/// is a key reports pressed exactly when its high bit is clear; a byte no
/// table knows reports no actionable key.
pub open spec fn set1_decode(escape_pending: bool, code: u8) -> PS2Key {
    let entry = set1_entry(escape_pending, code);
    match entry.0 {
        KeySym::Glyph(c) => PS2Key {
            key: Some(c),
            control_key: None,
            pressed: code < 0x80,
            keypad: entry.1,
        },
        KeySym::Control(k) => PS2Key {
            key: None,
            control_key: Some(k),
            pressed: code < 0x80,
            keypad: entry.1,
        },
        KeySym::NoKey => no_key(),
    }
}

impl PS2ScancodeReader {
    /// One decoder step: the state after classifying `code`, and the key
    /// event reported for it.  In set 1 the `0xE0` prefix only primes the
    /// escape flag; every other byte is decoded against the current flag and
    /// clears it.  The unimplemented sets report no actionable key and leave
    /// the state alone.
    pub open spec fn step(self, code: u8) -> (PS2ScancodeReader, PS2Key) {
        match self.scan_code_set {
            ScanCodeSet::SET1 => if code == 0xE0 {
                (PS2ScancodeReader { double_code: true, ..self }, no_key())
            } else {
                (
                    PS2ScancodeReader { double_code: false, ..self },
                    set1_decode(self.double_code, code),
                )
            },
            _ => (self, no_key()),
        }
    }
}

/// The glyph on the number row that a code between `0x02` and `0x0D`
/// selects.
pub open spec fn number_row_char(code: u8) -> char {
    match code {
        0x02 => '1',
        0x03 => '2',
        0x04 => '3',
        0x05 => '4',
        0x06 => '5',
        0x07 => '6',
        0x08 => '7',
        0x09 => '8',
        0x0a => '9',
        0x0b => '0',
        0x0c => '-',
        _ => '=',
    }
}

/// Setting the high bit of a press code is the same as adding `0x80`.
proof fn lemma_or_high_bit(code: u8)
    requires
        code < 0x80,
    ensures
        code | 0x80 == code + 0x80,
{
    assert(code | 0x80 == code + 0x80) by (bit_vector)
        requires
            code < 0x80,
    ;
}

/// Law: with no escape pending, every number-row byte decodes to its digit
/// or symbol as a press, and the same byte with the high bit set decodes to
/// the same glyph as a release.
pub proof fn lemma_number_row(code: u8)
    requires
        0x02 <= code <= 0x0D,
    ensures
        set1_decode(false, code) == (PS2Key {
            key: Some(number_row_char(code)),
            control_key: None,
            pressed: true,
            keypad: false,
        }),
        set1_decode(false, code | 0x80) == (PS2Key {
            key: Some(number_row_char(code)),
            control_key: None,
            pressed: false,
            keypad: false,
        }),
{
    lemma_or_high_bit(code);
}

/// Law: the escape prefix itself reports no actionable key and primes the
/// escape flag; the very next byte is decoded against that flag and clears
/// it again, whatever it resolves to.
pub proof fn lemma_escape_sensitivity(r: PS2ScancodeReader, c: u8)
    requires
        r.scan_code_set == ScanCodeSet::SET1,
        c != 0xE0,
    ensures
        r.step(0xE0).1 == no_key(),
        r.step(0xE0).0.double_code,
        r.step(0xE0).0.step(c).1 == set1_decode(true, c),
        !r.step(0xE0).0.step(c).0.double_code,
{
}

/// Law: escape state never leaks across more than one byte.  After
/// classifying any byte other than the prefix, the next byte gets its plain
/// unescaped meaning.
pub proof fn lemma_escape_never_leaks(r: PS2ScancodeReader, c1: u8, c2: u8)
    requires
        r.scan_code_set == ScanCodeSet::SET1,
        c1 != 0xE0,
        c2 != 0xE0,
    ensures
        r.step(c1).0.step(c2).1 == set1_decode(false, c2),
{
}

/// Law: every implemented press code below `0x80` in the base table has its
/// release twin at `code | 0x80`, reporting the same glyph or control key,
/// from the same keypad, released instead of pressed.
pub proof fn lemma_pair_symmetry(code: u8)
    requires
        code < 0x80,
        !(set1_press(code).0 is NoKey),
    ensures
        set1_decode(false, code).pressed,
        !set1_decode(false, code | 0x80).pressed,
        set1_decode(false, code | 0x80).key == set1_decode(false, code).key,
        set1_decode(false, code | 0x80).control_key == set1_decode(false, code).control_key,
        set1_decode(false, code | 0x80).keypad == set1_decode(false, code).keypad,
{
    lemma_or_high_bit(code);
}

/// Law: a key event is a mutually exclusive choice: it never carries both a
/// glyph and a control key, and an event that reports released or keypad
/// carries one of the two.
pub proof fn lemma_key_event_exclusive(r: PS2ScancodeReader, code: u8)
    ensures
        !(r.step(code).1.key is Some && r.step(code).1.control_key is Some),
        r.step(code).1.keypad ==> (r.step(code).1.key is Some || r.step(code).1.control_key
            is Some),
{
}

/// Executable mirror of the base table.
fn lookup_press(code: u8) -> (e: (KeySym, bool))
    ensures
        e == set1_press(code),
{
    match code {
        0x01 => (KeySym::Control(ControlKey::Escape), false),
        0x02 => (KeySym::Glyph('1'), false),
        0x03 => (KeySym::Glyph('2'), false),
        0x04 => (KeySym::Glyph('3'), false),
        0x05 => (KeySym::Glyph('4'), false),
        0x06 => (KeySym::Glyph('5'), false),
        0x07 => (KeySym::Glyph('6'), false),
        0x08 => (KeySym::Glyph('7'), false),
        0x09 => (KeySym::Glyph('8'), false),
        0x0a => (KeySym::Glyph('9'), false),
        0x0b => (KeySym::Glyph('0'), false),
        0x0c => (KeySym::Glyph('-'), false),
        0x0d => (KeySym::Glyph('='), false),
        0x0e => (KeySym::Control(ControlKey::Backspace), false),
        0x0f => (KeySym::Control(ControlKey::Tab), false),
        0x10 => (KeySym::Glyph('q'), false),
        0x11 => (KeySym::Glyph('w'), false),
        0x12 => (KeySym::Glyph('e'), false),
        0x13 => (KeySym::Glyph('r'), false),
        0x14 => (KeySym::Glyph('t'), false),
        0x15 => (KeySym::Glyph('y'), false),
        0x16 => (KeySym::Glyph('u'), false),
        0x17 => (KeySym::Glyph('i'), false),
        0x18 => (KeySym::Glyph('o'), false),
        0x19 => (KeySym::Glyph('p'), false),
        0x1a => (KeySym::Glyph('['), false),
        0x1b => (KeySym::Glyph(']'), false),
        0x1c => (KeySym::Control(ControlKey::Enter), false),
        0x1d => (KeySym::Control(ControlKey::LeftCtrl), false),
        0x1e => (KeySym::Glyph('a'), false),
        0x1f => (KeySym::Glyph('s'), false),
        0x20 => (KeySym::Glyph('d'), false),
        0x21 => (KeySym::Glyph('f'), false),
        0x22 => (KeySym::Glyph('g'), false),
        0x23 => (KeySym::Glyph('h'), false),
        0x24 => (KeySym::Glyph('j'), false),
        0x25 => (KeySym::Glyph('k'), false),
        0x26 => (KeySym::Glyph('l'), false),
        0x27 => (KeySym::Glyph(';'), false),
        0x28 => (KeySym::Glyph('\''), false),
        0x29 => (KeySym::Glyph('`'), false),
        0x2a => (KeySym::Control(ControlKey::LeftShift), false),
        0x2b => (KeySym::Glyph('\\'), false),
        0x2c => (KeySym::Glyph('z'), false),
        0x2d => (KeySym::Glyph('x'), false),
        0x2e => (KeySym::Glyph('c'), false),
        0x2f => (KeySym::Glyph('v'), false),
        0x30 => (KeySym::Glyph('b'), false),
        0x31 => (KeySym::Glyph('n'), false),
        0x32 => (KeySym::Glyph('m'), false),
        0x33 => (KeySym::Glyph(','), false),
        0x34 => (KeySym::Glyph('.'), false),
        0x35 => (KeySym::Glyph('/'), false),
        0x36 => (KeySym::Control(ControlKey::RightShift), false),
        0x37 => (KeySym::Glyph('*'), true),
        0x38 => (KeySym::Control(ControlKey::LeftAlt), false),
        0x39 => (KeySym::Glyph(' '), false),
        0x3a => (KeySym::Control(ControlKey::CapsLock), false),
        0x3b => (KeySym::Control(ControlKey::F1), false),
        0x3c => (KeySym::Control(ControlKey::F2), false),
        0x3d => (KeySym::Control(ControlKey::F3), false),
        0x3e => (KeySym::Control(ControlKey::F4), false),
        0x3f => (KeySym::Control(ControlKey::F5), false),
        0x40 => (KeySym::Control(ControlKey::F6), false),
        0x41 => (KeySym::Control(ControlKey::F7), false),
        0x42 => (KeySym::Control(ControlKey::F8), false),
        0x43 => (KeySym::Control(ControlKey::F9), false),
        0x44 => (KeySym::Control(ControlKey::F10), false),
        0x45 => (KeySym::Control(ControlKey::NumberLock), false),
        0x46 => (KeySym::Control(ControlKey::ScrollLock), false),
        0x47 => (KeySym::Glyph('7'), true),
        0x48 => (KeySym::Glyph('8'), true),
        0x49 => (KeySym::Glyph('9'), true),
        0x4a => (KeySym::Glyph('-'), true),
        0x4b => (KeySym::Glyph('4'), true),
        0x4c => (KeySym::Glyph('5'), true),
        0x4d => (KeySym::Glyph('6'), true),
        0x4e => (KeySym::Glyph('+'), true),
        0x4f => (KeySym::Glyph('1'), true),
        0x50 => (KeySym::Glyph('2'), true),
        0x51 => (KeySym::Glyph('3'), true),
        0x52 => (KeySym::Glyph('0'), true),
        0x53 => (KeySym::Glyph('.'), true),
        0x57 => (KeySym::Control(ControlKey::F11), false),
        0x58 => (KeySym::Control(ControlKey::F12), false),
        _ => (KeySym::NoKey, false),
    }
}

/// Executable mirror of the escape table.
fn lookup_escape(code: u8) -> (e: Option<(KeySym, bool)>)
    ensures
        e == set1_escape(code),
{
    match code {
        0x10 => Some((KeySym::Control(ControlKey::MultimediaPrevTrack), false)),
        0x19 => Some((KeySym::Control(ControlKey::MultimediaNextTrack), false)),
        0x1c => Some((KeySym::Control(ControlKey::Enter), true)),
        0x1d => Some((KeySym::Control(ControlKey::RightCtrl), false)),
        0x20 => Some((KeySym::Control(ControlKey::MultimediaMute), false)),
        0x21 => Some((KeySym::Control(ControlKey::MultimediaCalculator), false)),
        0x22 => Some((KeySym::Control(ControlKey::MultimediaPlay), false)),
        0x24 => Some((KeySym::Control(ControlKey::MultimediaStop), false)),
        0x2a => Some((KeySym::Control(ControlKey::PrintScreen), false)),
        0x2e => Some((KeySym::Control(ControlKey::MultimediaVolumeDown), false)),
        0x30 => Some((KeySym::Control(ControlKey::MultimediaVolumeUp), false)),
        0x32 => Some((KeySym::Control(ControlKey::MultimediaWWWHome), false)),
        0x35 => Some((KeySym::Glyph('/'), true)),
        0x38 => Some((KeySym::Control(ControlKey::RightAlt), false)),
        0x47 => Some((KeySym::Control(ControlKey::Home), false)),
        0x48 => Some((KeySym::Control(ControlKey::CursorUp), false)),
        0x49 => Some((KeySym::Control(ControlKey::PageUp), false)),
        0x4b => Some((KeySym::Control(ControlKey::CursorLeft), false)),
        0x4d => Some((KeySym::Control(ControlKey::CursorRight), false)),
        0x4f => Some((KeySym::Control(ControlKey::End), false)),
        0x50 => Some((KeySym::Control(ControlKey::CursorDown), false)),
        0x51 => Some((KeySym::Control(ControlKey::PageDown), false)),
        0x52 => Some((KeySym::Control(ControlKey::Insert), false)),
        0x53 => Some((KeySym::Control(ControlKey::Delete), false)),
        0x5b => Some((KeySym::Control(ControlKey::LeftGUI), false)),
        0x5c => Some((KeySym::Control(ControlKey::RightGUI), false)),
        0x5d => Some((KeySym::Control(ControlKey::Apps), false)),
        0x5e => Some((KeySym::Control(ControlKey::ACPIPower), false)),
        0x5f => Some((KeySym::Control(ControlKey::ACPISleep), false)),
        0x63 => Some((KeySym::Control(ControlKey::ACPIWake), false)),
        0x65 => Some((KeySym::Control(ControlKey::MultimediaWWWSearch), false)),
        0x66 => Some((KeySym::Control(ControlKey::MultimediaWWWFavourites), false)),
        0x67 => Some((KeySym::Control(ControlKey::MultimediaWWWRefresh), false)),
        0x68 => Some((KeySym::Control(ControlKey::MultimediaWWWStop), false)),
        0x69 => Some((KeySym::Control(ControlKey::MultimediaWWWForward), false)),
        0x6a => Some((KeySym::Control(ControlKey::MultimediaWWWBack), false)),
        0x6b => Some((KeySym::Control(ControlKey::MultimediaMyComputer), false)),
        0x6c => Some((KeySym::Control(ControlKey::MultimediaEmail), false)),
        0x6d => Some((KeySym::Control(ControlKey::MultimediaSelect), false)),
        0x90 => Some((KeySym::Control(ControlKey::MultimediaPrevTrack), false)),
        0x99 => Some((KeySym::Control(ControlKey::MultimediaNextTrack), false)),
        0x9c => Some((KeySym::Control(ControlKey::Enter), true)),
        0x9d => Some((KeySym::Control(ControlKey::RightCtrl), false)),
        0xa0 => Some((KeySym::Control(ControlKey::MultimediaMute), false)),
        0xa1 => Some((KeySym::Control(ControlKey::MultimediaCalculator), false)),
        0xa2 => Some((KeySym::Control(ControlKey::MultimediaPlay), false)),
        0xa4 => Some((KeySym::Control(ControlKey::MultimediaStop), false)),
        0xae => Some((KeySym::Control(ControlKey::MultimediaVolumeDown), false)),
        0xb0 => Some((KeySym::Control(ControlKey::MultimediaVolumeUp), false)),
        0xb2 => Some((KeySym::Control(ControlKey::MultimediaWWWHome), false)),
        0xb5 => Some((KeySym::Glyph('/'), true)),
        0xb7 => Some((KeySym::Control(ControlKey::PrintScreen), false)),
        0xb8 => Some((KeySym::Control(ControlKey::RightAlt), false)),
        0xc7 => Some((KeySym::Control(ControlKey::Home), false)),
        0xc8 => Some((KeySym::Control(ControlKey::CursorUp), false)),
        0xc9 => Some((KeySym::Control(ControlKey::PageUp), false)),
        0xcb => Some((KeySym::Control(ControlKey::CursorLeft), false)),
        0xcd => Some((KeySym::Control(ControlKey::CursorRight), false)),
        0xcf => Some((KeySym::Control(ControlKey::End), false)),
        0xd0 => Some((KeySym::Control(ControlKey::CursorDown), false)),
        0xd1 => Some((KeySym::Control(ControlKey::PageDown), false)),
        0xd2 => Some((KeySym::Control(ControlKey::Insert), false)),
        0xd3 => Some((KeySym::Control(ControlKey::Delete), false)),
        0xdb => Some((KeySym::Control(ControlKey::LeftGUI), false)),
        0xdc => Some((KeySym::Control(ControlKey::RightGUI), false)),
        0xdd => Some((KeySym::Control(ControlKey::Apps), false)),
        0xde => Some((KeySym::Control(ControlKey::ACPIPower), false)),
        0xdf => Some((KeySym::Control(ControlKey::ACPISleep), false)),
        0xe3 => Some((KeySym::Control(ControlKey::ACPIWake), false)),
        0xe5 => Some((KeySym::Control(ControlKey::MultimediaWWWSearch), false)),
        0xe6 => Some((KeySym::Control(ControlKey::MultimediaWWWFavourites), false)),
        0xe7 => Some((KeySym::Control(ControlKey::MultimediaWWWRefresh), false)),
        0xe8 => Some((KeySym::Control(ControlKey::MultimediaWWWStop), false)),
        0xe9 => Some((KeySym::Control(ControlKey::MultimediaWWWForward), false)),
        0xea => Some((KeySym::Control(ControlKey::MultimediaWWWBack), false)),
        0xeb => Some((KeySym::Control(ControlKey::MultimediaMyComputer), false)),
        0xec => Some((KeySym::Control(ControlKey::MultimediaEmail), false)),
        0xed => Some((KeySym::Control(ControlKey::MultimediaSelect), false)),
        _ => None,
    }
}

impl PS2ScancodeReader {
    /// A fresh reader for the given scancode set, with no escape pending.
    pub fn new(scan_code_set: ScanCodeSet) -> (r: PS2ScancodeReader)
        ensures
            r.scan_code_set == scan_code_set,
            !r.double_code,
    {
        PS2ScancodeReader { scan_code_set, double_code: false }
    }

    /// Switch the reader to another scancode set; the escape flag carries
    /// over untouched.
    pub fn set_scancode_set(&mut self, set: ScanCodeSet)
        ensures
            final(self).scan_code_set == set,
            final(self).double_code == old(self).double_code,
    {
        self.scan_code_set = set;
    }

    /// Classify one raw byte against the selected scancode set.
    pub fn match_scancode(&mut self, code: u8) -> (key: PS2Key)
        ensures
            *final(self) == old(self).step(code).0,
            key == old(self).step(code).1,
    {
        match self.scan_code_set {
            ScanCodeSet::SET1 => self.match_set1_scancode(code),
            _ => PS2Key { key: None, control_key: None, pressed: false, keypad: false },
        }
    }

    /// Build a glyph event, consuming any pending escape.
    fn create_key(&mut self, key: char, pressed: bool, keypad: bool) -> (r: PS2Key)
        ensures
            *final(self) == (PS2ScancodeReader { double_code: false, ..*old(self) }),
            r == (PS2Key { key: Some(key), control_key: None, pressed, keypad }),
    {
        self.double_code = false;
        PS2Key { key: Some(key), control_key: None, pressed, keypad }
    }

    /// Build a control-key event, consuming any pending escape.
    fn create_control_key(&mut self, key: ControlKey, pressed: bool, keypad: bool) -> (r: PS2Key)
        ensures
            *final(self) == (PS2ScancodeReader { double_code: false, ..*old(self) }),
            r == (PS2Key { key: None, control_key: Some(key), pressed, keypad }),
    {
        self.double_code = false;
        PS2Key { key: None, control_key: Some(key), pressed, keypad }
    }

    /// Classify one byte as a set 1 scancode.
    fn match_set1_scancode(&mut self, code: u8) -> (key: PS2Key)
        ensures
            code == 0xE0 ==> *final(self) == (PS2ScancodeReader {
                double_code: true,
                ..*old(self)
            }) && key == no_key(),
            code != 0xE0 ==> *final(self) == (PS2ScancodeReader {
                double_code: false,
                ..*old(self)
            }) && key == set1_decode(old(self).double_code, code),
    {
        if code == 0xE0 {
            self.double_code = true;
            return PS2Key { key: None, control_key: None, pressed: false, keypad: false };
        }
        let entry: (KeySym, bool) = if self.double_code {
            match lookup_escape(code) {
                Some(e) => e,
                None => if code < 0x80 {
                    lookup_press(code)
                } else {
                    lookup_press(code - 0x80)
                },
            }
        } else {
            if code < 0x80 {
                lookup_press(code)
            } else {
                lookup_press(code - 0x80)
            }
        };
        match entry.0 {
            KeySym::Glyph(c) => self.create_key(c, code < 0x80, entry.1),
            KeySym::Control(k) => self.create_control_key(k, code < 0x80, entry.1),
            KeySym::NoKey => {
                // Even a byte no table knows consumes a pending escape: no
                // byte may be classified against stale escape state.
                self.double_code = false;
                PS2Key { key: None, control_key: None, pressed: false, keypad: false }
            },
        }
    }
}

} // verus!
