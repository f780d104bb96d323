use wita::device::{
    numeric_ascii_are_digits, key_char, VK_DIVIDE, VK_F1, VK_F24, VK_MULTIPLY, VK_NUMPAD0, VK_OEM_1, VK_OEM_102,
    VK_OEM_MINUS,
};
use wita::{
    as_virtual_key, get_key_state, keyboard_state, to_raw_virtual_key, Cursor, KeyCode,
    KeyNameError, ScanCode, VirtualKey, VirtualKeyVisitor,
};

fn named_keys() -> Vec<VirtualKey> {
    vec![
        VirtualKey::Esc,
        VirtualKey::Tab,
        VirtualKey::CapsLock,
        VirtualKey::Shift,
        VirtualKey::Ctrl,
        VirtualKey::Alt,
        VirtualKey::BackSpace,
        VirtualKey::Enter,
        VirtualKey::Space,
        VirtualKey::PrintScreen,
        VirtualKey::ScrollLock,
        VirtualKey::Pause,
        VirtualKey::Insert,
        VirtualKey::Delete,
        VirtualKey::Home,
        VirtualKey::End,
        VirtualKey::PageUp,
        VirtualKey::PageDown,
        VirtualKey::Up,
        VirtualKey::Down,
        VirtualKey::Left,
        VirtualKey::Right,
        VirtualKey::NumLock,
        VirtualKey::NumAdd,
        VirtualKey::NumSub,
        VirtualKey::NumMul,
        VirtualKey::NumDiv,
        VirtualKey::NumDecimal,
        VirtualKey::LShift,
        VirtualKey::RShift,
        VirtualKey::LCtrl,
        VirtualKey::RCtrl,
        VirtualKey::LAlt,
        VirtualKey::RAlt,
    ]
}

fn se_de(k: VirtualKey) -> Result<bool, KeyNameError> {
    let se = k.to_string();
    Ok(VirtualKeyVisitor.visit_str(&se)? == k)
}

#[test]
fn serde_test() {
    assert!(se_de(VirtualKey::Char('A')).unwrap());
    assert!(se_de(VirtualKey::NumPad(0)).unwrap());
    assert!(se_de(VirtualKey::F(1)).unwrap());
    assert!(se_de(VirtualKey::Other(230)).unwrap());
    let vks = named_keys();
    for k in &vks {
        assert!(se_de(*k).unwrap());
    }
}

#[test]
fn convert_virtual_key() {
    for c in '0'..='Z' {
        assert!(as_virtual_key(to_raw_virtual_key(VirtualKey::Char(c))) == VirtualKey::Char(c));
    }
    for i in 0..=9 {
        assert!(as_virtual_key(to_raw_virtual_key(VirtualKey::NumPad(i))) == VirtualKey::NumPad(i));
    }
    for i in 1..=24 {
        assert!(as_virtual_key(to_raw_virtual_key(VirtualKey::F(i))) == VirtualKey::F(i));
    }
    let vks = named_keys();
    for &k in &vks {
        assert!(as_virtual_key(to_raw_virtual_key(k)) == k);
    }
}

#[test]
fn key_codes_of_the_table() {
    assert_eq!(as_virtual_key(0x41), VirtualKey::Char('A'));
    assert_eq!(as_virtual_key(0x30), VirtualKey::Char('0'));
    assert_eq!(as_virtual_key(0x1B), VirtualKey::Esc);
    assert_eq!(as_virtual_key(VK_NUMPAD0 + 7), VirtualKey::NumPad(7));
    assert_eq!(as_virtual_key(VK_F1), VirtualKey::F(1));
    assert_eq!(as_virtual_key(VK_F24), VirtualKey::F(24));
    assert_eq!(as_virtual_key(VK_OEM_1), VirtualKey::Char(':'));
    assert_eq!(as_virtual_key(VK_OEM_MINUS), VirtualKey::Char('-'));
    assert_eq!(as_virtual_key(0xE8), VirtualKey::Other(0xE8));
    assert_eq!(to_raw_virtual_key(VirtualKey::Char('_')), VK_OEM_102);
    assert_eq!(to_raw_virtual_key(VirtualKey::Char(':')), 0x3A);
    assert_eq!(to_raw_virtual_key(VirtualKey::F(12)), 0x7B);
    assert_eq!(to_raw_virtual_key(VirtualKey::Other(7)), 7);
}

#[test]
fn keys_that_do_not_come_back() {
    assert_eq!(as_virtual_key(to_raw_virtual_key(VirtualKey::NumPad(10))), VirtualKey::NumMul);
    assert_eq!(to_raw_virtual_key(VirtualKey::NumPad(10)), VK_MULTIPLY);
    assert_eq!(to_raw_virtual_key(VirtualKey::F(0)), VK_DIVIDE);
    assert_eq!(as_virtual_key(to_raw_virtual_key(VirtualKey::F(0))), VirtualKey::NumDiv);
    assert_eq!(as_virtual_key(to_raw_virtual_key(VirtualKey::Other(0x41))), VirtualKey::Char('A'));
}

#[test]
fn key_characters() {
    assert!(key_char('0'));
    assert!(key_char('Z'));
    assert!(key_char(';'));
    assert!(key_char('_'));
    assert!(key_char('\\'));
    assert!(!key_char('a'));
    assert!(!key_char(' '));
    assert!(!key_char('~'));
}

#[test]
fn key_names() {
    assert_eq!(VirtualKey::Char('a').to_string(), "A");
    assert_eq!(VirtualKey::Char('-').to_string(), "-");
    assert_eq!(VirtualKey::NumPad(7).to_string(), "NumPad7");
    assert_eq!(VirtualKey::NumPad(255).to_string(), "NumPad255");
    assert_eq!(VirtualKey::F(12).to_string(), "F12");
    assert_eq!(VirtualKey::Other(230).to_string(), "Other230");
    assert_eq!(VirtualKey::Other(0).to_string(), "Other0");
    assert_eq!(VirtualKey::Other(4294967295).to_string(), "Other4294967295");
    assert_eq!(VirtualKey::PrintScreen.to_string(), "PrintScreen");
    assert_eq!(VirtualKey::LAlt.to_string(), "LAlt");
}

#[test]
fn reading_key_names() {
    let v = VirtualKeyVisitor;
    assert_eq!(v.visit_str("Esc"), Ok(VirtualKey::Esc));
    assert_eq!(v.visit_str("NumDecimal"), Ok(VirtualKey::NumDecimal));
    assert_eq!(v.visit_str("a"), Ok(VirtualKey::Char('A')));
    assert_eq!(v.visit_str("F"), Ok(VirtualKey::Char('F')));
    assert_eq!(v.visit_str("7"), Ok(VirtualKey::Char('7')));
    assert_eq!(v.visit_str("NumPad12"), Ok(VirtualKey::NumPad(12)));
    assert_eq!(v.visit_str("NumPad007"), Ok(VirtualKey::NumPad(7)));
    assert_eq!(v.visit_str("F24"), Ok(VirtualKey::F(24)));
    assert_eq!(v.visit_str("F12x"), Ok(VirtualKey::F(12)));
    assert_eq!(v.visit_str("Other4294967295"), Ok(VirtualKey::Other(4294967295)));
}

#[test]
fn names_that_are_no_keys() {
    let v = VirtualKeyVisitor;
    assert_eq!(v.visit_str(""), Err(KeyNameError::InvalidValue));
    assert_eq!(v.visit_str("\u{7}"), Err(KeyNameError::InvalidValue));
    assert_eq!(v.visit_str("\u{7f}"), Err(KeyNameError::InvalidValue));
    assert_eq!(v.visit_str("NumPad"), Err(KeyNameError::InvalidValue));
    assert_eq!(v.visit_str("NumPad256"), Err(KeyNameError::InvalidValue));
    assert_eq!(v.visit_str("NumPad1x2"), Err(KeyNameError::InvalidValue));
    assert_eq!(v.visit_str("Foo"), Err(KeyNameError::InvalidValue));
    assert_eq!(v.visit_str("F\u{b2}"), Err(KeyNameError::InvalidValue));
    assert_eq!(v.visit_str("Other4294967296"), Err(KeyNameError::InvalidValue));
    assert_eq!(v.visit_str("esc"), Err(KeyNameError::InvalidValue));
    assert_eq!(v.visit_str("\u{3042}"), Err(KeyNameError::InvalidValue));
}

#[test]
fn pressed_keys_of_a_state_table() {
    let mut buffer = [0u8; 256];
    buffer[0x41] = 0x80;
    buffer[0x1B] = 0x81;
    buffer[0x70] = 0x7f;
    buffer[0xA0] = 0xff;
    let mut keys = vec![VirtualKey::Tab];
    keyboard_state(&mut keys, &buffer);
    assert_eq!(keys, vec![VirtualKey::Esc, VirtualKey::Char('A'), VirtualKey::LShift]);
    keyboard_state(&mut keys, &[]);
    assert!(keys.is_empty());
}

#[test]
fn key_state_bit() {
    assert!(get_key_state(0x80));
    assert!(get_key_state(-128));
    assert!(get_key_state(0x81));
    assert!(!get_key_state(0x7f));
    assert!(!get_key_state(0x100));
    assert!(!get_key_state(1));
}

#[test]
fn cursors_and_key_codes() {
    assert_eq!(Cursor::default(), Cursor::Arrow);
    assert_eq!(Cursor::Arrow.name(), 32512);
    assert_eq!(Cursor::Hand.name(), 32649);
    assert_eq!(Cursor::Wait.name(), 32514);
    assert_eq!(Cursor::SizeUpArrow.name(), 32516);
    let code = KeyCode::new(VirtualKey::Enter, ScanCode(28));
    assert_eq!(code.vkey, VirtualKey::Enter);
    assert_eq!(code.scan_code, ScanCode(28));
}

#[test]
fn names_come_back_as_their_keys() {
    let v = VirtualKeyVisitor;
    for code in 0u32..0x80 {
        let c = char::from_u32(code).unwrap();
        let comes_back = !c.is_ascii_control() && !c.is_ascii_lowercase();
        let read = v.visit_str(&VirtualKey::Char(c).to_string());
        assert_eq!(read == Ok(VirtualKey::Char(c)), comes_back, "{:?}", c);
    }
    for n in 0..=255u8 {
        assert_eq!(v.visit_str(&VirtualKey::NumPad(n).to_string()), Ok(VirtualKey::NumPad(n)));
        assert_eq!(v.visit_str(&VirtualKey::F(n).to_string()), Ok(VirtualKey::F(n)));
    }
    for n in [0u32, 9, 10, 255, 256, 65535, 4294967295] {
        assert_eq!(v.visit_str(&VirtualKey::Other(n).to_string()), Ok(VirtualKey::Other(n)));
    }
    assert_eq!(v.visit_str(&VirtualKey::Char('\u{e9}').to_string()), Err(KeyNameError::InvalidValue));
}

#[test]
fn ascii_numerics_are_the_digits() {
    assert!(numeric_ascii_are_digits());
    assert_eq!(VirtualKeyVisitor.visit_str("NumPad7"), Ok(VirtualKey::NumPad(7)));
    assert_eq!(VirtualKeyVisitor.visit_str(&VirtualKey::Other(4000).to_string()), Ok(VirtualKey::Other(4000)));
}
