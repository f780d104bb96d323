//! Keyboard keys, mouse buttons and cursors, and the tables that relate them
//! to the native key codes.
use crate::geometry::PhysicalPosition;
use crate::text::{
    char_is_numeric, decimal, digits_value, has_prefix, is_digit, is_numeric, parse_decimal,
    parse_trimmed,
    push_decimal, starts_with, str_equals, trim_end_non_numeric, trim_non_numeric,
    trim_start_non_numeric,
};
use vstd::prelude::*;
use vstd::string::StringExecFns;

verus! {

pub const VK_BACK: u32 = 0x08;
pub const VK_TAB: u32 = 0x09;
pub const VK_RETURN: u32 = 0x0D;
pub const VK_SHIFT: u32 = 0x10;
pub const VK_CONTROL: u32 = 0x11;
pub const VK_MENU: u32 = 0x12;
pub const VK_PAUSE: u32 = 0x13;
pub const VK_CAPITAL: u32 = 0x14;
pub const VK_ESCAPE: u32 = 0x1B;
pub const VK_SPACE: u32 = 0x20;
pub const VK_PRIOR: u32 = 0x21;
pub const VK_NEXT: u32 = 0x22;
pub const VK_END: u32 = 0x23;
pub const VK_HOME: u32 = 0x24;
pub const VK_LEFT: u32 = 0x25;
pub const VK_UP: u32 = 0x26;
pub const VK_RIGHT: u32 = 0x27;
pub const VK_DOWN: u32 = 0x28;
pub const VK_SNAPSHOT: u32 = 0x2C;
pub const VK_INSERT: u32 = 0x2D;
pub const VK_DELETE: u32 = 0x2E;
pub const VK_NUMPAD0: u32 = 0x60;
pub const VK_NUMPAD9: u32 = 0x69;
pub const VK_MULTIPLY: u32 = 0x6A;
pub const VK_ADD: u32 = 0x6B;
pub const VK_SUBTRACT: u32 = 0x6D;
pub const VK_DECIMAL: u32 = 0x6E;
pub const VK_DIVIDE: u32 = 0x6F;
pub const VK_F1: u32 = 0x70;
pub const VK_F24: u32 = 0x87;
pub const VK_NUMLOCK: u32 = 0x90;
pub const VK_SCROLL: u32 = 0x91;
pub const VK_LSHIFT: u32 = 0xA0;
pub const VK_RSHIFT: u32 = 0xA1;
pub const VK_LCONTROL: u32 = 0xA2;
pub const VK_RCONTROL: u32 = 0xA3;
pub const VK_LMENU: u32 = 0xA4;
pub const VK_RMENU: u32 = 0xA5;
pub const VK_OEM_1: u32 = 0xBA;
pub const VK_OEM_PLUS: u32 = 0xBB;
pub const VK_OEM_COMMA: u32 = 0xBC;
pub const VK_OEM_MINUS: u32 = 0xBD;
pub const VK_OEM_PERIOD: u32 = 0xBE;
pub const VK_OEM_2: u32 = 0xBF;
pub const VK_OEM_3: u32 = 0xC0;
pub const VK_OEM_4: u32 = 0xDB;
pub const VK_OEM_5: u32 = 0xDC;
pub const VK_OEM_6: u32 = 0xDD;
pub const VK_OEM_7: u32 = 0xDE;
pub const VK_OEM_102: u32 = 0xE2;

/// Describes the state of a keyboard key and a mouse button.
#[derive(Clone, Copy, PartialEq, Eq, Structural, Debug, Hash)]
pub enum KeyState {
    Pressed,
    Released,
}

/// Describes mouse buttons.
#[derive(Clone, Copy, PartialEq, Eq, Structural, Debug, Hash)]
pub enum MouseButton {
    Left,
    Right,
    Middle,
    Ex(u32),
}

/// A mouse cursor position and pressed mouse buttons.
#[derive(Clone, Debug)]
pub struct MouseState {
    pub position: PhysicalPosition<i32>,
    pub buttons: Vec<MouseButton>,
}

/// Describes keyboard key names.
#[derive(Clone, Copy, PartialEq, Eq, Structural, Debug, Hash)]
pub enum VirtualKey {
    Char(char),
    Esc,
    Tab,
    CapsLock,
    Shift,
    Ctrl,
    Alt,
    BackSpace,
    Enter,
    Space,
    PrintScreen,
    ScrollLock,
    Pause,
    Insert,
    Delete,
    Home,
    End,
    PageUp,
    PageDown,
    Up,
    Down,
    Left,
    Right,
    NumLock,
    NumPad(u8),
    NumAdd,
    NumSub,
    NumMul,
    NumDiv,
    NumDecimal,
    LShift,
    RShift,
    LCtrl,
    RCtrl,
    LAlt,
    RAlt,
    F(u8),
    Other(u32),
}

/// The upper-case form of an ASCII letter; any other character is itself.
pub open spec fn ascii_upper(c: char) -> char {
    if 'a' <= c <= 'z' {
        ((c as u8 - 32) as u8) as char
    } else {
        c
    }
}

/// An ASCII control character.
pub open spec fn is_ascii_control(c: char) -> bool {
    (c as u32) <= 0x1F || (c as u32) == 0x7F
}

/// The name under which a key is written.
pub open spec fn key_name(k: VirtualKey) -> Seq<char> {
    match k {
        VirtualKey::Char(c) => seq![ascii_upper(c)],
        VirtualKey::NumPad(n) => "NumPad"@ + decimal(n as nat),
        VirtualKey::F(n) => "F"@ + decimal(n as nat),
        VirtualKey::Other(n) => "Other"@ + decimal(n as nat),
        VirtualKey::Esc => "Esc"@,
        VirtualKey::Tab => "Tab"@,
        VirtualKey::CapsLock => "CapsLock"@,
        VirtualKey::Shift => "Shift"@,
        VirtualKey::Ctrl => "Ctrl"@,
        VirtualKey::Alt => "Alt"@,
        VirtualKey::BackSpace => "BackSpace"@,
        VirtualKey::Enter => "Enter"@,
        VirtualKey::Space => "Space"@,
        VirtualKey::PrintScreen => "PrintScreen"@,
        VirtualKey::ScrollLock => "ScrollLock"@,
        VirtualKey::Pause => "Pause"@,
        VirtualKey::Insert => "Insert"@,
        VirtualKey::Delete => "Delete"@,
        VirtualKey::Home => "Home"@,
        VirtualKey::End => "End"@,
        VirtualKey::PageUp => "PageUp"@,
        VirtualKey::PageDown => "PageDown"@,
        VirtualKey::Up => "Up"@,
        VirtualKey::Down => "Down"@,
        VirtualKey::Left => "Left"@,
        VirtualKey::Right => "Right"@,
        VirtualKey::NumLock => "NumLock"@,
        VirtualKey::NumAdd => "NumAdd"@,
        VirtualKey::NumSub => "NumSub"@,
        VirtualKey::NumMul => "NumMul"@,
        VirtualKey::NumDiv => "NumDiv"@,
        VirtualKey::NumDecimal => "NumDecimal"@,
        VirtualKey::LShift => "LShift"@,
        VirtualKey::RShift => "RShift"@,
        VirtualKey::LCtrl => "LCtrl"@,
        VirtualKey::RCtrl => "RCtrl"@,
        VirtualKey::LAlt => "LAlt"@,
        VirtualKey::RAlt => "RAlt"@,
    }
}

/// The key that a name without a number stands for, if it is such a name.
pub open spec fn plain_key_of_name(v: Seq<char>) -> Option<VirtualKey> {
    if v == "Esc"@ {
        Some(VirtualKey::Esc)
    } else if v == "Tab"@ {
        Some(VirtualKey::Tab)
    } else if v == "CapsLock"@ {
        Some(VirtualKey::CapsLock)
    } else if v == "Shift"@ {
        Some(VirtualKey::Shift)
    } else if v == "Ctrl"@ {
        Some(VirtualKey::Ctrl)
    } else if v == "Alt"@ {
        Some(VirtualKey::Alt)
    } else if v == "BackSpace"@ {
        Some(VirtualKey::BackSpace)
    } else if v == "Enter"@ {
        Some(VirtualKey::Enter)
    } else if v == "Space"@ {
        Some(VirtualKey::Space)
    } else if v == "PrintScreen"@ {
        Some(VirtualKey::PrintScreen)
    } else if v == "ScrollLock"@ {
        Some(VirtualKey::ScrollLock)
    } else if v == "Pause"@ {
        Some(VirtualKey::Pause)
    } else if v == "Insert"@ {
        Some(VirtualKey::Insert)
    } else if v == "Delete"@ {
        Some(VirtualKey::Delete)
    } else if v == "Home"@ {
        Some(VirtualKey::Home)
    } else if v == "End"@ {
        Some(VirtualKey::End)
    } else if v == "PageUp"@ {
        Some(VirtualKey::PageUp)
    } else if v == "PageDown"@ {
        Some(VirtualKey::PageDown)
    } else if v == "Up"@ {
        Some(VirtualKey::Up)
    } else if v == "Down"@ {
        Some(VirtualKey::Down)
    } else if v == "Left"@ {
        Some(VirtualKey::Left)
    } else if v == "Right"@ {
        Some(VirtualKey::Right)
    } else if v == "NumLock"@ {
        Some(VirtualKey::NumLock)
    } else if v == "NumAdd"@ {
        Some(VirtualKey::NumAdd)
    } else if v == "NumSub"@ {
        Some(VirtualKey::NumSub)
    } else if v == "NumMul"@ {
        Some(VirtualKey::NumMul)
    } else if v == "NumDiv"@ {
        Some(VirtualKey::NumDiv)
    } else if v == "NumDecimal"@ {
        Some(VirtualKey::NumDecimal)
    } else if v == "LShift"@ {
        Some(VirtualKey::LShift)
    } else if v == "RShift"@ {
        Some(VirtualKey::RShift)
    } else if v == "LCtrl"@ {
        Some(VirtualKey::LCtrl)
    } else if v == "RCtrl"@ {
        Some(VirtualKey::RCtrl)
    } else if v == "LAlt"@ {
        Some(VirtualKey::LAlt)
    } else if v == "RAlt"@ {
        Some(VirtualKey::RAlt)
    } else {
        None
    }
}

/// The key that a name stands for. A name without a number is looked up
/// first. A single ASCII character that is no control character is the
/// character key of its upper-case form. A name that begins with `NumPad`, `F`
/// or `Other` takes its number from what is left when the characters that are
/// not numeric are removed from both ends.
pub open spec fn key_of_name(v: Seq<char>) -> Option<VirtualKey> {
    if plain_key_of_name(v) is Some {
        plain_key_of_name(v)
    } else if v.len() == 1 && (v[0] as u32) < 0x80 {
        if !is_ascii_control(v[0]) {
            Some(VirtualKey::Char(ascii_upper(v[0])))
        } else {
            None
        }
    } else if starts_with(v, "NumPad"@) {
        match parse_decimal(trim_non_numeric(v), u8::MAX as nat) {
            Some(n) => Some(VirtualKey::NumPad(n as u8)),
            None => None,
        }
    } else if starts_with(v, "F"@) {
        match parse_decimal(trim_non_numeric(v), u8::MAX as nat) {
            Some(n) => Some(VirtualKey::F(n as u8)),
            None => None,
        }
    } else if starts_with(v, "Other"@) {
        match parse_decimal(trim_non_numeric(v), u32::MAX as nat) {
            Some(n) => Some(VirtualKey::Other(n as u32)),
            None => None,
        }
    } else {
        None
    }
}

fn to_ascii_upper(c: char) -> (r: char)
    ensures
        r == ascii_upper(c),
{
    if 'a' <= c && c <= 'z' {
        ((c as u8) - 32) as char
    } else {
        c
    }
}

impl VirtualKey {
    /// Writes the key's name.
    pub fn to_string(&self) -> (s: String)
        ensures
            s@ == key_name(*self),
    {
        match *self {
            VirtualKey::Char(c) => {
                let mut s = String::new();
                s.push(to_ascii_upper(c));
                proof {
                    assert(s@ =~= seq![ascii_upper(c)]);
                }
                s
            },
            VirtualKey::NumPad(n) => {
                let mut s = String::from_str("NumPad");
                push_decimal(&mut s, n as u32);
                s
            },
            VirtualKey::F(n) => {
                let mut s = String::from_str("F");
                push_decimal(&mut s, n as u32);
                s
            },
            VirtualKey::Other(n) => {
                let mut s = String::from_str("Other");
                push_decimal(&mut s, n);
                s
            },
            VirtualKey::Esc => String::from_str("Esc"),
            VirtualKey::Tab => String::from_str("Tab"),
            VirtualKey::CapsLock => String::from_str("CapsLock"),
            VirtualKey::Shift => String::from_str("Shift"),
            VirtualKey::Ctrl => String::from_str("Ctrl"),
            VirtualKey::Alt => String::from_str("Alt"),
            VirtualKey::BackSpace => String::from_str("BackSpace"),
            VirtualKey::Enter => String::from_str("Enter"),
            VirtualKey::Space => String::from_str("Space"),
            VirtualKey::PrintScreen => String::from_str("PrintScreen"),
            VirtualKey::ScrollLock => String::from_str("ScrollLock"),
            VirtualKey::Pause => String::from_str("Pause"),
            VirtualKey::Insert => String::from_str("Insert"),
            VirtualKey::Delete => String::from_str("Delete"),
            VirtualKey::Home => String::from_str("Home"),
            VirtualKey::End => String::from_str("End"),
            VirtualKey::PageUp => String::from_str("PageUp"),
            VirtualKey::PageDown => String::from_str("PageDown"),
            VirtualKey::Up => String::from_str("Up"),
            VirtualKey::Down => String::from_str("Down"),
            VirtualKey::Left => String::from_str("Left"),
            VirtualKey::Right => String::from_str("Right"),
            VirtualKey::NumLock => String::from_str("NumLock"),
            VirtualKey::NumAdd => String::from_str("NumAdd"),
            VirtualKey::NumSub => String::from_str("NumSub"),
            VirtualKey::NumMul => String::from_str("NumMul"),
            VirtualKey::NumDiv => String::from_str("NumDiv"),
            VirtualKey::NumDecimal => String::from_str("NumDecimal"),
            VirtualKey::LShift => String::from_str("LShift"),
            VirtualKey::RShift => String::from_str("RShift"),
            VirtualKey::LCtrl => String::from_str("LCtrl"),
            VirtualKey::RCtrl => String::from_str("RCtrl"),
            VirtualKey::LAlt => String::from_str("LAlt"),
            VirtualKey::RAlt => String::from_str("RAlt"),
        }
    }
}

/// The one way in which reading a key's name fails.
#[derive(Clone, Copy, PartialEq, Eq, Structural, Debug)]
pub enum KeyNameError {
    /// The text is no key's name.
    InvalidValue,
}

/// Reads a key from its name.
pub struct VirtualKeyVisitor;

fn plain_key(v: &str) -> (r: Option<VirtualKey>)
    ensures
        r == plain_key_of_name(v@),
{
    if str_equals(v, "Esc") {
        Some(VirtualKey::Esc)
    } else if str_equals(v, "Tab") {
        Some(VirtualKey::Tab)
    } else if str_equals(v, "CapsLock") {
        Some(VirtualKey::CapsLock)
    } else if str_equals(v, "Shift") {
        Some(VirtualKey::Shift)
    } else if str_equals(v, "Ctrl") {
        Some(VirtualKey::Ctrl)
    } else if str_equals(v, "Alt") {
        Some(VirtualKey::Alt)
    } else if str_equals(v, "BackSpace") {
        Some(VirtualKey::BackSpace)
    } else if str_equals(v, "Enter") {
        Some(VirtualKey::Enter)
    } else if str_equals(v, "Space") {
        Some(VirtualKey::Space)
    } else if str_equals(v, "PrintScreen") {
        Some(VirtualKey::PrintScreen)
    } else if str_equals(v, "ScrollLock") {
        Some(VirtualKey::ScrollLock)
    } else if str_equals(v, "Pause") {
        Some(VirtualKey::Pause)
    } else if str_equals(v, "Insert") {
        Some(VirtualKey::Insert)
    } else if str_equals(v, "Delete") {
        Some(VirtualKey::Delete)
    } else if str_equals(v, "Home") {
        Some(VirtualKey::Home)
    } else if str_equals(v, "End") {
        Some(VirtualKey::End)
    } else if str_equals(v, "PageUp") {
        Some(VirtualKey::PageUp)
    } else if str_equals(v, "PageDown") {
        Some(VirtualKey::PageDown)
    } else if str_equals(v, "Up") {
        Some(VirtualKey::Up)
    } else if str_equals(v, "Down") {
        Some(VirtualKey::Down)
    } else if str_equals(v, "Left") {
        Some(VirtualKey::Left)
    } else if str_equals(v, "Right") {
        Some(VirtualKey::Right)
    } else if str_equals(v, "NumLock") {
        Some(VirtualKey::NumLock)
    } else if str_equals(v, "NumAdd") {
        Some(VirtualKey::NumAdd)
    } else if str_equals(v, "NumSub") {
        Some(VirtualKey::NumSub)
    } else if str_equals(v, "NumMul") {
        Some(VirtualKey::NumMul)
    } else if str_equals(v, "NumDiv") {
        Some(VirtualKey::NumDiv)
    } else if str_equals(v, "NumDecimal") {
        Some(VirtualKey::NumDecimal)
    } else if str_equals(v, "LShift") {
        Some(VirtualKey::LShift)
    } else if str_equals(v, "RShift") {
        Some(VirtualKey::RShift)
    } else if str_equals(v, "LCtrl") {
        Some(VirtualKey::LCtrl)
    } else if str_equals(v, "RCtrl") {
        Some(VirtualKey::RCtrl)
    } else if str_equals(v, "LAlt") {
        Some(VirtualKey::LAlt)
    } else if str_equals(v, "RAlt") {
        Some(VirtualKey::RAlt)
    } else {
        None
    }
}

impl VirtualKeyVisitor {
    /// Reads a key from its name; `InvalidValue` where the text is no key's
    /// name.
    pub fn visit_str(&self, v: &str) -> (r: Result<VirtualKey, KeyNameError>)
        ensures
            r matches Ok(k) ==> key_of_name(v@) == Some(k),
            r is Err ==> key_of_name(v@) is None,
            r matches Err(e) ==> e == KeyNameError::InvalidValue,
    {
        match plain_key(v) {
            Some(k) => {
                return Ok(k);
            },
            None => {},
        }
        if v.unicode_len() == 1 {
            let c: char = v.get_char(0);
            if (c as u32) < 0x80 {
                if !((c as u32) <= 0x1F || (c as u32) == 0x7F) {
                    return Ok(VirtualKey::Char(to_ascii_upper(c)));
                } else {
                    return Err(KeyNameError::InvalidValue);
                }
            }
        }
        if has_prefix(v, "NumPad") {
            match parse_trimmed(v, 255) {
                Some(n) => Ok(VirtualKey::NumPad(n as u8)),
                None => Err(KeyNameError::InvalidValue),
            }
        } else if has_prefix(v, "F") {
            match parse_trimmed(v, 255) {
                Some(n) => Ok(VirtualKey::F(n as u8)),
                None => Err(KeyNameError::InvalidValue),
            }
        } else if has_prefix(v, "Other") {
            match parse_trimmed(v, u32::MAX) {
                Some(n) => Ok(VirtualKey::Other(n)),
                None => Err(KeyNameError::InvalidValue),
            }
        } else {
            Err(KeyNameError::InvalidValue)
        }
    }
}

/// Among the ASCII characters, the numeric ones are the ten digits.
pub open spec fn ascii_numeric_are_digits() -> bool {
    forall|c: char| (c as u32) < 0x80 ==> #[trigger] char_is_numeric(c) == is_digit(c)
}

/// Tells whether, among the ASCII characters, the numeric ones are the ten
/// digits, by asking of each of them in turn.
pub fn numeric_ascii_are_digits() -> (r: bool)
    ensures
        r == ascii_numeric_are_digits(),
{
    let mut v: u8 = 0;
    while v < 0x80
        invariant
            v <= 0x80,
            forall|c: char| (c as u32) < v ==> #[trigger] char_is_numeric(c) == is_digit(c),
        decreases 0x80 - v,
    {
        let c: char = v as char;
        let digit: bool = '0' <= c && c <= '9';
        if is_numeric(c) != digit {
            return false;
        }
        proof {
            assert forall|d: char| (d as u32) < v + 1 implies #[trigger] char_is_numeric(d)
                == is_digit(d) by {
                if d as u32 == v {
                    vstd::utf8::char_u32_cast(d, v as u32);
                    vstd::utf8::char_u32_cast(c, v as u32);
                }
            }
        }
        v += 1;
    }
    true
}

/// A key whose name is read as the key again: any key but a character key
/// whose character is not ASCII, is a control character, or is a lower-case
/// letter.
pub open spec fn name_comes_back(k: VirtualKey) -> bool {
    match k {
        VirtualKey::Char(c) => (c as u32) < 0x80 && !is_ascii_control(c) && !('a' <= c <= 'z'),
        _ => true,
    }
}

proof fn lemma_decimal(n: nat)
    ensures
        decimal(n).len() >= 1,
        forall|i: int| 0 <= i < decimal(n).len() ==> is_digit(#[trigger] decimal(n)[i]),
        digits_value(decimal(n)) == n,
    decreases n,
{
    if n >= 10 {
        lemma_decimal(n / 10);
        let d = decimal(n / 10);
        let c = ((0x30 + n % 10) as u8) as char;
        assert(decimal(n) == d.push(c));
        assert(d.push(c).drop_last() =~= d);
        assert(c as u32 - 0x30 == n % 10);
    } else {
        let c = ((0x30 + n) as u8) as char;
        assert(decimal(n) == seq![c]);
        assert(seq![c].drop_last() =~= Seq::<char>::empty());
        assert(digits_value(Seq::<char>::empty()) == 0);
        assert(c as u32 - 0x30 == n);
    }
}

proof fn lemma_trim_prefix(prefix: Seq<char>, digits: Seq<char>)
    requires
        ascii_numeric_are_digits(),
        forall|i: int|
            0 <= i < prefix.len() ==> (#[trigger] prefix[i] as u32) < 0x80 && !is_digit(prefix[i]),
        digits.len() >= 1,
        forall|i: int| 0 <= i < digits.len() ==> is_digit(#[trigger] digits[i]),
    ensures
        trim_non_numeric(prefix + digits) == digits,
    decreases prefix.len(),
{
    let v = prefix + digits;
    if prefix.len() == 0 {
        assert(v =~= digits);
        assert(is_digit(digits[0]));
        assert(char_is_numeric(digits[0]));
        assert(trim_start_non_numeric(v) == v);
        assert(is_digit(digits[digits.len() - 1]));
        assert(char_is_numeric(digits.last()));
        assert(trim_end_non_numeric(digits) == digits);
    } else {
        assert(v[0] == prefix[0]);
        assert(!char_is_numeric(v[0]));
        let rest = prefix.subrange(1, prefix.len() as int);
        assert(v.subrange(1, v.len() as int) =~= rest + digits);
        assert forall|i: int| 0 <= i < rest.len() implies (#[trigger] rest[i] as u32) < 0x80
            && !is_digit(rest[i]) by {
            assert(rest[i] == prefix[i + 1]);
        }
        lemma_trim_prefix(rest, digits);
    }
}

proof fn lemma_numbered_name(prefix: Seq<char>, n: nat, max: nat)
    requires
        ascii_numeric_are_digits(),
        forall|i: int|
            0 <= i < prefix.len() ==> (#[trigger] prefix[i] as u32) < 0x80 && !is_digit(prefix[i]),
        n <= max,
    ensures
        parse_decimal(trim_non_numeric(prefix + decimal(n)), max) == Some(n),
        starts_with(prefix + decimal(n), prefix),
        (prefix + decimal(n)).len() >= prefix.len() + 1,
{
    lemma_decimal(n);
    lemma_trim_prefix(prefix, decimal(n));
    assert((prefix + decimal(n)).subrange(0, prefix.len() as int) =~= prefix);
}

proof fn lemma_plain_names_are_long(v: Seq<char>)
    requires
        plain_key_of_name(v) is Some,
    ensures
        v.len() >= 2,
        v[0] != 'F' && v[0] != 'O',
        v[0] == 'N' && v[1] == 'u' && v.len() >= 4 ==> v[3] != 'P',
{
    reveal_strlit("Esc");
    reveal_strlit("Tab");
    reveal_strlit("CapsLock");
    reveal_strlit("Shift");
    reveal_strlit("Ctrl");
    reveal_strlit("Alt");
    reveal_strlit("BackSpace");
    reveal_strlit("Enter");
    reveal_strlit("Space");
    reveal_strlit("PrintScreen");
    reveal_strlit("ScrollLock");
    reveal_strlit("Pause");
    reveal_strlit("Insert");
    reveal_strlit("Delete");
    reveal_strlit("Home");
    reveal_strlit("End");
    reveal_strlit("PageUp");
    reveal_strlit("PageDown");
    reveal_strlit("Up");
    reveal_strlit("Down");
    reveal_strlit("Left");
    reveal_strlit("Right");
    reveal_strlit("NumLock");
    reveal_strlit("NumAdd");
    reveal_strlit("NumSub");
    reveal_strlit("NumMul");
    reveal_strlit("NumDiv");
    reveal_strlit("NumDecimal");
    reveal_strlit("LShift");
    reveal_strlit("RShift");
    reveal_strlit("LCtrl");
    reveal_strlit("RCtrl");
    reveal_strlit("LAlt");
    reveal_strlit("RAlt");
}

proof fn lemma_plain_name(k: VirtualKey)
    requires
        !(k is Char) && !(k is NumPad) && !(k is F) && !(k is Other),
    ensures
        plain_key_of_name(key_name(k)) == Some(k),
{
    reveal_strlit("Esc");
    reveal_strlit("Tab");
    reveal_strlit("CapsLock");
    reveal_strlit("Shift");
    reveal_strlit("Ctrl");
    reveal_strlit("Alt");
    reveal_strlit("BackSpace");
    reveal_strlit("Enter");
    reveal_strlit("Space");
    reveal_strlit("PrintScreen");
    reveal_strlit("ScrollLock");
    reveal_strlit("Pause");
    reveal_strlit("Insert");
    reveal_strlit("Delete");
    reveal_strlit("Home");
    reveal_strlit("End");
    reveal_strlit("PageUp");
    reveal_strlit("PageDown");
    reveal_strlit("Up");
    reveal_strlit("Down");
    reveal_strlit("Left");
    reveal_strlit("Right");
    reveal_strlit("NumLock");
    reveal_strlit("NumAdd");
    reveal_strlit("NumSub");
    reveal_strlit("NumMul");
    reveal_strlit("NumDiv");
    reveal_strlit("NumDecimal");
    reveal_strlit("LShift");
    reveal_strlit("RShift");
    reveal_strlit("LCtrl");
    reveal_strlit("RCtrl");
    reveal_strlit("LAlt");
    reveal_strlit("RAlt");
    assert("Esc"@.len() == 3 && "Esc"@[0] == 'E' && "Esc"@[1] == 's');
    assert("Tab"@.len() == 3 && "Tab"@[0] == 'T' && "Tab"@[1] == 'a');
    assert("CapsLock"@.len() == 8 && "CapsLock"@[0] == 'C'
        && "CapsLock"@[1] == 'a' && "CapsLock"@[3] == 's');
    assert("Shift"@.len() == 5 && "Shift"@[0] == 'S' && "Shift"@[1] == 'h' && "Shift"@[3] == 'f');
    assert("Ctrl"@.len() == 4 && "Ctrl"@[0] == 'C' && "Ctrl"@[1] == 't' && "Ctrl"@[3] == 'l');
    assert("Alt"@.len() == 3 && "Alt"@[0] == 'A' && "Alt"@[1] == 'l');
    assert("BackSpace"@.len() == 9 && "BackSpace"@[0] == 'B'
        && "BackSpace"@[1] == 'a' && "BackSpace"@[3] == 'k');
    assert("Enter"@.len() == 5 && "Enter"@[0] == 'E' && "Enter"@[1] == 'n' && "Enter"@[3] == 'e');
    assert("Space"@.len() == 5 && "Space"@[0] == 'S' && "Space"@[1] == 'p' && "Space"@[3] == 'c');
    assert("PrintScreen"@.len() == 11 && "PrintScreen"@[0] == 'P'
        && "PrintScreen"@[1] == 'r' && "PrintScreen"@[3] == 'n');
    assert("ScrollLock"@.len() == 10 && "ScrollLock"@[0] == 'S'
        && "ScrollLock"@[1] == 'c' && "ScrollLock"@[3] == 'o');
    assert("Pause"@.len() == 5 && "Pause"@[0] == 'P' && "Pause"@[1] == 'a' && "Pause"@[3] == 's');
    assert("Insert"@.len() == 6 && "Insert"@[0] == 'I'
        && "Insert"@[1] == 'n' && "Insert"@[3] == 'e');
    assert("Delete"@.len() == 6 && "Delete"@[0] == 'D'
        && "Delete"@[1] == 'e' && "Delete"@[3] == 'e');
    assert("Home"@.len() == 4 && "Home"@[0] == 'H' && "Home"@[1] == 'o' && "Home"@[3] == 'e');
    assert("End"@.len() == 3 && "End"@[0] == 'E' && "End"@[1] == 'n');
    assert("PageUp"@.len() == 6 && "PageUp"@[0] == 'P'
        && "PageUp"@[1] == 'a' && "PageUp"@[3] == 'e');
    assert("PageDown"@.len() == 8 && "PageDown"@[0] == 'P'
        && "PageDown"@[1] == 'a' && "PageDown"@[3] == 'e');
    assert("Up"@.len() == 2 && "Up"@[0] == 'U' && "Up"@[1] == 'p');
    assert("Down"@.len() == 4 && "Down"@[0] == 'D' && "Down"@[1] == 'o' && "Down"@[3] == 'n');
    assert("Left"@.len() == 4 && "Left"@[0] == 'L' && "Left"@[1] == 'e' && "Left"@[3] == 't');
    assert("Right"@.len() == 5 && "Right"@[0] == 'R' && "Right"@[1] == 'i' && "Right"@[3] == 'h');
    assert("NumLock"@.len() == 7 && "NumLock"@[0] == 'N'
        && "NumLock"@[1] == 'u' && "NumLock"@[3] == 'L');
    assert("NumAdd"@.len() == 6 && "NumAdd"@[0] == 'N'
        && "NumAdd"@[1] == 'u' && "NumAdd"@[3] == 'A');
    assert("NumSub"@.len() == 6 && "NumSub"@[0] == 'N'
        && "NumSub"@[1] == 'u' && "NumSub"@[3] == 'S');
    assert("NumMul"@.len() == 6 && "NumMul"@[0] == 'N'
        && "NumMul"@[1] == 'u' && "NumMul"@[3] == 'M');
    assert("NumDiv"@.len() == 6 && "NumDiv"@[0] == 'N'
        && "NumDiv"@[1] == 'u' && "NumDiv"@[3] == 'D');
    assert("NumDecimal"@.len() == 10 && "NumDecimal"@[0] == 'N'
        && "NumDecimal"@[1] == 'u' && "NumDecimal"@[3] == 'D');
    assert("LShift"@.len() == 6 && "LShift"@[0] == 'L'
        && "LShift"@[1] == 'S' && "LShift"@[3] == 'i');
    assert("RShift"@.len() == 6 && "RShift"@[0] == 'R'
        && "RShift"@[1] == 'S' && "RShift"@[3] == 'i');
    assert("LCtrl"@.len() == 5 && "LCtrl"@[0] == 'L' && "LCtrl"@[1] == 'C' && "LCtrl"@[3] == 'r');
    assert("RCtrl"@.len() == 5 && "RCtrl"@[0] == 'R' && "RCtrl"@[1] == 'C' && "RCtrl"@[3] == 'r');
    assert("LAlt"@.len() == 4 && "LAlt"@[0] == 'L' && "LAlt"@[1] == 'A' && "LAlt"@[3] == 't');
    assert("RAlt"@.len() == 4 && "RAlt"@[0] == 'R' && "RAlt"@[1] == 'A' && "RAlt"@[3] == 't');
}

/// The name that is written for a key is read as that key again, for every
/// key whose name comes back, provided that among the ASCII characters the
/// numeric ones are the ten digits, which `numeric_ascii_are_digits` tells.
pub proof fn lemma_key_name_round_trip(k: VirtualKey)
    requires
        name_comes_back(k),
        ascii_numeric_are_digits(),
    ensures
        key_of_name(key_name(k)) == Some(k),
{
    let v = key_name(k);
    match k {
        VirtualKey::Char(c) => {
            assert(v.len() == 1);
            if plain_key_of_name(v) is Some {
                lemma_plain_names_are_long(v);
            }
            assert(v[0] == c);
        },
        VirtualKey::NumPad(n) => {
            reveal_strlit("NumPad");
            lemma_numbered_name("NumPad"@, n as nat, u8::MAX as nat);
            if plain_key_of_name(v) is Some {
                lemma_plain_names_are_long(v);
                assert(v[0] == 'N' && v[1] == 'u' && v[3] == 'P');
            }
        },
        VirtualKey::F(n) => {
            reveal_strlit("NumPad");
            reveal_strlit("F");
            lemma_numbered_name("F"@, n as nat, u8::MAX as nat);
            if plain_key_of_name(v) is Some {
                lemma_plain_names_are_long(v);
                assert(v[0] == 'F');
            }
            assert(v[0] == 'F');
            assert(!starts_with(v, "NumPad"@)) by {
                if starts_with(v, "NumPad"@) {
                    assert(v.subrange(0, 6)[0] == 'N');
                }
            }
        },
        VirtualKey::Other(n) => {
            reveal_strlit("NumPad");
            reveal_strlit("F");
            reveal_strlit("Other");
            lemma_numbered_name("Other"@, n as nat, u32::MAX as nat);
            if plain_key_of_name(v) is Some {
                lemma_plain_names_are_long(v);
                assert(v[0] == 'O');
            }
            assert(v[0] == 'O');
            assert(!starts_with(v, "NumPad"@)) by {
                if starts_with(v, "NumPad"@) {
                    assert(v.subrange(0, 6)[0] == 'N');
                }
            }
            assert(!starts_with(v, "F"@)) by {
                if starts_with(v, "F"@) {
                    assert(v.subrange(0, 1)[0] == 'F');
                }
            }
        },
        _ => {
            lemma_plain_name(k);
        },
    }
}

/// A keyboard scan code
#[derive(Clone, Copy, PartialEq, Eq, Structural, Debug, Hash)]
pub struct ScanCode(pub u32);

/// A virtual key and a scan code.
#[derive(Clone, Copy, Debug)]
pub struct KeyCode {
    pub vkey: VirtualKey,
    pub scan_code: ScanCode,
}

impl KeyCode {
    pub fn new(vkey: VirtualKey, scan_code: ScanCode) -> (r: Self)
        ensures
            r.vkey == vkey,
            r.scan_code == scan_code,
    {
        Self { vkey, scan_code }
    }
}

/// The key that a native key code stands for.
pub open spec fn virtual_key_of(k: u32) -> VirtualKey {
    if 0x30 <= k <= 0x5A {
        VirtualKey::Char((k as u8) as char)
    } else if k == VK_ESCAPE {
        VirtualKey::Esc
    } else if k == VK_TAB {
        VirtualKey::Tab
    } else if k == VK_CAPITAL {
        VirtualKey::CapsLock
    } else if k == VK_SHIFT {
        VirtualKey::Shift
    } else if k == VK_CONTROL {
        VirtualKey::Ctrl
    } else if k == VK_MENU {
        VirtualKey::Alt
    } else if k == VK_BACK {
        VirtualKey::BackSpace
    } else if k == VK_RETURN {
        VirtualKey::Enter
    } else if k == VK_SPACE {
        VirtualKey::Space
    } else if k == VK_SNAPSHOT {
        VirtualKey::PrintScreen
    } else if k == VK_SCROLL {
        VirtualKey::ScrollLock
    } else if k == VK_PAUSE {
        VirtualKey::Pause
    } else if k == VK_INSERT {
        VirtualKey::Insert
    } else if k == VK_DELETE {
        VirtualKey::Delete
    } else if k == VK_HOME {
        VirtualKey::Home
    } else if k == VK_END {
        VirtualKey::End
    } else if k == VK_PRIOR {
        VirtualKey::PageUp
    } else if k == VK_NEXT {
        VirtualKey::PageDown
    } else if k == VK_UP {
        VirtualKey::Up
    } else if k == VK_DOWN {
        VirtualKey::Down
    } else if k == VK_LEFT {
        VirtualKey::Left
    } else if k == VK_RIGHT {
        VirtualKey::Right
    } else if k == VK_NUMLOCK {
        VirtualKey::NumLock
    } else if VK_NUMPAD0 <= k <= VK_NUMPAD9 {
        VirtualKey::NumPad((k - VK_NUMPAD0) as u8)
    } else if k == VK_ADD {
        VirtualKey::NumAdd
    } else if k == VK_SUBTRACT {
        VirtualKey::NumSub
    } else if k == VK_MULTIPLY {
        VirtualKey::NumMul
    } else if k == VK_DIVIDE {
        VirtualKey::NumDiv
    } else if k == VK_DECIMAL {
        VirtualKey::NumDecimal
    } else if k == VK_LSHIFT {
        VirtualKey::LShift
    } else if k == VK_RSHIFT {
        VirtualKey::RShift
    } else if k == VK_LCONTROL {
        VirtualKey::LCtrl
    } else if k == VK_RCONTROL {
        VirtualKey::RCtrl
    } else if k == VK_LMENU {
        VirtualKey::LAlt
    } else if k == VK_RMENU {
        VirtualKey::RAlt
    } else if k == VK_OEM_MINUS {
        VirtualKey::Char('-')
    } else if k == VK_OEM_PLUS {
        VirtualKey::Char(';')
    } else if k == VK_OEM_COMMA {
        VirtualKey::Char(',')
    } else if k == VK_OEM_PERIOD {
        VirtualKey::Char('.')
    } else if k == VK_OEM_1 {
        VirtualKey::Char(':')
    } else if k == VK_OEM_2 {
        VirtualKey::Char('/')
    } else if k == VK_OEM_3 {
        VirtualKey::Char('@')
    } else if k == VK_OEM_4 {
        VirtualKey::Char('[')
    } else if k == VK_OEM_5 {
        VirtualKey::Char('\\')
    } else if k == VK_OEM_6 {
        VirtualKey::Char(']')
    } else if k == VK_OEM_7 {
        VirtualKey::Char('^')
    } else if k == VK_OEM_102 {
        VirtualKey::Char('_')
    } else if VK_F1 <= k <= VK_F24 {
        VirtualKey::F((k - VK_F1 + 1) as u8)
    } else {
        VirtualKey::Other(k)
    }
}

/// Names the key that a native key code stands for. Codes from `'0'` to `'Z'`
/// are the characters themselves; a code without a name is kept as `Other`.
pub fn as_virtual_key(k: u32) -> (r: VirtualKey)
    ensures
        r == virtual_key_of(k),
{
    if 0x30 <= k && k <= 0x5A {
        return VirtualKey::Char((k as u8) as char);
    }
    if VK_NUMPAD0 <= k && k <= VK_NUMPAD9 {
        return VirtualKey::NumPad((k - VK_NUMPAD0) as u8);
    }
    if VK_F1 <= k && k <= VK_F24 {
        return VirtualKey::F((k - VK_F1 + 1) as u8);
    }
    match k {
        VK_ESCAPE => VirtualKey::Esc,
        VK_TAB => VirtualKey::Tab,
        VK_CAPITAL => VirtualKey::CapsLock,
        VK_SHIFT => VirtualKey::Shift,
        VK_CONTROL => VirtualKey::Ctrl,
        VK_MENU => VirtualKey::Alt,
        VK_BACK => VirtualKey::BackSpace,
        VK_RETURN => VirtualKey::Enter,
        VK_SPACE => VirtualKey::Space,
        VK_SNAPSHOT => VirtualKey::PrintScreen,
        VK_SCROLL => VirtualKey::ScrollLock,
        VK_PAUSE => VirtualKey::Pause,
        VK_INSERT => VirtualKey::Insert,
        VK_DELETE => VirtualKey::Delete,
        VK_HOME => VirtualKey::Home,
        VK_END => VirtualKey::End,
        VK_PRIOR => VirtualKey::PageUp,
        VK_NEXT => VirtualKey::PageDown,
        VK_UP => VirtualKey::Up,
        VK_DOWN => VirtualKey::Down,
        VK_LEFT => VirtualKey::Left,
        VK_RIGHT => VirtualKey::Right,
        VK_NUMLOCK => VirtualKey::NumLock,
        VK_ADD => VirtualKey::NumAdd,
        VK_SUBTRACT => VirtualKey::NumSub,
        VK_MULTIPLY => VirtualKey::NumMul,
        VK_DIVIDE => VirtualKey::NumDiv,
        VK_DECIMAL => VirtualKey::NumDecimal,
        VK_LSHIFT => VirtualKey::LShift,
        VK_RSHIFT => VirtualKey::RShift,
        VK_LCONTROL => VirtualKey::LCtrl,
        VK_RCONTROL => VirtualKey::RCtrl,
        VK_LMENU => VirtualKey::LAlt,
        VK_RMENU => VirtualKey::RAlt,
        VK_OEM_MINUS => VirtualKey::Char('-'),
        VK_OEM_PLUS => VirtualKey::Char(';'),
        VK_OEM_COMMA => VirtualKey::Char(','),
        VK_OEM_PERIOD => VirtualKey::Char('.'),
        VK_OEM_1 => VirtualKey::Char(':'),
        VK_OEM_2 => VirtualKey::Char('/'),
        VK_OEM_3 => VirtualKey::Char('@'),
        VK_OEM_4 => VirtualKey::Char('['),
        VK_OEM_5 => VirtualKey::Char('\\'),
        VK_OEM_6 => VirtualKey::Char(']'),
        VK_OEM_7 => VirtualKey::Char('^'),
        VK_OEM_102 => VirtualKey::Char('_'),
        v => VirtualKey::Other(v),
    }
}

/// A character that stands for a key: one from `'0'` to `'Z'`, or one of the
/// punctuation marks that have a key of their own.
pub open spec fn is_key_char(c: char) -> bool {
    ||| '0' <= c <= 'Z'
    ||| c == '-'
    ||| c == ','
    ||| c == '.'
    ||| c == '/'
    ||| c == '['
    ||| c == '\\'
    ||| c == ']'
    ||| c == '^'
    ||| c == '_'
}

/// The native key code of a key.
pub open spec fn raw_virtual_key_of(k: VirtualKey) -> u32 {
    match k {
        VirtualKey::Char(c) => if '0' <= c <= 'Z' {
            c as u32
        } else if c == '-' {
            VK_OEM_MINUS
        } else if c == ',' {
            VK_OEM_COMMA
        } else if c == '.' {
            VK_OEM_PERIOD
        } else if c == '/' {
            VK_OEM_2
        } else if c == '[' {
            VK_OEM_4
        } else if c == '\\' {
            VK_OEM_5
        } else if c == ']' {
            VK_OEM_6
        } else if c == '^' {
            VK_OEM_7
        } else {
            VK_OEM_102
        },
        VirtualKey::Esc => VK_ESCAPE,
        VirtualKey::Tab => VK_TAB,
        VirtualKey::CapsLock => VK_CAPITAL,
        VirtualKey::Shift => VK_SHIFT,
        VirtualKey::Ctrl => VK_CONTROL,
        VirtualKey::Alt => VK_MENU,
        VirtualKey::BackSpace => VK_BACK,
        VirtualKey::Enter => VK_RETURN,
        VirtualKey::Space => VK_SPACE,
        VirtualKey::PrintScreen => VK_SNAPSHOT,
        VirtualKey::ScrollLock => VK_SCROLL,
        VirtualKey::Pause => VK_PAUSE,
        VirtualKey::Insert => VK_INSERT,
        VirtualKey::Delete => VK_DELETE,
        VirtualKey::Home => VK_HOME,
        VirtualKey::End => VK_END,
        VirtualKey::PageUp => VK_PRIOR,
        VirtualKey::PageDown => VK_NEXT,
        VirtualKey::Up => VK_UP,
        VirtualKey::Down => VK_DOWN,
        VirtualKey::Left => VK_LEFT,
        VirtualKey::Right => VK_RIGHT,
        VirtualKey::NumLock => VK_NUMLOCK,
        VirtualKey::NumPad(n) => (VK_NUMPAD0 + n) as u32,
        VirtualKey::NumAdd => VK_ADD,
        VirtualKey::NumSub => VK_SUBTRACT,
        VirtualKey::NumMul => VK_MULTIPLY,
        VirtualKey::NumDiv => VK_DIVIDE,
        VirtualKey::NumDecimal => VK_DECIMAL,
        VirtualKey::LShift => VK_LSHIFT,
        VirtualKey::RShift => VK_RSHIFT,
        VirtualKey::LCtrl => VK_LCONTROL,
        VirtualKey::RCtrl => VK_RCONTROL,
        VirtualKey::LAlt => VK_LMENU,
        VirtualKey::RAlt => VK_RMENU,
        VirtualKey::F(n) => (VK_F1 + n - 1) as u32,
        VirtualKey::Other(x) => x,
    }
}

/// Tells whether a character stands for a key.
pub fn key_char(c: char) -> (r: bool)
    ensures
        r == is_key_char(c),
{
    ('0' <= c && c <= 'Z') || c == '-' || c == ',' || c == '.' || c == '/' || c == '[' || c == '\\'
        || c == ']' || c == '^' || c == '_'
}

/// Gives the native key code of a key. A character key must be a character
/// that stands for a key.
pub fn to_raw_virtual_key(k: VirtualKey) -> (r: u32)
    requires
        k matches VirtualKey::Char(c) ==> is_key_char(c),
    ensures
        r == raw_virtual_key_of(k),
{
    match k {
        VirtualKey::Char(c) => {
            if '0' <= c && c <= 'Z' {
                c as u32
            } else if c == '-' {
                VK_OEM_MINUS
            } else if c == ',' {
                VK_OEM_COMMA
            } else if c == '.' {
                VK_OEM_PERIOD
            } else if c == '/' {
                VK_OEM_2
            } else if c == '[' {
                VK_OEM_4
            } else if c == '\\' {
                VK_OEM_5
            } else if c == ']' {
                VK_OEM_6
            } else if c == '^' {
                VK_OEM_7
            } else {
                VK_OEM_102
            }
        },
        VirtualKey::Esc => VK_ESCAPE,
        VirtualKey::Tab => VK_TAB,
        VirtualKey::CapsLock => VK_CAPITAL,
        VirtualKey::Shift => VK_SHIFT,
        VirtualKey::Ctrl => VK_CONTROL,
        VirtualKey::Alt => VK_MENU,
        VirtualKey::BackSpace => VK_BACK,
        VirtualKey::Enter => VK_RETURN,
        VirtualKey::Space => VK_SPACE,
        VirtualKey::PrintScreen => VK_SNAPSHOT,
        VirtualKey::ScrollLock => VK_SCROLL,
        VirtualKey::Pause => VK_PAUSE,
        VirtualKey::Insert => VK_INSERT,
        VirtualKey::Delete => VK_DELETE,
        VirtualKey::Home => VK_HOME,
        VirtualKey::End => VK_END,
        VirtualKey::PageUp => VK_PRIOR,
        VirtualKey::PageDown => VK_NEXT,
        VirtualKey::Up => VK_UP,
        VirtualKey::Down => VK_DOWN,
        VirtualKey::Left => VK_LEFT,
        VirtualKey::Right => VK_RIGHT,
        VirtualKey::NumLock => VK_NUMLOCK,
        VirtualKey::NumPad(n) => VK_NUMPAD0 + n as u32,
        VirtualKey::NumAdd => VK_ADD,
        VirtualKey::NumSub => VK_SUBTRACT,
        VirtualKey::NumMul => VK_MULTIPLY,
        VirtualKey::NumDiv => VK_DIVIDE,
        VirtualKey::NumDecimal => VK_DECIMAL,
        VirtualKey::LShift => VK_LSHIFT,
        VirtualKey::RShift => VK_RSHIFT,
        VirtualKey::LCtrl => VK_LCONTROL,
        VirtualKey::RCtrl => VK_RCONTROL,
        VirtualKey::LAlt => VK_LMENU,
        VirtualKey::RAlt => VK_RMENU,
        VirtualKey::F(n) => VK_F1 + n as u32 - 1,
        VirtualKey::Other(x) => x,
    }
}

/// A key whose native code names it again: a character that stands for a key,
/// a numeric pad key from 0 to 9, a function key from 1 to 24, a code without
/// a name, or any of the named keys.
pub open spec fn is_canonical_key(k: VirtualKey) -> bool {
    match k {
        VirtualKey::Char(c) => is_key_char(c),
        VirtualKey::NumPad(n) => n <= 9,
        VirtualKey::F(n) => 1 <= n <= 24,
        VirtualKey::Other(x) => virtual_key_of(x) == VirtualKey::Other(x),
        _ => true,
    }
}

/// The native code of a key names that key again exactly when the key is
/// canonical.
pub proof fn lemma_virtual_key_round_trip(k: VirtualKey)
    requires
        k matches VirtualKey::Char(c) ==> is_key_char(c),
    ensures
        virtual_key_of(raw_virtual_key_of(k)) == k <==> is_canonical_key(k),
{
    match k {
        VirtualKey::Char(c) => {
            assert(((c as u32) as u8) as char == c) by {
                assert(is_key_char(c) ==> (c as u32) < 0x80);
            }
        },
        _ => {},
    }
}

/// Tells from what the native layer reports of a key whether it is held down.
pub fn get_key_state(state: i16) -> (down: bool)
    ensures
        down == (state & 0x80 != 0),
{
    state & 0x80 != 0
}

/// The keys that are held down in a table of 256 key states, in the order of
/// their codes.
pub open spec fn pressed_keys(buffer: Seq<u8>) -> Seq<VirtualKey>
    decreases buffer.len(),
{
    if buffer.len() == 0 {
        Seq::empty()
    } else {
        let rest = pressed_keys(buffer.drop_last());
        if buffer.last() & 0x80 != 0 {
            rest.push(virtual_key_of((buffer.len() - 1) as u32))
        } else {
            rest
        }
    }
}

/// Get current key states.
///
/// `buffer` holds one state for each key code, as the native layer reports
/// them; `keys` receives the keys whose state has the high bit set.
pub fn keyboard_state(keys: &mut Vec<VirtualKey>, buffer: &[u8])
    requires
        buffer@.len() <= u32::MAX,
    ensures
        final(keys)@ == pressed_keys(buffer@),
{
    keys.clear();
    let mut i: usize = 0;
    while i < buffer.len()
        invariant
            i <= buffer@.len(),
            buffer@.len() <= u32::MAX,
            keys@ == pressed_keys(buffer@.subrange(0, i as int)),
        decreases buffer@.len() - i,
    {
        proof {
            let next = buffer@.subrange(0, i + 1);
            assert(next.drop_last() =~= buffer@.subrange(0, i as int));
        }
        if buffer[i] & 0x80 != 0 {
            keys.push(as_virtual_key(i as u32));
        }
        i += 1;
    }
    proof {
        assert(buffer@.subrange(0, i as int) =~= buffer@);
    }
}

#[derive(Clone, Copy, PartialEq, Eq, Structural, Debug)]
pub enum Cursor {
    AppStarting,
    Arrow,
    Cross,
    Hand,
    Help,
    IBeam,
    No,
    SizeAll,
    SizeNESW,
    SizeNS,
    SizeNWSE,
    SizeWE,
    SizeUpArrow,
    Wait,
}

impl Cursor {
    /// The identifier of the system cursor resource.
    pub open spec fn resource_id(self) -> u16 {
        match self {
            Cursor::AppStarting => 32650,
            Cursor::Arrow => 32512,
            Cursor::Cross => 32515,
            Cursor::Hand => 32649,
            Cursor::Help => 32651,
            Cursor::IBeam => 32513,
            Cursor::No => 32648,
            Cursor::SizeAll => 32646,
            Cursor::SizeNESW => 32643,
            Cursor::SizeNS => 32645,
            Cursor::SizeNWSE => 32642,
            Cursor::SizeWE => 32644,
            Cursor::SizeUpArrow => 32516,
            Cursor::Wait => 32514,
        }
    }

    /// The identifier under which the native layer knows the cursor.
    pub fn name(&self) -> (id: u16)
        ensures
            id == self.resource_id(),
    {
        match self {
            Cursor::AppStarting => 32650,
            Cursor::Arrow => 32512,
            Cursor::Cross => 32515,
            Cursor::Hand => 32649,
            Cursor::Help => 32651,
            Cursor::IBeam => 32513,
            Cursor::No => 32648,
            Cursor::SizeAll => 32646,
            Cursor::SizeNESW => 32643,
            Cursor::SizeNS => 32645,
            Cursor::SizeNWSE => 32642,
            Cursor::SizeWE => 32644,
            Cursor::SizeUpArrow => 32516,
            Cursor::Wait => 32514,
        }
    }
}

impl Default for Cursor {
    #[inline]
    fn default() -> (r: Self)
        ensures
            r == Cursor::Arrow,
    {
        Cursor::Arrow
    }
}

} // verus!
