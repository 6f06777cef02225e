//! Key events and their textual descriptions (`"Ctrl+l"`, `"Space"`, `"Shift+Tab"`).
use vstd::prelude::*;
use crate::text::{all_digits, ascii_upper, chars_of, digit_value, digits_value, has_prefix, parse_u128, parse_unsigned, rest_equals, slice_chars, starts_with_at, trim_chars, trim_ws};

verus! {

/// Modifier keys held during a key press.
#[derive(Debug, Clone, Copy, PartialEq, Eq, Hash, Structural)]
pub struct KeyModifiers {
    pub shift: bool,
    pub control: bool,
    pub alt: bool,
    pub super_key: bool,
    pub hyper: bool,
    pub meta: bool,
}

/// No modifier held.
pub open spec fn no_mods() -> KeyModifiers {
    KeyModifiers { shift: false, control: false, alt: false, super_key: false, hyper: false, meta: false }
}

impl KeyModifiers {
    /// No modifier.
    pub fn none() -> (r: KeyModifiers)
        ensures
            r == no_mods(),
    {
        KeyModifiers { shift: false, control: false, alt: false, super_key: false, hyper: false, meta: false }
    }

    /// Shift alone.
    pub fn shift_only() -> (r: KeyModifiers)
        ensures
            r == (KeyModifiers { shift: true, ..no_mods() }),
    {
        KeyModifiers { shift: true, control: false, alt: false, super_key: false, hyper: false, meta: false }
    }

    /// Control alone.
    pub fn control_only() -> (r: KeyModifiers)
        ensures
            r == (KeyModifiers { control: true, ..no_mods() }),
    {
        KeyModifiers { shift: false, control: true, alt: false, super_key: false, hyper: false, meta: false }
    }

    /// Whether Control or Alt is held.
    pub fn control_or_alt(&self) -> (r: bool)
        ensures
            r == (self.control || self.alt),
    {
        self.control || self.alt
    }

    /// Whether no modifier is held.
    pub fn is_empty(&self) -> (r: bool)
        ensures
            r == (*self == no_mods()),
    {
        !self.shift && !self.control && !self.alt && !self.super_key && !self.hyper && !self.meta
    }
}

/// A key of the keyboard.
#[derive(Debug, Clone, Copy, PartialEq, Eq, Hash, Structural)]
pub enum KeyCode {
    Backspace,
    Enter,
    Left,
    Right,
    Up,
    Down,
    Home,
    End,
    PageUp,
    PageDown,
    Tab,
    BackTab,
    Delete,
    Insert,
    F(u8),
    Char(char),
    Null,
    Esc,
    CapsLock,
    ScrollLock,
    NumLock,
    PrintScreen,
    Pause,
    Menu,
    KeypadBegin,
    /// A media or modifier key.
    Other,
}

/// A key press: the key and the modifiers held with it.
#[derive(Debug, Clone, Copy, PartialEq, Eq, Hash, Structural)]
pub struct KeyEvent {
    pub code: KeyCode,
    pub modifiers: KeyModifiers,
}

impl KeyEvent {
    /// A press of `code` with `modifiers`.
    pub fn new(code: KeyCode, modifiers: KeyModifiers) -> (r: KeyEvent)
        ensures
            r.code == code,
            r.modifiers == modifiers,
    {
        KeyEvent { code, modifiers }
    }

    /// A press of `code` with no modifier.
    pub fn from_code(code: KeyCode) -> (r: KeyEvent)
        ensures
            r.code == code,
            r.modifiers == no_mods(),
    {
        KeyEvent { code, modifiers: KeyModifiers::none() }
    }
}

/// A parsed key binding, compared with key events.
#[derive(Debug, Clone, Copy, PartialEq, Eq, Hash, Structural)]
pub struct KeyBinding {
    pub modifiers: KeyModifiers,
    pub code: KeyCode,
}

/// A character key typed with Shift is the same binding as its upper-case
/// character without Shift (terminals report either form).
pub open spec fn normalized(modifiers: KeyModifiers, code: KeyCode) -> KeyBinding {
    match code {
        KeyCode::Char(c) => if modifiers.shift {
            KeyBinding { modifiers: KeyModifiers { shift: false, ..modifiers }, code: KeyCode::Char(ascii_upper(c)) }
        } else {
            KeyBinding { modifiers, code }
        },
        _ => KeyBinding { modifiers, code },
    }
}

/// The upper-case form of an ASCII letter.
pub fn to_ascii_uppercase(c: char) -> (r: char)
    ensures
        r == ascii_upper(c),
{
    if 'a' <= c && c <= 'z' {
        let b: u8 = ((c as u32) - 32) as u8;
        b as char
    } else {
        c
    }
}

/// Normalises a binding (see [`normalized`]).
pub fn normalize_char_binding(modifiers: KeyModifiers, code: KeyCode) -> (r: KeyBinding)
    ensures
        r == normalized(modifiers, code),
{
    match code {
        KeyCode::Char(c) => {
            if modifiers.shift {
                KeyBinding {
                    modifiers: KeyModifiers { shift: false, ..modifiers },
                    code: KeyCode::Char(to_ascii_uppercase(c)),
                }
            } else {
                KeyBinding { modifiers, code }
            }
        },
        _ => KeyBinding { modifiers, code },
    }
}

impl KeyBinding {
    /// The binding a key event stands for.
    pub fn from_event(event: KeyEvent) -> (r: KeyBinding)
        ensures
            r == normalized(event.modifiers, event.code),
    {
        normalize_char_binding(event.modifiers, event.code)
    }

    /// Whether the event is exactly this binding (same key, same modifiers).
    pub fn matches(&self, event: &KeyEvent) -> (r: bool)
        ensures
            r == (self.code == event.code && self.modifiers == event.modifiers),
    {
        self.code == event.code && self.modifiers == event.modifiers
    }
}

/// Modifier prefixes at the start of `s` (`Ctrl+`, `Shift+`, `Alt+`, in any
/// order), added to `m`, and the text that follows them.
pub open spec fn strip_modifiers(s: Seq<char>, m: KeyModifiers) -> (KeyModifiers, Seq<char>)
    decreases s.len(),
{
    if has_prefix(s, "Ctrl+"@) && "Ctrl+"@.len() > 0 {
        strip_modifiers(s.skip("Ctrl+"@.len() as int), KeyModifiers { control: true, ..m })
    } else if has_prefix(s, "Shift+"@) && "Shift+"@.len() > 0 {
        strip_modifiers(s.skip("Shift+"@.len() as int), KeyModifiers { shift: true, ..m })
    } else if has_prefix(s, "Alt+"@) && "Alt+"@.len() > 0 {
        strip_modifiers(s.skip("Alt+"@.len() as int), KeyModifiers { alt: true, ..m })
    } else {
        (m, s)
    }
}

/// The function key number written after `F` (as `u8::from_str` reads it), if in 1..=12.
pub open spec fn function_key_number(s: Seq<char>) -> Option<u8> {
    if s.len() >= 2 && s[0] == 'F' {
        match parse_unsigned(s.drop_first()) {
            Some(n) => if 1 <= n <= 12 {
                Some(n as u8)
            } else {
                None
            },
            None => None,
        }
    } else {
        None
    }
}

/// The key named by `s`: a key name, `F1`..`F12`, or a single ASCII character.
pub open spec fn keycode_of(s: Seq<char>) -> Option<KeyCode> {
    if s == "Space"@ || s == " "@ {
        Some(KeyCode::Char(' '))
    } else if s == "Tab"@ {
        Some(KeyCode::Tab)
    } else if s == "BackTab"@ {
        Some(KeyCode::BackTab)
    } else if s == "Enter"@ || s == "Return"@ {
        Some(KeyCode::Enter)
    } else if s == "Esc"@ || s == "Escape"@ {
        Some(KeyCode::Esc)
    } else if s == "Backspace"@ {
        Some(KeyCode::Backspace)
    } else if s == "Up"@ {
        Some(KeyCode::Up)
    } else if s == "Down"@ {
        Some(KeyCode::Down)
    } else if s == "Left"@ {
        Some(KeyCode::Left)
    } else if s == "Right"@ {
        Some(KeyCode::Right)
    } else if s == "Home"@ {
        Some(KeyCode::Home)
    } else if s == "End"@ {
        Some(KeyCode::End)
    } else if s == "PageUp"@ {
        Some(KeyCode::PageUp)
    } else if s == "PageDown"@ {
        Some(KeyCode::PageDown)
    } else if s == "Insert"@ {
        Some(KeyCode::Insert)
    } else if s == "Delete"@ {
        Some(KeyCode::Delete)
    } else if s == "CapsLock"@ {
        Some(KeyCode::CapsLock)
    } else if s == "Null"@ {
        Some(KeyCode::Null)
    } else if function_key_number(s) is Some {
        Some(KeyCode::F(function_key_number(s)->0))
    } else if s.len() == 1 && (s[0] as u32) < 0x80 {
        Some(KeyCode::Char(s[0]))
    } else {
        None
    }
}

/// The decimal digit of `d` (0 to 9).
pub open spec fn digit_char(d: int) -> char {
    if d == 0 { '0' } else if d == 1 { '1' } else if d == 2 { '2' } else if d == 3 { '3' }
    else if d == 4 { '4' } else if d == 5 { '5' } else if d == 6 { '6' } else if d == 7 { '7' }
    else if d == 8 { '8' } else { '9' }
}

/// The name of a key in a key description, for the keys that have one:
/// the named keys, `Space`, `F1`..`F12` and the other ASCII characters.
pub open spec fn key_name(k: KeyCode) -> Option<Seq<char>> {
    match k {
        KeyCode::Backspace => Some("Backspace"@),
        KeyCode::Enter => Some("Enter"@),
        KeyCode::Left => Some("Left"@),
        KeyCode::Right => Some("Right"@),
        KeyCode::Up => Some("Up"@),
        KeyCode::Down => Some("Down"@),
        KeyCode::Home => Some("Home"@),
        KeyCode::End => Some("End"@),
        KeyCode::PageUp => Some("PageUp"@),
        KeyCode::PageDown => Some("PageDown"@),
        KeyCode::Tab => Some("Tab"@),
        KeyCode::BackTab => Some("BackTab"@),
        KeyCode::Delete => Some("Delete"@),
        KeyCode::Insert => Some("Insert"@),
        KeyCode::Esc => Some("Esc"@),
        KeyCode::CapsLock => Some("CapsLock"@),
        KeyCode::Null => Some("Null"@),
        KeyCode::F(n) => if 1 <= n <= 9 {
            Some(seq!['F', digit_char(n as int)])
        } else if 10 <= n <= 12 {
            Some(seq!['F', '1', digit_char(n - 10)])
        } else {
            None
        },
        KeyCode::Char(c) => if c == ' ' {
            Some("Space"@)
        } else if (c as u32) < 0x80 {
            Some(seq![c])
        } else {
            None
        },
        _ => None,
    }
}

/// The second name that a few keys also answer to.
pub open spec fn key_alias(k: KeyCode) -> Option<Seq<char>> {
    match k {
        KeyCode::Enter => Some("Return"@),
        KeyCode::Esc => Some("Escape"@),
        KeyCode::Char(c) => if c == ' ' { Some(" "@) } else { None },
        _ => None,
    }
}

/// Key names read back as their keys: each name and alias of a key parses
/// to that key, so distinct keys have distinct names and distinct names
/// distinct keys; and a key other than a character or function key is
/// parsed from its name or its alias only.
#[verifier::rlimit(60)]
pub proof fn lemma_key_names()
    ensures
        forall|k: KeyCode| #[trigger] key_name(k) is Some ==> keycode_of(key_name(k)->0) == Some(k),
        forall|k: KeyCode| #[trigger] key_alias(k) is Some ==> keycode_of(key_alias(k)->0) == Some(k),
        forall|k1: KeyCode, k2: KeyCode|
            #[trigger] key_name(k1) is Some && #[trigger] key_name(k2) is Some && k1 != k2
                ==> key_name(k1) != key_name(k2) && keycode_of(key_name(k1)->0) != keycode_of(key_name(k2)->0),
        forall|s: Seq<char>, k: KeyCode|
            #[trigger] keycode_of(s) == Some(k) && !(k is Char) && !(k is F) ==> (
                Some(s) == #[trigger] key_name(k) || Some(s) == key_alias(k)),
{
    assert forall|k: KeyCode| #[trigger] key_name(k) is Some implies keycode_of(key_name(k)->0) == Some(k) by {
        lemma_key_name_parses(k);
    }
    assert forall|k: KeyCode| #[trigger] key_alias(k) is Some implies keycode_of(key_alias(k)->0) == Some(k) by {
        lemma_key_name_parses(k);
    }
}

/// The name and the alias of `k` parse to `k`.
#[verifier::rlimit(60)]
proof fn lemma_key_name_parses(k: KeyCode)
    ensures
        key_name(k) is Some ==> keycode_of(key_name(k)->0) == Some(k),
        key_alias(k) is Some ==> keycode_of(key_alias(k)->0) == Some(k),
{
    reveal_strlit("Space");
    reveal_strlit(" ");
    reveal_strlit("Tab");
    reveal_strlit("BackTab");
    reveal_strlit("Enter");
    reveal_strlit("Return");
    reveal_strlit("Esc");
    reveal_strlit("Escape");
    reveal_strlit("Backspace");
    reveal_strlit("Up");
    reveal_strlit("Down");
    reveal_strlit("Left");
    reveal_strlit("Right");
    reveal_strlit("Home");
    reveal_strlit("End");
    reveal_strlit("PageUp");
    reveal_strlit("PageDown");
    reveal_strlit("Insert");
    reveal_strlit("Delete");
    reveal_strlit("CapsLock");
    reveal_strlit("Null");
    match k {
        KeyCode::F(n) => {
            if 1 <= n <= 12 {
                let s = key_name(k)->0;
                reveal_with_fuel(digits_value, 3);
                let d = s.drop_first();
                if n <= 9 {
                    assert(d == seq![digit_char(n as int)]);
                    assert(d.drop_last() == Seq::<char>::empty());
                    assert(digit_value(digit_char(n as int)) == n);
                } else {
                    assert(d == seq!['1', digit_char(n - 10)]);
                    assert(d.drop_last() == seq!['1']);
                    assert(d.drop_last().drop_last() == Seq::<char>::empty());
                    assert(digit_value(digit_char(n - 10)) == n - 10);
                    assert(digit_value('1') == 1);
                }
                assert(all_digits(d));
                assert(d[0] != '+');
                assert(digits_value(d) == n);
                assert(parse_unsigned(d) == Some(n as nat));
                assert(function_key_number(s) == Some(n));
                assert(s[0] == 'F');
                assert(s != "Up"@ && s != "Tab"@ && s != "End"@ && s != "Esc"@) by {
                    assert("Up"@[0] != 'F' && "Tab"@[0] != 'F' && "End"@[0] != 'F' && "Esc"@[0] != 'F');
                }
                assert(keycode_of(s) == Some(KeyCode::F(n)));
            }
        },
        KeyCode::Char(c) => {
            if c != ' ' && (c as u32) < 0x80 {
                let s = seq![c];
                assert(s != " "@) by {
                    assert(" "@[0] == ' ');
                }
                assert(s.len() == 1);
                assert(keycode_of(s) == Some(k));
            }
        },
        _ => {},
    }
}

/// The binding that a description such as `"Ctrl+l"` stands for.
pub open spec fn binding_of(desc: Seq<char>) -> Option<KeyBinding> {
    let t = trim_ws(desc);
    if t.len() == 0 {
        None
    } else {
        let (m, rest) = strip_modifiers(t, no_mods());
        if m == (KeyModifiers { shift: true, ..no_mods() }) && rest == "Tab"@ {
            Some(KeyBinding { modifiers: m, code: KeyCode::BackTab })
        } else {
            match keycode_of(rest) {
                Some(code) => Some(normalized(m, code)),
                None => None,
            }
        }
    }
}

/// Whether `v[from..]` is the literal `lit`.
fn is_name(v: &Vec<char>, from: usize, lit: &str) -> (r: bool)
    requires
        from <= v.len(),
    ensures
        r == (v@.skip(from as int) == lit@),
{
    rest_equals(v, from, lit)
}

/// Parses a key name (see [`keycode_of`]) from `v[from..]`.
pub fn parse_keycode(v: &Vec<char>, from: usize) -> (r: Option<KeyCode>)
    requires
        from <= v.len(),
    ensures
        r == keycode_of(v@.skip(from as int)),
{
    if is_name(v, from, "Space") || is_name(v, from, " ") {
        Some(KeyCode::Char(' '))
    } else if is_name(v, from, "Tab") {
        Some(KeyCode::Tab)
    } else if is_name(v, from, "BackTab") {
        Some(KeyCode::BackTab)
    } else if is_name(v, from, "Enter") || is_name(v, from, "Return") {
        Some(KeyCode::Enter)
    } else if is_name(v, from, "Esc") || is_name(v, from, "Escape") {
        Some(KeyCode::Esc)
    } else if is_name(v, from, "Backspace") {
        Some(KeyCode::Backspace)
    } else if is_name(v, from, "Up") {
        Some(KeyCode::Up)
    } else if is_name(v, from, "Down") {
        Some(KeyCode::Down)
    } else if is_name(v, from, "Left") {
        Some(KeyCode::Left)
    } else if is_name(v, from, "Right") {
        Some(KeyCode::Right)
    } else if is_name(v, from, "Home") {
        Some(KeyCode::Home)
    } else if is_name(v, from, "End") {
        Some(KeyCode::End)
    } else if is_name(v, from, "PageUp") {
        Some(KeyCode::PageUp)
    } else if is_name(v, from, "PageDown") {
        Some(KeyCode::PageDown)
    } else if is_name(v, from, "Insert") {
        Some(KeyCode::Insert)
    } else if is_name(v, from, "Delete") {
        Some(KeyCode::Delete)
    } else if is_name(v, from, "CapsLock") {
        Some(KeyCode::CapsLock)
    } else if is_name(v, from, "Null") {
        Some(KeyCode::Null)
    } else {
        let ghost s = v@.skip(from as int);
        if v.len() - from >= 2 && v[from] == 'F' {
            let rest = slice_chars(v, from + 1, v.len());
            assert(rest@ == s.drop_first());
            match parse_u128(&rest) {
                Some(n) => {
                    if 1 <= n && n <= 12 {
                        return Some(KeyCode::F(n as u8));
                    }
                },
                None => {},
            }
        }
        if v.len() - from == 1 && (v[from] as u32) < 0x80 {
            Some(KeyCode::Char(v[from]))
        } else {
            None
        }
    }
}

/// Parses a key description such as `"Ctrl+l"`, `"Space"` or `"Shift+Tab"`.
///
/// Modifier prefixes `Ctrl+`, `Shift+` and `Alt+` may be combined; key names
/// are `Space`, `Tab`, `BackTab`, `Enter`, `Esc`, `Backspace`, arrows, `Home`,
/// `End`, `PageUp`, `PageDown`, `Insert`, `Delete`, `F1`..`F12`, or a single
/// ASCII character.
pub fn parse_keybinding(desc: &str) -> (r: Option<KeyBinding>)
    ensures
        r == binding_of(desc@),
{
    let all = chars_of(desc);
    let v = trim_chars(&all);
    if v.len() == 0 {
        return None;
    }
    let ctrl = chars_of("Ctrl+");
    let shift = chars_of("Shift+");
    let alt = chars_of("Alt+");
    proof {
        reveal_strlit("Ctrl+");
        reveal_strlit("Shift+");
        reveal_strlit("Alt+");
    }
    let mut modifiers = KeyModifiers::none();
    let mut i: usize = 0;
    assert(v@.skip(0) == v@);
    loop
        invariant
            i <= v.len(),
            ctrl@ == "Ctrl+"@,
            shift@ == "Shift+"@,
            alt@ == "Alt+"@,
            "Ctrl+"@.len() == 5,
            "Shift+"@.len() == 6,
            "Alt+"@.len() == 4,
            strip_modifiers(v@, no_mods()) == strip_modifiers(v@.skip(i as int), modifiers),
        ensures
            i <= v.len(),
            strip_modifiers(v@, no_mods()) == (modifiers, v@.skip(i as int)),
        decreases v.len() - i,
    {
        let ghost s = v@.skip(i as int);
        if starts_with_at(&v, i, &ctrl) {
            assert(s.skip(5) == v@.skip(i + 5));
            modifiers = KeyModifiers { control: true, ..modifiers };
            i = i + 5;
        } else if starts_with_at(&v, i, &shift) {
            assert(s.skip(6) == v@.skip(i + 6));
            modifiers = KeyModifiers { shift: true, ..modifiers };
            i = i + 6;
        } else if starts_with_at(&v, i, &alt) {
            assert(s.skip(4) == v@.skip(i + 4));
            modifiers = KeyModifiers { alt: true, ..modifiers };
            i = i + 4;
        } else {
            assert(strip_modifiers(s, modifiers) == (modifiers, s));
            break;
        }
    }
    if modifiers == KeyModifiers::shift_only() && is_name(&v, i, "Tab") {
        return Some(KeyBinding { modifiers: KeyModifiers::shift_only(), code: KeyCode::BackTab });
    }
    match parse_keycode(&v, i) {
        Some(code) => Some(normalize_char_binding(modifiers, code)),
        None => None,
    }
}

} // verus!
