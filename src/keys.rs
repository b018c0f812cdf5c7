//! Key names and physical key codes.
use vstd::prelude::*;
use vstd::string::StrSliceExecFns;

verus! {

/// A physical key, as the input hook reports it and as synthetic events name it.
#[derive(Clone, Copy, Debug, PartialEq, Eq, Hash, Structural)]
pub enum Key {
    Alt,
    AltGr,
    Backspace,
    CapsLock,
    ControlLeft,
    ControlRight,
    Delete,
    DownArrow,
    End,
    Escape,
    F1,
    F10,
    F11,
    F12,
    F2,
    F3,
    F4,
    F5,
    F6,
    F7,
    F8,
    F9,
    Home,
    LeftArrow,
    MetaLeft,
    MetaRight,
    PageDown,
    PageUp,
    Return,
    RightArrow,
    ShiftLeft,
    ShiftRight,
    Space,
    Tab,
    UpArrow,
    PrintScreen,
    ScrollLock,
    Pause,
    NumLock,
    BackQuote,
    Num1,
    Num2,
    Num3,
    Num4,
    Num5,
    Num6,
    Num7,
    Num8,
    Num9,
    Num0,
    Minus,
    Equal,
    KeyQ,
    KeyW,
    KeyE,
    KeyR,
    KeyT,
    KeyY,
    KeyU,
    KeyI,
    KeyO,
    KeyP,
    LeftBracket,
    RightBracket,
    KeyA,
    KeyS,
    KeyD,
    KeyF,
    KeyG,
    KeyH,
    KeyJ,
    KeyK,
    KeyL,
    SemiColon,
    Quote,
    BackSlash,
    IntlBackslash,
    KeyZ,
    KeyX,
    KeyC,
    KeyV,
    KeyB,
    KeyN,
    KeyM,
    Comma,
    Dot,
    Slash,
    Insert,
    KpReturn,
    KpMinus,
    KpPlus,
    KpMultiply,
    KpDivide,
    Kp0,
    Kp1,
    Kp2,
    Kp3,
    Kp4,
    Kp5,
    Kp6,
    Kp7,
    Kp8,
    Kp9,
    KpDelete,
    Function,
    Unknown(u32),
}

/// A modifier that a key combination may require.
#[derive(Clone, Copy, Debug, PartialEq, Eq, Hash, Structural)]
pub enum ModifierKey {
    Alt,
    Control,
    Ctrl,
    Shift,
    Meta,
}

/// What `str::to_uppercase` makes of a string.
pub uninterp spec fn upper_of(s: Seq<char>) -> Seq<char>;

/// Relies on `str::to_uppercase`: the result depends on the characters alone.
#[verifier::external_body]
fn to_upper(s: &str) -> (r: String)
    ensures
        r@ == upper_of(s@),
{
    s.to_uppercase()
}

/// The key that a one-character name stands for.
pub open spec fn key_of_char(c: char) -> Key {
    match c {
        'A' => Key::KeyA,
        'B' => Key::KeyB,
        'C' => Key::KeyC,
        'D' => Key::KeyD,
        'E' => Key::KeyE,
        'F' => Key::KeyF,
        'G' => Key::KeyG,
        'H' => Key::KeyH,
        'I' => Key::KeyI,
        'J' => Key::KeyJ,
        'K' => Key::KeyK,
        'L' => Key::KeyL,
        'M' => Key::KeyM,
        'N' => Key::KeyN,
        'O' => Key::KeyO,
        'P' => Key::KeyP,
        'Q' => Key::KeyQ,
        'R' => Key::KeyR,
        'S' => Key::KeyS,
        'T' => Key::KeyT,
        'U' => Key::KeyU,
        'V' => Key::KeyV,
        'W' => Key::KeyW,
        'X' => Key::KeyX,
        'Y' => Key::KeyY,
        'Z' => Key::KeyZ,
        '0' => Key::Num0,
        ')' => Key::Num0,
        '1' => Key::Num1,
        '!' => Key::Num1,
        '2' => Key::Num2,
        '@' => Key::Num2,
        '3' => Key::Num3,
        '#' => Key::Num3,
        '4' => Key::Num4,
        '$' => Key::Num4,
        '5' => Key::Num5,
        '%' => Key::Num5,
        '6' => Key::Num6,
        '^' => Key::Num6,
        '7' => Key::Num7,
        '&' => Key::Num7,
        '8' => Key::Num8,
        '*' => Key::Num8,
        '9' => Key::Num9,
        '(' => Key::Num9,
        '\n' => Key::Return,
        '\r' => Key::Return,
        ' ' => Key::Space,
        '`' => Key::BackQuote,
        '~' => Key::BackQuote,
        '-' => Key::Minus,
        '_' => Key::Minus,
        '=' => Key::Equal,
        '+' => Key::Equal,
        '[' => Key::LeftBracket,
        '{' => Key::LeftBracket,
        ']' => Key::RightBracket,
        '}' => Key::RightBracket,
        '\\' => Key::BackSlash,
        '|' => Key::BackSlash,
        ';' => Key::SemiColon,
        ':' => Key::SemiColon,
        '\'' => Key::Quote,
        '"' => Key::Quote,
        ',' => Key::Comma,
        '<' => Key::Comma,
        '.' => Key::Dot,
        '>' => Key::Dot,
        '/' => Key::Slash,
        '?' => Key::Slash,
        _ => Key::Unknown(0),
    }
}

/// The key that a name of two or more characters stands for.
pub open spec fn key_of_word(s: Seq<char>) -> Key {
    if s == "F1"@ {
        Key::F1
    } else if s == "F2"@ {
        Key::F2
    } else if s == "F3"@ {
        Key::F3
    } else if s == "F4"@ {
        Key::F4
    } else if s == "F5"@ {
        Key::F5
    } else if s == "F6"@ {
        Key::F6
    } else if s == "F7"@ {
        Key::F7
    } else if s == "F8"@ {
        Key::F8
    } else if s == "F9"@ {
        Key::F9
    } else if s == "F10"@ {
        Key::F10
    } else if s == "F11"@ {
        Key::F11
    } else if s == "F12"@ {
        Key::F12
    } else if s == "ENTER"@ {
        Key::Return
    } else if s == "ESC"@ {
        Key::Escape
    } else if s == "ESCAPE"@ {
        Key::Escape
    } else if s == "BACKSPACE"@ {
        Key::Backspace
    } else if s == "TAB"@ {
        Key::Tab
    } else if s == "SPACE"@ {
        Key::Space
    } else if s == "CAPSLOCK"@ {
        Key::CapsLock
    } else if s == "SHIFT"@ {
        Key::ShiftLeft
    } else if s == "CTRL"@ {
        Key::ControlLeft
    } else if s == "CONTROL"@ {
        Key::ControlLeft
    } else if s == "ALT"@ {
        Key::Alt
    } else if s == "GUI"@ {
        Key::MetaLeft
    } else if s == "SUPER"@ {
        Key::MetaLeft
    } else if s == "WIN"@ {
        Key::MetaLeft
    } else if s == "WINDOWS"@ {
        Key::MetaLeft
    } else if s == "COMMAND"@ {
        Key::MetaLeft
    } else if s == "UP"@ {
        Key::UpArrow
    } else if s == "UPARROW"@ {
        Key::UpArrow
    } else if s == "DOWN"@ {
        Key::DownArrow
    } else if s == "DOWNARROW"@ {
        Key::DownArrow
    } else if s == "LEFT"@ {
        Key::LeftArrow
    } else if s == "LEFTARROW"@ {
        Key::LeftArrow
    } else if s == "RIGHT"@ {
        Key::RightArrow
    } else if s == "RIGHTARROW"@ {
        Key::RightArrow
    } else if s == "PAGEUP"@ {
        Key::PageUp
    } else if s == "PAGEDOWN"@ {
        Key::PageDown
    } else if s == "HOME"@ {
        Key::Home
    } else if s == "END"@ {
        Key::End
    } else if s == "INSERT"@ {
        Key::Insert
    } else if s == "DELETE"@ {
        Key::Delete
    } else if s == "NUMLOCK"@ {
        Key::NumLock
    } else if s == "NUM_0"@ {
        Key::Kp0
    } else if s == "NUM0"@ {
        Key::Kp0
    } else if s == "NUM_1"@ {
        Key::Kp1
    } else if s == "NUM1"@ {
        Key::Kp1
    } else if s == "NUM_2"@ {
        Key::Kp2
    } else if s == "NUM2"@ {
        Key::Kp2
    } else if s == "NUM_3"@ {
        Key::Kp3
    } else if s == "NUM3"@ {
        Key::Kp3
    } else if s == "NUM_4"@ {
        Key::Kp4
    } else if s == "NUM4"@ {
        Key::Kp4
    } else if s == "NUM_5"@ {
        Key::Kp5
    } else if s == "NUM5"@ {
        Key::Kp5
    } else if s == "NUM_6"@ {
        Key::Kp6
    } else if s == "NUM6"@ {
        Key::Kp6
    } else if s == "NUM_7"@ {
        Key::Kp7
    } else if s == "NUM7"@ {
        Key::Kp7
    } else if s == "NUM_8"@ {
        Key::Kp8
    } else if s == "NUM8"@ {
        Key::Kp8
    } else if s == "NUM_9"@ {
        Key::Kp9
    } else if s == "NUM9"@ {
        Key::Kp9
    } else if s == "NUM_DIVIDE"@ {
        Key::KpDivide
    } else if s == "NUM/"@ {
        Key::KpDivide
    } else if s == "NUM_MULTIPLY"@ {
        Key::KpMultiply
    } else if s == "NUM*"@ {
        Key::KpMultiply
    } else if s == "NUM_ENTER"@ {
        Key::KpReturn
    } else if s == "PRINTSCREEN"@ {
        Key::PrintScreen
    } else if s == "SCROLLLOCK"@ {
        Key::ScrollLock
    } else if s == "PAUSE"@ {
        Key::Pause
    } else {
        Key::Unknown(0)
    }
}

fn char_key(c: char) -> (r: Key)
    ensures
        r == key_of_char(c),
{
    match c {
        'A' => Key::KeyA,
        'B' => Key::KeyB,
        'C' => Key::KeyC,
        'D' => Key::KeyD,
        'E' => Key::KeyE,
        'F' => Key::KeyF,
        'G' => Key::KeyG,
        'H' => Key::KeyH,
        'I' => Key::KeyI,
        'J' => Key::KeyJ,
        'K' => Key::KeyK,
        'L' => Key::KeyL,
        'M' => Key::KeyM,
        'N' => Key::KeyN,
        'O' => Key::KeyO,
        'P' => Key::KeyP,
        'Q' => Key::KeyQ,
        'R' => Key::KeyR,
        'S' => Key::KeyS,
        'T' => Key::KeyT,
        'U' => Key::KeyU,
        'V' => Key::KeyV,
        'W' => Key::KeyW,
        'X' => Key::KeyX,
        'Y' => Key::KeyY,
        'Z' => Key::KeyZ,
        '0' => Key::Num0,
        ')' => Key::Num0,
        '1' => Key::Num1,
        '!' => Key::Num1,
        '2' => Key::Num2,
        '@' => Key::Num2,
        '3' => Key::Num3,
        '#' => Key::Num3,
        '4' => Key::Num4,
        '$' => Key::Num4,
        '5' => Key::Num5,
        '%' => Key::Num5,
        '6' => Key::Num6,
        '^' => Key::Num6,
        '7' => Key::Num7,
        '&' => Key::Num7,
        '8' => Key::Num8,
        '*' => Key::Num8,
        '9' => Key::Num9,
        '(' => Key::Num9,
        '\n' => Key::Return,
        '\r' => Key::Return,
        ' ' => Key::Space,
        '`' => Key::BackQuote,
        '~' => Key::BackQuote,
        '-' => Key::Minus,
        '_' => Key::Minus,
        '=' => Key::Equal,
        '+' => Key::Equal,
        '[' => Key::LeftBracket,
        '{' => Key::LeftBracket,
        ']' => Key::RightBracket,
        '}' => Key::RightBracket,
        '\\' => Key::BackSlash,
        '|' => Key::BackSlash,
        ';' => Key::SemiColon,
        ':' => Key::SemiColon,
        '\'' => Key::Quote,
        '"' => Key::Quote,
        ',' => Key::Comma,
        '<' => Key::Comma,
        '.' => Key::Dot,
        '>' => Key::Dot,
        '/' => Key::Slash,
        '?' => Key::Slash,
        _ => Key::Unknown(0),
    }
}

fn word_key(name: &str) -> (r: Key)
    ensures
        r == key_of_word(name@),
{
    if same_chars(name, "F1") {
        return Key::F1;
    }
    if same_chars(name, "F2") {
        return Key::F2;
    }
    if same_chars(name, "F3") {
        return Key::F3;
    }
    if same_chars(name, "F4") {
        return Key::F4;
    }
    if same_chars(name, "F5") {
        return Key::F5;
    }
    if same_chars(name, "F6") {
        return Key::F6;
    }
    if same_chars(name, "F7") {
        return Key::F7;
    }
    if same_chars(name, "F8") {
        return Key::F8;
    }
    if same_chars(name, "F9") {
        return Key::F9;
    }
    if same_chars(name, "F10") {
        return Key::F10;
    }
    if same_chars(name, "F11") {
        return Key::F11;
    }
    if same_chars(name, "F12") {
        return Key::F12;
    }
    if same_chars(name, "ENTER") {
        return Key::Return;
    }
    if same_chars(name, "ESC") {
        return Key::Escape;
    }
    if same_chars(name, "ESCAPE") {
        return Key::Escape;
    }
    if same_chars(name, "BACKSPACE") {
        return Key::Backspace;
    }
    if same_chars(name, "TAB") {
        return Key::Tab;
    }
    if same_chars(name, "SPACE") {
        return Key::Space;
    }
    if same_chars(name, "CAPSLOCK") {
        return Key::CapsLock;
    }
    if same_chars(name, "SHIFT") {
        return Key::ShiftLeft;
    }
    if same_chars(name, "CTRL") {
        return Key::ControlLeft;
    }
    if same_chars(name, "CONTROL") {
        return Key::ControlLeft;
    }
    if same_chars(name, "ALT") {
        return Key::Alt;
    }
    if same_chars(name, "GUI") {
        return Key::MetaLeft;
    }
    if same_chars(name, "SUPER") {
        return Key::MetaLeft;
    }
    if same_chars(name, "WIN") {
        return Key::MetaLeft;
    }
    if same_chars(name, "WINDOWS") {
        return Key::MetaLeft;
    }
    if same_chars(name, "COMMAND") {
        return Key::MetaLeft;
    }
    if same_chars(name, "UP") {
        return Key::UpArrow;
    }
    if same_chars(name, "UPARROW") {
        return Key::UpArrow;
    }
    if same_chars(name, "DOWN") {
        return Key::DownArrow;
    }
    if same_chars(name, "DOWNARROW") {
        return Key::DownArrow;
    }
    if same_chars(name, "LEFT") {
        return Key::LeftArrow;
    }
    if same_chars(name, "LEFTARROW") {
        return Key::LeftArrow;
    }
    if same_chars(name, "RIGHT") {
        return Key::RightArrow;
    }
    if same_chars(name, "RIGHTARROW") {
        return Key::RightArrow;
    }
    if same_chars(name, "PAGEUP") {
        return Key::PageUp;
    }
    if same_chars(name, "PAGEDOWN") {
        return Key::PageDown;
    }
    if same_chars(name, "HOME") {
        return Key::Home;
    }
    if same_chars(name, "END") {
        return Key::End;
    }
    if same_chars(name, "INSERT") {
        return Key::Insert;
    }
    if same_chars(name, "DELETE") {
        return Key::Delete;
    }
    if same_chars(name, "NUMLOCK") {
        return Key::NumLock;
    }
    if same_chars(name, "NUM_0") {
        return Key::Kp0;
    }
    if same_chars(name, "NUM0") {
        return Key::Kp0;
    }
    if same_chars(name, "NUM_1") {
        return Key::Kp1;
    }
    if same_chars(name, "NUM1") {
        return Key::Kp1;
    }
    if same_chars(name, "NUM_2") {
        return Key::Kp2;
    }
    if same_chars(name, "NUM2") {
        return Key::Kp2;
    }
    if same_chars(name, "NUM_3") {
        return Key::Kp3;
    }
    if same_chars(name, "NUM3") {
        return Key::Kp3;
    }
    if same_chars(name, "NUM_4") {
        return Key::Kp4;
    }
    if same_chars(name, "NUM4") {
        return Key::Kp4;
    }
    if same_chars(name, "NUM_5") {
        return Key::Kp5;
    }
    if same_chars(name, "NUM5") {
        return Key::Kp5;
    }
    if same_chars(name, "NUM_6") {
        return Key::Kp6;
    }
    if same_chars(name, "NUM6") {
        return Key::Kp6;
    }
    if same_chars(name, "NUM_7") {
        return Key::Kp7;
    }
    if same_chars(name, "NUM7") {
        return Key::Kp7;
    }
    if same_chars(name, "NUM_8") {
        return Key::Kp8;
    }
    if same_chars(name, "NUM8") {
        return Key::Kp8;
    }
    if same_chars(name, "NUM_9") {
        return Key::Kp9;
    }
    if same_chars(name, "NUM9") {
        return Key::Kp9;
    }
    if same_chars(name, "NUM_DIVIDE") {
        return Key::KpDivide;
    }
    if same_chars(name, "NUM/") {
        return Key::KpDivide;
    }
    if same_chars(name, "NUM_MULTIPLY") {
        return Key::KpMultiply;
    }
    if same_chars(name, "NUM*") {
        return Key::KpMultiply;
    }
    if same_chars(name, "NUM_ENTER") {
        return Key::KpReturn;
    }
    if same_chars(name, "PRINTSCREEN") {
        return Key::PrintScreen;
    }
    if same_chars(name, "SCROLLLOCK") {
        return Key::ScrollLock;
    }
    if same_chars(name, "PAUSE") {
        return Key::Pause;
    }
    Key::Unknown(0)
}

/// The key that a name already in upper case stands for; unknown names give `Unknown(0)`.
pub open spec fn key_of_name(s: Seq<char>) -> Key {
    if s.len() == 1 {
        key_of_char(s[0])
    } else {
        key_of_word(s)
    }
}

/// The key that a user-written name resolves to, whatever its case.
pub open spec fn resolve(s: Seq<char>) -> Key {
    key_of_name(upper_of(s))
}

/// The physical key that a modifier stands for.
pub open spec fn modifier_key(m: ModifierKey) -> Key {
    match m {
        ModifierKey::Alt => Key::Alt,
        ModifierKey::Control | ModifierKey::Ctrl => Key::ControlLeft,
        ModifierKey::Shift => Key::ShiftLeft,
        ModifierKey::Meta => Key::MetaLeft,
    }
}

fn same_chars(a: &str, b: &str) -> (r: bool)
    ensures
        r == (a@ == b@),
{
    let n = a.unicode_len();
    if n != b.unicode_len() {
        return false;
    }
    let mut i: usize = 0;
    while i < n
        invariant
            n == a@.len(),
            n == b@.len(),
            i <= n,
            forall|j: int| 0 <= j < i ==> a@[j] == b@[j],
        decreases n - i,
    {
        if a.get_char(i) != b.get_char(i) {
            return false;
        }
        i = i + 1;
    }
    assert(a@ =~= b@);
    true
}

/// Looks up a name that is already in upper case.
pub fn key_of_upper(name: &str) -> (r: Key)
    ensures
        r == key_of_name(name@),
{
    if name.unicode_len() == 1 {
        char_key(name.get_char(0))
    } else {
        word_key(name)
    }
}

/// Resolves a key name, ignoring case; an unknown name gives `Key::Unknown(0)`.
pub fn str_to_key(s: &str) -> (r: Key)
    ensures
        r == resolve(s@),
{
    let upper = to_upper(s);
    key_of_upper(upper.as_str())
}

/// The physical key that a modifier stands for.
pub fn mod_to_key(key: &ModifierKey) -> (r: Key)
    ensures
        r == modifier_key(*key),
{
    match key {
        ModifierKey::Alt => Key::Alt,
        ModifierKey::Control | ModifierKey::Ctrl => Key::ControlLeft,
        ModifierKey::Shift => Key::ShiftLeft,
        ModifierKey::Meta => Key::MetaLeft,
    }
}

/// Whether the key named `expected` is the key `actual`.
pub fn key_matches(expected: &str, actual: Key) -> (r: bool)
    ensures
        r == (resolve(expected@) == actual),
{
    let k = str_to_key(expected);
    k == actual
}

} // verus!
