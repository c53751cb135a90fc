use vstd::prelude::*;

use vstd::string::StringExecFns;

use crate::model::same_text;

verus! {

/// A key that a shortcut can end with.
#[derive(Debug, Clone, Copy, PartialEq, Eq, Structural)]
pub enum KeyCode {
    KeyA,
    KeyB,
    KeyC,
    KeyD,
    KeyE,
    KeyF,
    KeyG,
    KeyH,
    KeyI,
    KeyJ,
    KeyK,
    KeyL,
    KeyM,
    KeyN,
    KeyO,
    KeyP,
    KeyQ,
    KeyR,
    KeyS,
    KeyT,
    KeyU,
    KeyV,
    KeyW,
    KeyX,
    KeyY,
    KeyZ,
    Digit0,
    Digit1,
    Digit2,
    Digit3,
    Digit4,
    Digit5,
    Digit6,
    Digit7,
    Digit8,
    Digit9,
    F1,
    F2,
    F3,
    F4,
    F5,
    F6,
    F7,
    F8,
    F9,
    F10,
    F11,
    F12,
    Space,
    Enter,
    Escape,
    Tab,
    Backspace,
    Delete,
    Insert,
    Home,
    End,
    PageUp,
    PageDown,
    ArrowUp,
    ArrowDown,
    ArrowLeft,
    ArrowRight,
    PrintScreen,
}

/// The modifier keys held with a shortcut's key.
#[derive(Debug, Clone, Copy, PartialEq, Eq, Structural)]
pub struct Modifiers {
    pub ctrl: bool,
    pub alt: bool,
    pub shift: bool,
    pub super_key: bool,
}

/// A single modifier key.
#[derive(Debug, Clone, Copy, PartialEq, Eq, Structural)]
pub enum ModifierKey {
    Ctrl,
    Alt,
    Shift,
    Super,
}

/// A keyboard shortcut: modifier keys and one key.
#[derive(Debug, Clone, Copy, PartialEq, Eq, Structural)]
pub struct Hotkey {
    pub modifiers: Modifiers,
    pub key: KeyCode,
}

/// Why a shortcut could not be read.
#[derive(Debug, Clone, Copy, PartialEq, Eq, Structural)]
pub enum HotkeyError {
    /// A part before the last `+` is not a modifier name.
    UnknownModifier,
    /// The part after the last `+` is not a key name.
    UnknownKey,
}

/// What `str::to_lowercase` gives for a text.
pub uninterp spec fn lowercase_of(s: Seq<char>) -> Seq<char>;

/// What `str::to_uppercase` gives for a text.
pub uninterp spec fn uppercase_of(s: Seq<char>) -> Seq<char>;

/// What `str::trim` gives for a text.
pub uninterp spec fn trimmed(s: Seq<char>) -> Seq<char>;

/// Relies on `str::to_lowercase`: the result depends on the characters alone.
#[verifier::external_body]
fn to_lower(s: &str) -> (r: String)
    ensures
        r@ == lowercase_of(s@),
{
    s.to_lowercase()
}

/// Relies on `str::to_uppercase`: the result depends on the characters alone.
#[verifier::external_body]
fn to_upper(s: &str) -> (r: String)
    ensures
        r@ == uppercase_of(s@),
{
    s.to_uppercase()
}

/// Relies on `str::trim`: the text without leading and trailing white space.
#[verifier::external_body]
fn trim(s: &str) -> (r: &str)
    ensures
        r@ == trimmed(s@),
{
    s.trim()
}

/// The pieces of `s` between occurrences of `sep`, as `str::split` yields
/// them: one more piece than there are separators.
pub open spec fn split_on(s: Seq<char>, sep: char) -> Seq<Seq<char>>
    decreases s.len(),
{
    if s.len() == 0 {
        seq![Seq::empty()]
    } else {
        let prev = split_on(s.drop_last(), sep);
        if s.last() == sep {
            prev.push(Seq::empty())
        } else {
            prev.update(prev.len() - 1, prev.last().push(s.last()))
        }
    }
}

pub proof fn lemma_split_on_nonempty(s: Seq<char>, sep: char)
    ensures
        split_on(s, sep).len() >= 1,
    decreases s.len(),
{
    if s.len() > 0 {
        lemma_split_on_nonempty(s.drop_last(), sep);
    }
}

pub open spec fn str_views(v: Seq<&str>) -> Seq<Seq<char>> {
    v.map_values(|p: &str| p@)
}

/// Splits `s` at each `+`.
pub fn split_plus(s: &str) -> (r: Vec<&str>)
    ensures
        str_views(r@) == split_on(s@, '+'),
{
    let n = s.unicode_len();
    let mut pieces: Vec<&str> = Vec::new();
    let mut start: usize = 0;
    let mut i: usize = 0;
    assert(s@.take(0) =~= Seq::<char>::empty());
    assert(s@.subrange(0, 0) =~= Seq::<char>::empty());
    assert(str_views(pieces@).push(s@.subrange(0, 0)) =~= seq![Seq::<char>::empty()]);
    while i < n
        invariant
            n == s@.len(),
            start <= i <= n,
            split_on(s@.take(i as int), '+') == str_views(pieces@).push(s@.subrange(start as int, i as int)),
        decreases n - i,
    {
        let c = s.get_char(i);
        let ghost prev = split_on(s@.take(i as int), '+');
        assert(s@.take(i + 1).drop_last() =~= s@.take(i as int));
        assert(s@.take(i + 1).last() == c);
        if c == '+' {
            let piece = s.substring_char(start, i);
            pieces.push(piece);
            start = i + 1;
            assert(str_views(pieces@) =~= prev.drop_last().push(piece@));
            assert(s@.subrange(start as int, i + 1) =~= Seq::<char>::empty());
            assert(split_on(s@.take(i + 1), '+') =~= str_views(pieces@).push(s@.subrange(start as int, i + 1)));
        } else {
            assert(s@.subrange(start as int, i + 1) =~= s@.subrange(start as int, i as int).push(c));
            assert(split_on(s@.take(i + 1), '+') =~= str_views(pieces@).push(s@.subrange(start as int, i + 1)));
        }
        i = i + 1;
    }
    let last = s.substring_char(start, n);
    pieces.push(last);
    assert(s@.take(n as int) =~= s@);
    assert(str_views(pieces@) =~= split_on(s@, '+'));
    pieces
}

/// The modifier that a lower-case name stands for.
pub open spec fn modifier_named(lower: Seq<char>) -> Option<ModifierKey> {
    if lower == "ctrl"@ || lower == "control"@ {
        Some(ModifierKey::Ctrl)
    } else if lower == "alt"@ {
        Some(ModifierKey::Alt)
    } else if lower == "shift"@ {
        Some(ModifierKey::Shift)
    } else if lower == "super"@ || lower == "win"@ || lower == "meta"@ {
        Some(ModifierKey::Super)
    } else {
        None
    }
}

/// Looks up the modifier that a lower-case name stands for.
pub fn modifier_for_name(lower: &str) -> (r: Option<ModifierKey>)
    ensures
        r == modifier_named(lower@),
{
    if same_text(lower, "ctrl") || same_text(lower, "control") {
        Some(ModifierKey::Ctrl)
    } else if same_text(lower, "alt") {
        Some(ModifierKey::Alt)
    } else if same_text(lower, "shift") {
        Some(ModifierKey::Shift)
    } else if same_text(lower, "super") || same_text(lower, "win") || same_text(lower, "meta") {
        Some(ModifierKey::Super)
    } else {
        None
    }
}

/// The key that an upper-case name stands for.
pub open spec fn key_named(upper: Seq<char>) -> Option<KeyCode> {
    if upper == "A"@ {
        Some(KeyCode::KeyA)
    } else if upper == "B"@ {
        Some(KeyCode::KeyB)
    } else if upper == "C"@ {
        Some(KeyCode::KeyC)
    } else if upper == "D"@ {
        Some(KeyCode::KeyD)
    } else if upper == "E"@ {
        Some(KeyCode::KeyE)
    } else if upper == "F"@ {
        Some(KeyCode::KeyF)
    } else if upper == "G"@ {
        Some(KeyCode::KeyG)
    } else if upper == "H"@ {
        Some(KeyCode::KeyH)
    } else if upper == "I"@ {
        Some(KeyCode::KeyI)
    } else if upper == "J"@ {
        Some(KeyCode::KeyJ)
    } else if upper == "K"@ {
        Some(KeyCode::KeyK)
    } else if upper == "L"@ {
        Some(KeyCode::KeyL)
    } else if upper == "M"@ {
        Some(KeyCode::KeyM)
    } else if upper == "N"@ {
        Some(KeyCode::KeyN)
    } else if upper == "O"@ {
        Some(KeyCode::KeyO)
    } else if upper == "P"@ {
        Some(KeyCode::KeyP)
    } else if upper == "Q"@ {
        Some(KeyCode::KeyQ)
    } else if upper == "R"@ {
        Some(KeyCode::KeyR)
    } else if upper == "S"@ {
        Some(KeyCode::KeyS)
    } else if upper == "T"@ {
        Some(KeyCode::KeyT)
    } else if upper == "U"@ {
        Some(KeyCode::KeyU)
    } else if upper == "V"@ {
        Some(KeyCode::KeyV)
    } else if upper == "W"@ {
        Some(KeyCode::KeyW)
    } else if upper == "X"@ {
        Some(KeyCode::KeyX)
    } else if upper == "Y"@ {
        Some(KeyCode::KeyY)
    } else if upper == "Z"@ {
        Some(KeyCode::KeyZ)
    } else if upper == "0"@ || upper == "DIGIT0"@ {
        Some(KeyCode::Digit0)
    } else if upper == "1"@ || upper == "DIGIT1"@ {
        Some(KeyCode::Digit1)
    } else if upper == "2"@ || upper == "DIGIT2"@ {
        Some(KeyCode::Digit2)
    } else if upper == "3"@ || upper == "DIGIT3"@ {
        Some(KeyCode::Digit3)
    } else if upper == "4"@ || upper == "DIGIT4"@ {
        Some(KeyCode::Digit4)
    } else if upper == "5"@ || upper == "DIGIT5"@ {
        Some(KeyCode::Digit5)
    } else if upper == "6"@ || upper == "DIGIT6"@ {
        Some(KeyCode::Digit6)
    } else if upper == "7"@ || upper == "DIGIT7"@ {
        Some(KeyCode::Digit7)
    } else if upper == "8"@ || upper == "DIGIT8"@ {
        Some(KeyCode::Digit8)
    } else if upper == "9"@ || upper == "DIGIT9"@ {
        Some(KeyCode::Digit9)
    } else if upper == "F1"@ {
        Some(KeyCode::F1)
    } else if upper == "F2"@ {
        Some(KeyCode::F2)
    } else if upper == "F3"@ {
        Some(KeyCode::F3)
    } else if upper == "F4"@ {
        Some(KeyCode::F4)
    } else if upper == "F5"@ {
        Some(KeyCode::F5)
    } else if upper == "F6"@ {
        Some(KeyCode::F6)
    } else if upper == "F7"@ {
        Some(KeyCode::F7)
    } else if upper == "F8"@ {
        Some(KeyCode::F8)
    } else if upper == "F9"@ {
        Some(KeyCode::F9)
    } else if upper == "F10"@ {
        Some(KeyCode::F10)
    } else if upper == "F11"@ {
        Some(KeyCode::F11)
    } else if upper == "F12"@ {
        Some(KeyCode::F12)
    } else if upper == "SPACE"@ {
        Some(KeyCode::Space)
    } else if upper == "ENTER"@ || upper == "RETURN"@ {
        Some(KeyCode::Enter)
    } else if upper == "ESCAPE"@ || upper == "ESC"@ {
        Some(KeyCode::Escape)
    } else if upper == "TAB"@ {
        Some(KeyCode::Tab)
    } else if upper == "BACKSPACE"@ {
        Some(KeyCode::Backspace)
    } else if upper == "DELETE"@ {
        Some(KeyCode::Delete)
    } else if upper == "INSERT"@ {
        Some(KeyCode::Insert)
    } else if upper == "HOME"@ {
        Some(KeyCode::Home)
    } else if upper == "END"@ {
        Some(KeyCode::End)
    } else if upper == "PAGEUP"@ {
        Some(KeyCode::PageUp)
    } else if upper == "PAGEDOWN"@ {
        Some(KeyCode::PageDown)
    } else if upper == "UP"@ || upper == "ARROWUP"@ {
        Some(KeyCode::ArrowUp)
    } else if upper == "DOWN"@ || upper == "ARROWDOWN"@ {
        Some(KeyCode::ArrowDown)
    } else if upper == "LEFT"@ || upper == "ARROWLEFT"@ {
        Some(KeyCode::ArrowLeft)
    } else if upper == "RIGHT"@ || upper == "ARROWRIGHT"@ {
        Some(KeyCode::ArrowRight)
    } else if upper == "PRINTSCREEN"@ {
        Some(KeyCode::PrintScreen)
    } else {
        None
    }
}

/// Looks up the key that an upper-case name stands for.
pub fn key_for_name(upper: &str) -> (r: Option<KeyCode>)
    ensures
        r == key_named(upper@),
{
    if same_text(upper, "A") {
        Some(KeyCode::KeyA)
    } else if same_text(upper, "B") {
        Some(KeyCode::KeyB)
    } else if same_text(upper, "C") {
        Some(KeyCode::KeyC)
    } else if same_text(upper, "D") {
        Some(KeyCode::KeyD)
    } else if same_text(upper, "E") {
        Some(KeyCode::KeyE)
    } else if same_text(upper, "F") {
        Some(KeyCode::KeyF)
    } else if same_text(upper, "G") {
        Some(KeyCode::KeyG)
    } else if same_text(upper, "H") {
        Some(KeyCode::KeyH)
    } else if same_text(upper, "I") {
        Some(KeyCode::KeyI)
    } else if same_text(upper, "J") {
        Some(KeyCode::KeyJ)
    } else if same_text(upper, "K") {
        Some(KeyCode::KeyK)
    } else if same_text(upper, "L") {
        Some(KeyCode::KeyL)
    } else if same_text(upper, "M") {
        Some(KeyCode::KeyM)
    } else if same_text(upper, "N") {
        Some(KeyCode::KeyN)
    } else if same_text(upper, "O") {
        Some(KeyCode::KeyO)
    } else if same_text(upper, "P") {
        Some(KeyCode::KeyP)
    } else if same_text(upper, "Q") {
        Some(KeyCode::KeyQ)
    } else if same_text(upper, "R") {
        Some(KeyCode::KeyR)
    } else if same_text(upper, "S") {
        Some(KeyCode::KeyS)
    } else if same_text(upper, "T") {
        Some(KeyCode::KeyT)
    } else if same_text(upper, "U") {
        Some(KeyCode::KeyU)
    } else if same_text(upper, "V") {
        Some(KeyCode::KeyV)
    } else if same_text(upper, "W") {
        Some(KeyCode::KeyW)
    } else if same_text(upper, "X") {
        Some(KeyCode::KeyX)
    } else if same_text(upper, "Y") {
        Some(KeyCode::KeyY)
    } else if same_text(upper, "Z") {
        Some(KeyCode::KeyZ)
    } else if same_text(upper, "0") || same_text(upper, "DIGIT0") {
        Some(KeyCode::Digit0)
    } else if same_text(upper, "1") || same_text(upper, "DIGIT1") {
        Some(KeyCode::Digit1)
    } else if same_text(upper, "2") || same_text(upper, "DIGIT2") {
        Some(KeyCode::Digit2)
    } else if same_text(upper, "3") || same_text(upper, "DIGIT3") {
        Some(KeyCode::Digit3)
    } else if same_text(upper, "4") || same_text(upper, "DIGIT4") {
        Some(KeyCode::Digit4)
    } else if same_text(upper, "5") || same_text(upper, "DIGIT5") {
        Some(KeyCode::Digit5)
    } else if same_text(upper, "6") || same_text(upper, "DIGIT6") {
        Some(KeyCode::Digit6)
    } else if same_text(upper, "7") || same_text(upper, "DIGIT7") {
        Some(KeyCode::Digit7)
    } else if same_text(upper, "8") || same_text(upper, "DIGIT8") {
        Some(KeyCode::Digit8)
    } else if same_text(upper, "9") || same_text(upper, "DIGIT9") {
        Some(KeyCode::Digit9)
    } else if same_text(upper, "F1") {
        Some(KeyCode::F1)
    } else if same_text(upper, "F2") {
        Some(KeyCode::F2)
    } else if same_text(upper, "F3") {
        Some(KeyCode::F3)
    } else if same_text(upper, "F4") {
        Some(KeyCode::F4)
    } else if same_text(upper, "F5") {
        Some(KeyCode::F5)
    } else if same_text(upper, "F6") {
        Some(KeyCode::F6)
    } else if same_text(upper, "F7") {
        Some(KeyCode::F7)
    } else if same_text(upper, "F8") {
        Some(KeyCode::F8)
    } else if same_text(upper, "F9") {
        Some(KeyCode::F9)
    } else if same_text(upper, "F10") {
        Some(KeyCode::F10)
    } else if same_text(upper, "F11") {
        Some(KeyCode::F11)
    } else if same_text(upper, "F12") {
        Some(KeyCode::F12)
    } else if same_text(upper, "SPACE") {
        Some(KeyCode::Space)
    } else if same_text(upper, "ENTER") || same_text(upper, "RETURN") {
        Some(KeyCode::Enter)
    } else if same_text(upper, "ESCAPE") || same_text(upper, "ESC") {
        Some(KeyCode::Escape)
    } else if same_text(upper, "TAB") {
        Some(KeyCode::Tab)
    } else if same_text(upper, "BACKSPACE") {
        Some(KeyCode::Backspace)
    } else if same_text(upper, "DELETE") {
        Some(KeyCode::Delete)
    } else if same_text(upper, "INSERT") {
        Some(KeyCode::Insert)
    } else if same_text(upper, "HOME") {
        Some(KeyCode::Home)
    } else if same_text(upper, "END") {
        Some(KeyCode::End)
    } else if same_text(upper, "PAGEUP") {
        Some(KeyCode::PageUp)
    } else if same_text(upper, "PAGEDOWN") {
        Some(KeyCode::PageDown)
    } else if same_text(upper, "UP") || same_text(upper, "ARROWUP") {
        Some(KeyCode::ArrowUp)
    } else if same_text(upper, "DOWN") || same_text(upper, "ARROWDOWN") {
        Some(KeyCode::ArrowDown)
    } else if same_text(upper, "LEFT") || same_text(upper, "ARROWLEFT") {
        Some(KeyCode::ArrowLeft)
    } else if same_text(upper, "RIGHT") || same_text(upper, "ARROWRIGHT") {
        Some(KeyCode::ArrowRight)
    } else if same_text(upper, "PRINTSCREEN") {
        Some(KeyCode::PrintScreen)
    } else {
        None
    }
}

pub open spec fn with_modifier(m: Modifiers, k: ModifierKey) -> Modifiers {
    match k {
        ModifierKey::Ctrl => Modifiers { ctrl: true, ..m },
        ModifierKey::Alt => Modifiers { alt: true, ..m },
        ModifierKey::Shift => Modifiers { shift: true, ..m },
        ModifierKey::Super => Modifiers { super_key: true, ..m },
    }
}

pub open spec fn no_modifiers() -> Modifiers {
    Modifiers { ctrl: false, alt: false, shift: false, super_key: false }
}

/// The modifiers that the parts name, or `None` when one part names none.
pub open spec fn modifiers_named(parts: Seq<Seq<char>>) -> Option<Modifiers>
    decreases parts.len(),
{
    if parts.len() == 0 {
        Some(no_modifiers())
    } else {
        match modifiers_named(parts.drop_last()) {
            Some(m) => match modifier_named(lowercase_of(trimmed(parts.last()))) {
                Some(k) => Some(with_modifier(m, k)),
                None => None,
            },
            None => None,
        }
    }
}

/// The shortcut that a text such as `Ctrl+Alt+S` describes: the parts
/// between `+` signs, white space trimmed, are modifier names in any case,
/// and the last is a key name in any case.
pub open spec fn hotkey_described(s: Seq<char>) -> Result<Hotkey, HotkeyError> {
    let parts = split_on(s, '+');
    match modifiers_named(parts.drop_last()) {
        None => Err(HotkeyError::UnknownModifier),
        Some(m) => match key_named(uppercase_of(trimmed(parts.last()))) {
            Some(k) => Ok(Hotkey { modifiers: m, key: k }),
            None => Err(HotkeyError::UnknownKey),
        },
    }
}

/// Reads a shortcut written like `Ctrl+Super+S`.
pub fn parse_hotkey(config_str: &str) -> (r: Result<Hotkey, HotkeyError>)
    ensures
        r == hotkey_described(config_str@),
{
    let parts = split_plus(config_str);
    let ghost views = str_views(parts@);
    proof {
        lemma_split_on_nonempty(config_str@, '+');
    }
    let n = parts.len();
    let mut m = Modifiers { ctrl: false, alt: false, shift: false, super_key: false };
    let mut i: usize = 0;
    assert(views.take(0) =~= Seq::<Seq<char>>::empty());
    while i + 1 < n
        invariant
            n == parts@.len(),
            n >= 1,
            views == str_views(parts@),
            views == split_on(config_str@, '+'),
            i + 1 <= n,
            modifiers_named(views.take(i as int)) == Some(m),
        decreases n - i,
    {
        let lower = to_lower(trim(parts[i]));
        assert(views.take(i + 1).drop_last() =~= views.take(i as int));
        assert(views.take(i + 1).last() == parts@[i as int]@);
        match modifier_for_name(lower.as_str()) {
            Some(k) => {
                match k {
                    ModifierKey::Ctrl => { m.ctrl = true; },
                    ModifierKey::Alt => { m.alt = true; },
                    ModifierKey::Shift => { m.shift = true; },
                    ModifierKey::Super => { m.super_key = true; },
                }
            },
            None => {
                proof {
                    assert(modifiers_named(views.take(i + 1)) is None);
                    lemma_modifiers_named_prefix(views, i + 1, (n - 1) as int);
                    assert(views.drop_last() =~= views.take(n - 1));
                }
                return Err(HotkeyError::UnknownModifier);
            },
        }
        i = i + 1;
    }
    assert(views.drop_last() =~= views.take(n - 1));
    let upper = to_upper(trim(parts[n - 1]));
    match key_for_name(upper.as_str()) {
        Some(key) => Ok(Hotkey { modifiers: m, key }),
        None => Err(HotkeyError::UnknownKey),
    }
}

/// Once a prefix names no modifiers, no longer prefix does either.
pub proof fn lemma_modifiers_named_prefix(parts: Seq<Seq<char>>, i: int, j: int)
    requires
        0 <= i <= j <= parts.len(),
        modifiers_named(parts.take(i)) is None,
    ensures
        modifiers_named(parts.take(j)) is None,
    decreases j - i,
{
    if i < j {
        assert(parts.take(i + 1).drop_last() =~= parts.take(i));
        lemma_modifiers_named_prefix(parts, i + 1, j);
    }
}

/// The name of a key in the `KeyA`, `Digit0`, `ArrowUp` style.
pub open spec fn code_name(k: KeyCode) -> Seq<char> {
    match k {
        KeyCode::KeyA => "KeyA"@,
        KeyCode::KeyB => "KeyB"@,
        KeyCode::KeyC => "KeyC"@,
        KeyCode::KeyD => "KeyD"@,
        KeyCode::KeyE => "KeyE"@,
        KeyCode::KeyF => "KeyF"@,
        KeyCode::KeyG => "KeyG"@,
        KeyCode::KeyH => "KeyH"@,
        KeyCode::KeyI => "KeyI"@,
        KeyCode::KeyJ => "KeyJ"@,
        KeyCode::KeyK => "KeyK"@,
        KeyCode::KeyL => "KeyL"@,
        KeyCode::KeyM => "KeyM"@,
        KeyCode::KeyN => "KeyN"@,
        KeyCode::KeyO => "KeyO"@,
        KeyCode::KeyP => "KeyP"@,
        KeyCode::KeyQ => "KeyQ"@,
        KeyCode::KeyR => "KeyR"@,
        KeyCode::KeyS => "KeyS"@,
        KeyCode::KeyT => "KeyT"@,
        KeyCode::KeyU => "KeyU"@,
        KeyCode::KeyV => "KeyV"@,
        KeyCode::KeyW => "KeyW"@,
        KeyCode::KeyX => "KeyX"@,
        KeyCode::KeyY => "KeyY"@,
        KeyCode::KeyZ => "KeyZ"@,
        KeyCode::Digit0 => "Digit0"@,
        KeyCode::Digit1 => "Digit1"@,
        KeyCode::Digit2 => "Digit2"@,
        KeyCode::Digit3 => "Digit3"@,
        KeyCode::Digit4 => "Digit4"@,
        KeyCode::Digit5 => "Digit5"@,
        KeyCode::Digit6 => "Digit6"@,
        KeyCode::Digit7 => "Digit7"@,
        KeyCode::Digit8 => "Digit8"@,
        KeyCode::Digit9 => "Digit9"@,
        KeyCode::F1 => "F1"@,
        KeyCode::F2 => "F2"@,
        KeyCode::F3 => "F3"@,
        KeyCode::F4 => "F4"@,
        KeyCode::F5 => "F5"@,
        KeyCode::F6 => "F6"@,
        KeyCode::F7 => "F7"@,
        KeyCode::F8 => "F8"@,
        KeyCode::F9 => "F9"@,
        KeyCode::F10 => "F10"@,
        KeyCode::F11 => "F11"@,
        KeyCode::F12 => "F12"@,
        KeyCode::Space => "Space"@,
        KeyCode::Enter => "Enter"@,
        KeyCode::Escape => "Escape"@,
        KeyCode::Tab => "Tab"@,
        KeyCode::Backspace => "Backspace"@,
        KeyCode::Delete => "Delete"@,
        KeyCode::Insert => "Insert"@,
        KeyCode::Home => "Home"@,
        KeyCode::End => "End"@,
        KeyCode::PageUp => "PageUp"@,
        KeyCode::PageDown => "PageDown"@,
        KeyCode::ArrowUp => "ArrowUp"@,
        KeyCode::ArrowDown => "ArrowDown"@,
        KeyCode::ArrowLeft => "ArrowLeft"@,
        KeyCode::ArrowRight => "ArrowRight"@,
        KeyCode::PrintScreen => "PrintScreen"@,
    }
}

impl KeyCode {
    /// The name of this key in the `KeyA`, `Digit0`, `ArrowUp` style.
    pub fn name(&self) -> (r: &'static str)
        ensures
            r@ == code_name(*self),
    {
        match self {
            KeyCode::KeyA => "KeyA",
            KeyCode::KeyB => "KeyB",
            KeyCode::KeyC => "KeyC",
            KeyCode::KeyD => "KeyD",
            KeyCode::KeyE => "KeyE",
            KeyCode::KeyF => "KeyF",
            KeyCode::KeyG => "KeyG",
            KeyCode::KeyH => "KeyH",
            KeyCode::KeyI => "KeyI",
            KeyCode::KeyJ => "KeyJ",
            KeyCode::KeyK => "KeyK",
            KeyCode::KeyL => "KeyL",
            KeyCode::KeyM => "KeyM",
            KeyCode::KeyN => "KeyN",
            KeyCode::KeyO => "KeyO",
            KeyCode::KeyP => "KeyP",
            KeyCode::KeyQ => "KeyQ",
            KeyCode::KeyR => "KeyR",
            KeyCode::KeyS => "KeyS",
            KeyCode::KeyT => "KeyT",
            KeyCode::KeyU => "KeyU",
            KeyCode::KeyV => "KeyV",
            KeyCode::KeyW => "KeyW",
            KeyCode::KeyX => "KeyX",
            KeyCode::KeyY => "KeyY",
            KeyCode::KeyZ => "KeyZ",
            KeyCode::Digit0 => "Digit0",
            KeyCode::Digit1 => "Digit1",
            KeyCode::Digit2 => "Digit2",
            KeyCode::Digit3 => "Digit3",
            KeyCode::Digit4 => "Digit4",
            KeyCode::Digit5 => "Digit5",
            KeyCode::Digit6 => "Digit6",
            KeyCode::Digit7 => "Digit7",
            KeyCode::Digit8 => "Digit8",
            KeyCode::Digit9 => "Digit9",
            KeyCode::F1 => "F1",
            KeyCode::F2 => "F2",
            KeyCode::F3 => "F3",
            KeyCode::F4 => "F4",
            KeyCode::F5 => "F5",
            KeyCode::F6 => "F6",
            KeyCode::F7 => "F7",
            KeyCode::F8 => "F8",
            KeyCode::F9 => "F9",
            KeyCode::F10 => "F10",
            KeyCode::F11 => "F11",
            KeyCode::F12 => "F12",
            KeyCode::Space => "Space",
            KeyCode::Enter => "Enter",
            KeyCode::Escape => "Escape",
            KeyCode::Tab => "Tab",
            KeyCode::Backspace => "Backspace",
            KeyCode::Delete => "Delete",
            KeyCode::Insert => "Insert",
            KeyCode::Home => "Home",
            KeyCode::End => "End",
            KeyCode::PageUp => "PageUp",
            KeyCode::PageDown => "PageDown",
            KeyCode::ArrowUp => "ArrowUp",
            KeyCode::ArrowDown => "ArrowDown",
            KeyCode::ArrowLeft => "ArrowLeft",
            KeyCode::ArrowRight => "ArrowRight",
            KeyCode::PrintScreen => "PrintScreen",
        }
    }
}

/// The text form `shift+control+alt+super+Key`, modifiers in that order and
/// only those held.
pub open spec fn accelerator_text(h: Hotkey) -> Seq<char> {
    (if h.modifiers.shift { "shift+"@ } else { Seq::empty() })
        + (if h.modifiers.ctrl { "control+"@ } else { Seq::empty() })
        + (if h.modifiers.alt { "alt+"@ } else { Seq::empty() })
        + (if h.modifiers.super_key { "super+"@ } else { Seq::empty() })
        + code_name(h.key)
}

impl Hotkey {
    /// This shortcut written as `shift+control+alt+super+KeyS`, the form that
    /// the global-hotkey crate reads.
    pub fn accelerator(&self) -> (r: String)
        ensures
            r@ == accelerator_text(*self),
    {
        let mut s = String::new();
        if self.modifiers.shift {
            s.append("shift+");
        }
        if self.modifiers.ctrl {
            s.append("control+");
        }
        if self.modifiers.alt {
            s.append("alt+");
        }
        if self.modifiers.super_key {
            s.append("super+");
        }
        s.append(self.key.name());
        assert(s@ =~= accelerator_text(*self));
        s
    }
}

} // verus!
