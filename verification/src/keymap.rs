//! Mapping from characters and on-screen key names to Linux key codes on a
//! US layout, the set of keys the virtual keyboard registers, and the order in
//! which one keystroke is emitted.
use crate::text::str_equals;
use vstd::prelude::*;

verus! {

// Linux input key codes (input-event-codes.h).
pub const KEY_ESC: u16 = 1;
pub const KEY_1: u16 = 2;
pub const KEY_2: u16 = 3;
pub const KEY_3: u16 = 4;
pub const KEY_4: u16 = 5;
pub const KEY_5: u16 = 6;
pub const KEY_6: u16 = 7;
pub const KEY_7: u16 = 8;
pub const KEY_8: u16 = 9;
pub const KEY_9: u16 = 10;
pub const KEY_0: u16 = 11;
pub const KEY_MINUS: u16 = 12;
pub const KEY_EQUAL: u16 = 13;
pub const KEY_BACKSPACE: u16 = 14;
pub const KEY_TAB: u16 = 15;
pub const KEY_Q: u16 = 16;
pub const KEY_W: u16 = 17;
pub const KEY_E: u16 = 18;
pub const KEY_R: u16 = 19;
pub const KEY_T: u16 = 20;
pub const KEY_Y: u16 = 21;
pub const KEY_U: u16 = 22;
pub const KEY_I: u16 = 23;
pub const KEY_O: u16 = 24;
pub const KEY_P: u16 = 25;
pub const KEY_LEFTBRACE: u16 = 26;
pub const KEY_RIGHTBRACE: u16 = 27;
pub const KEY_ENTER: u16 = 28;
pub const KEY_LEFTCTRL: u16 = 29;
pub const KEY_A: u16 = 30;
pub const KEY_S: u16 = 31;
pub const KEY_D: u16 = 32;
pub const KEY_F: u16 = 33;
pub const KEY_G: u16 = 34;
pub const KEY_H: u16 = 35;
pub const KEY_J: u16 = 36;
pub const KEY_K: u16 = 37;
pub const KEY_L: u16 = 38;
pub const KEY_SEMICOLON: u16 = 39;
pub const KEY_APOSTROPHE: u16 = 40;
pub const KEY_GRAVE: u16 = 41;
pub const KEY_LEFTSHIFT: u16 = 42;
pub const KEY_BACKSLASH: u16 = 43;
pub const KEY_Z: u16 = 44;
pub const KEY_X: u16 = 45;
pub const KEY_C: u16 = 46;
pub const KEY_V: u16 = 47;
pub const KEY_B: u16 = 48;
pub const KEY_N: u16 = 49;
pub const KEY_M: u16 = 50;
pub const KEY_COMMA: u16 = 51;
pub const KEY_DOT: u16 = 52;
pub const KEY_SLASH: u16 = 53;
pub const KEY_RIGHTSHIFT: u16 = 54;
pub const KEY_LEFTALT: u16 = 56;
pub const KEY_SPACE: u16 = 57;
pub const KEY_CAPSLOCK: u16 = 58;
pub const KEY_RIGHTCTRL: u16 = 97;
pub const KEY_RIGHTALT: u16 = 100;

/// The key that types `c` without shift on a US layout, if there is one.
pub open spec fn unshifted_key(c: char) -> Option<u16> {
    if c == 'a' { Some(KEY_A) }
    else if c == 'b' { Some(KEY_B) }
    else if c == 'c' { Some(KEY_C) }
    else if c == 'd' { Some(KEY_D) }
    else if c == 'e' { Some(KEY_E) }
    else if c == 'f' { Some(KEY_F) }
    else if c == 'g' { Some(KEY_G) }
    else if c == 'h' { Some(KEY_H) }
    else if c == 'i' { Some(KEY_I) }
    else if c == 'j' { Some(KEY_J) }
    else if c == 'k' { Some(KEY_K) }
    else if c == 'l' { Some(KEY_L) }
    else if c == 'm' { Some(KEY_M) }
    else if c == 'n' { Some(KEY_N) }
    else if c == 'o' { Some(KEY_O) }
    else if c == 'p' { Some(KEY_P) }
    else if c == 'q' { Some(KEY_Q) }
    else if c == 'r' { Some(KEY_R) }
    else if c == 's' { Some(KEY_S) }
    else if c == 't' { Some(KEY_T) }
    else if c == 'u' { Some(KEY_U) }
    else if c == 'v' { Some(KEY_V) }
    else if c == 'w' { Some(KEY_W) }
    else if c == 'x' { Some(KEY_X) }
    else if c == 'y' { Some(KEY_Y) }
    else if c == 'z' { Some(KEY_Z) }
    else if c == '0' { Some(KEY_0) }
    else if c == '1' { Some(KEY_1) }
    else if c == '2' { Some(KEY_2) }
    else if c == '3' { Some(KEY_3) }
    else if c == '4' { Some(KEY_4) }
    else if c == '5' { Some(KEY_5) }
    else if c == '6' { Some(KEY_6) }
    else if c == '7' { Some(KEY_7) }
    else if c == '8' { Some(KEY_8) }
    else if c == '9' { Some(KEY_9) }
    else if c == ' ' { Some(KEY_SPACE) }
    else if c == '\n' { Some(KEY_ENTER) }
    else if c == '\t' { Some(KEY_TAB) }
    else if c == '-' { Some(KEY_MINUS) }
    else if c == '=' { Some(KEY_EQUAL) }
    else if c == '[' { Some(KEY_LEFTBRACE) }
    else if c == ']' { Some(KEY_RIGHTBRACE) }
    else if c == '\\' { Some(KEY_BACKSLASH) }
    else if c == ';' { Some(KEY_SEMICOLON) }
    else if c == '\'' { Some(KEY_APOSTROPHE) }
    else if c == '`' { Some(KEY_GRAVE) }
    else if c == ',' { Some(KEY_COMMA) }
    else if c == '.' { Some(KEY_DOT) }
    else if c == '/' { Some(KEY_SLASH) }
    else { None }
}

/// The unshifted character on the same US-layout key as the shifted
/// character `c`: an uppercase letter's lowercase letter, or the digit or
/// symbol under a shifted symbol.
pub open spec fn shift_base(c: char) -> Option<char> {
    if 'A' <= c <= 'Z' { Some(((c as u32) + 32) as char) }
    else if c == '!' { Some('1') }
    else if c == '@' { Some('2') }
    else if c == '#' { Some('3') }
    else if c == '$' { Some('4') }
    else if c == '%' { Some('5') }
    else if c == '^' { Some('6') }
    else if c == '&' { Some('7') }
    else if c == '*' { Some('8') }
    else if c == '(' { Some('9') }
    else if c == ')' { Some('0') }
    else if c == '_' { Some('-') }
    else if c == '+' { Some('=') }
    else if c == '{' { Some('[') }
    else if c == '}' { Some(']') }
    else if c == '|' { Some('\\') }
    else if c == ':' { Some(';') }
    else if c == '"' { Some('\'') }
    else if c == '~' { Some('`') }
    else if c == '<' { Some(',') }
    else if c == '>' { Some('.') }
    else if c == '?' { Some('/') }
    else { None }
}

/// The key and shift state that type `c` on a US layout.
pub open spec fn char_key(c: char) -> Option<(u16, bool)> {
    match unshifted_key(c) {
        Some(k) => Some((k, false)),
        None => match shift_base(c) {
            Some(b) => match unshifted_key(b) {
                Some(k) => Some((k, true)),
                None => None,
            },
            None => None,
        },
    }
}

/// The key pressed for a key name of the on-screen keyboard: one of the named
/// special keys, or a single character typed as by `char_key`.
pub open spec fn key_name_key(name: Seq<char>) -> Option<(u16, bool)> {
    if name == "Return"@ { Some((KEY_ENTER, false)) }
    else if name == "BackSpace"@ { Some((KEY_BACKSPACE, false)) }
    else if name == "space"@ { Some((KEY_SPACE, false)) }
    else if name == "Tab"@ { Some((KEY_TAB, false)) }
    else if name == "Ctrl"@ { Some((KEY_LEFTCTRL, false)) }
    else if name == "Alt"@ { Some((KEY_LEFTALT, false)) }
    else if name == "Shift"@ { Some((KEY_LEFTSHIFT, false)) }
    else if name == "Escape"@ { Some((KEY_ESC, false)) }
    else if name.len() == 1 { char_key(name[0]) }
    else { None }
}

/// ASCII lower case of `c`, as `char::to_ascii_lowercase` documents it.
pub open spec fn ascii_lower(c: char) -> char {
    if 'A' <= c <= 'Z' { ((c as u32) + 32) as char } else { c }
}

/// ASCII lower case: maps 'A'..='Z' to 'a'..='z' and leaves every other
/// character unchanged.
fn to_ascii_lowercase(c: char) -> (r: char)
    ensures
        r == ascii_lower(c),
{
    if 'A' <= c && c <= 'Z' {
        let b: u8 = c as u8;
        (b + 32) as char
    } else {
        c
    }
}

/// Map a character to (key code, needs_shift).
pub fn map_char(ch: char) -> (r: Option<(u16, bool)>)
    ensures
        r == char_key(ch),
    decreases (if 'A' <= ch <= 'Z' { 1int } else { 0int }),
{
    match ch {
        // Lowercase letters
        'a' => Some((KEY_A, false)),
        'b' => Some((KEY_B, false)),
        'c' => Some((KEY_C, false)),
        'd' => Some((KEY_D, false)),
        'e' => Some((KEY_E, false)),
        'f' => Some((KEY_F, false)),
        'g' => Some((KEY_G, false)),
        'h' => Some((KEY_H, false)),
        'i' => Some((KEY_I, false)),
        'j' => Some((KEY_J, false)),
        'k' => Some((KEY_K, false)),
        'l' => Some((KEY_L, false)),
        'm' => Some((KEY_M, false)),
        'n' => Some((KEY_N, false)),
        'o' => Some((KEY_O, false)),
        'p' => Some((KEY_P, false)),
        'q' => Some((KEY_Q, false)),
        'r' => Some((KEY_R, false)),
        's' => Some((KEY_S, false)),
        't' => Some((KEY_T, false)),
        'u' => Some((KEY_U, false)),
        'v' => Some((KEY_V, false)),
        'w' => Some((KEY_W, false)),
        'x' => Some((KEY_X, false)),
        'y' => Some((KEY_Y, false)),
        'z' => Some((KEY_Z, false)),
        // Uppercase letters → shifted
        'A'..='Z' => {
            match map_char(to_ascii_lowercase(ch)) {
                Some((k, _)) => Some((k, true)),
                None => None,
            }
        },
        // Digits
        '0' => Some((KEY_0, false)),
        '1' => Some((KEY_1, false)),
        '2' => Some((KEY_2, false)),
        '3' => Some((KEY_3, false)),
        '4' => Some((KEY_4, false)),
        '5' => Some((KEY_5, false)),
        '6' => Some((KEY_6, false)),
        '7' => Some((KEY_7, false)),
        '8' => Some((KEY_8, false)),
        '9' => Some((KEY_9, false)),
        // Whitespace
        ' ' => Some((KEY_SPACE, false)),
        '\n' => Some((KEY_ENTER, false)),
        '\t' => Some((KEY_TAB, false)),
        // Unshifted symbols
        '-' => Some((KEY_MINUS, false)),
        '=' => Some((KEY_EQUAL, false)),
        '[' => Some((KEY_LEFTBRACE, false)),
        ']' => Some((KEY_RIGHTBRACE, false)),
        '\\' => Some((KEY_BACKSLASH, false)),
        ';' => Some((KEY_SEMICOLON, false)),
        '\'' => Some((KEY_APOSTROPHE, false)),
        '`' => Some((KEY_GRAVE, false)),
        ',' => Some((KEY_COMMA, false)),
        '.' => Some((KEY_DOT, false)),
        '/' => Some((KEY_SLASH, false)),
        // Shifted symbols
        '!' => Some((KEY_1, true)),
        '@' => Some((KEY_2, true)),
        '#' => Some((KEY_3, true)),
        '$' => Some((KEY_4, true)),
        '%' => Some((KEY_5, true)),
        '^' => Some((KEY_6, true)),
        '&' => Some((KEY_7, true)),
        '*' => Some((KEY_8, true)),
        '(' => Some((KEY_9, true)),
        ')' => Some((KEY_0, true)),
        '_' => Some((KEY_MINUS, true)),
        '+' => Some((KEY_EQUAL, true)),
        '{' => Some((KEY_LEFTBRACE, true)),
        '}' => Some((KEY_RIGHTBRACE, true)),
        '|' => Some((KEY_BACKSLASH, true)),
        ':' => Some((KEY_SEMICOLON, true)),
        '"' => Some((KEY_APOSTROPHE, true)),
        '~' => Some((KEY_GRAVE, true)),
        '<' => Some((KEY_COMMA, true)),
        '>' => Some((KEY_DOT, true)),
        '?' => Some((KEY_SLASH, true)),
        _ => None,
    }
}

} // verus!

verus! {

/// Map a key name (from the keyboard UI) to (key code, needs_shift).
pub fn map_key_name(key: &str) -> (r: Option<(u16, bool)>)
    ensures
        r == key_name_key(key@),
{
    if str_equals(key, "Return") {
        Some((KEY_ENTER, false))
    } else if str_equals(key, "BackSpace") {
        Some((KEY_BACKSPACE, false))
    } else if str_equals(key, "space") {
        Some((KEY_SPACE, false))
    } else if str_equals(key, "Tab") {
        Some((KEY_TAB, false))
    } else if str_equals(key, "Ctrl") {
        Some((KEY_LEFTCTRL, false))
    } else if str_equals(key, "Alt") {
        Some((KEY_LEFTALT, false))
    } else if str_equals(key, "Shift") {
        Some((KEY_LEFTSHIFT, false))
    } else if str_equals(key, "Escape") {
        Some((KEY_ESC, false))
    } else if key.unicode_len() == 1 {
        // Single character — delegate to map_char
        map_char(key.get_char(0))
    } else {
        None
    }
}

/// The keys the virtual keyboard registers.
pub open spec fn registered_keys() -> Set<u16> {
    set![
        KEY_A, KEY_B, KEY_C, KEY_D, KEY_E, KEY_F, KEY_G, KEY_H, KEY_I, KEY_J, KEY_K, KEY_L, KEY_M,
        KEY_N, KEY_O, KEY_P, KEY_Q, KEY_R, KEY_S, KEY_T, KEY_U, KEY_V, KEY_W, KEY_X, KEY_Y, KEY_Z,
        KEY_0, KEY_1, KEY_2, KEY_3, KEY_4, KEY_5, KEY_6, KEY_7, KEY_8, KEY_9,
        KEY_ENTER, KEY_BACKSPACE, KEY_SPACE, KEY_TAB, KEY_ESC, KEY_CAPSLOCK,
        KEY_LEFTSHIFT, KEY_RIGHTSHIFT, KEY_LEFTCTRL, KEY_RIGHTCTRL, KEY_LEFTALT, KEY_RIGHTALT,
        KEY_MINUS, KEY_EQUAL, KEY_LEFTBRACE, KEY_RIGHTBRACE, KEY_SEMICOLON, KEY_APOSTROPHE,
        KEY_GRAVE, KEY_BACKSLASH, KEY_COMMA, KEY_DOT, KEY_SLASH
    ]
}

/// Number of key codes an evdev key set has room for (`KEY_MAX + 1`).
pub const KEY_CNT: u16 = 0x300;

/// A set of key codes held in evdev's `AttributeSet<KeyCode>`, the set a
/// virtual keyboard is built with.
/// The set itself is only lent out, read-only, to build a virtual device.
#[verifier::external_body]
pub struct KeySet {
    set: evdev::AttributeSet<evdev::KeyCode>,
}

/// The key codes a `KeySet` holds.
pub uninterp spec fn key_set_codes(s: KeySet) -> Set<u16>;

impl KeySet {
    /// `AttributeSet::new`: an empty set.
    #[verifier::external_body]
    pub fn new() -> (s: KeySet)
        ensures
            key_set_codes(s) == Set::<u16>::empty(),
    {
        KeySet { set: evdev::AttributeSet::new() }
    }

    /// Hand the evdev set to `f` (to build a virtual device with it).
    #[verifier::external_body]
    pub fn with_attribute_set<R, F: FnOnce(&evdev::AttributeSet<evdev::KeyCode>) -> R>(&self, f: F) -> R {
        f(&self.set)
    }

    /// `AttributeSet::insert` with `KeyCode::new(code)`: sets the bit of
    /// `code`, leaving the others. evdev indexes a bit slice of `KEY_CNT`
    /// bits by the code, which panics on a code past the end.
    #[verifier::external_body]
    pub fn insert(&mut self, code: u16)
        requires
            code < KEY_CNT,
        ensures
            key_set_codes(*final(self)) == key_set_codes(*old(self)).insert(code),
    {
        self.set.insert(evdev::KeyCode::new(code))
    }
}

} // verus!

verus! {

/// Build the shared key set used by both async and sync injectors.
pub fn all_key_codes() -> (keys: KeySet)
    ensures
        key_set_codes(keys) == registered_keys(),
{
    let mut keys = KeySet::new();
    let codes: [u16; 59] = [
        // Letters
        KEY_A, KEY_B, KEY_C, KEY_D, KEY_E, KEY_F, KEY_G, KEY_H,
        KEY_I, KEY_J, KEY_K, KEY_L, KEY_M, KEY_N, KEY_O, KEY_P,
        KEY_Q, KEY_R, KEY_S, KEY_T, KEY_U, KEY_V, KEY_W, KEY_X,
        KEY_Y, KEY_Z,
        // Digits
        KEY_0, KEY_1, KEY_2, KEY_3, KEY_4, KEY_5, KEY_6, KEY_7,
        KEY_8, KEY_9,
        // Special keys
        KEY_ENTER, KEY_BACKSPACE, KEY_SPACE, KEY_TAB, KEY_ESC, KEY_CAPSLOCK,
        // Modifiers
        KEY_LEFTSHIFT, KEY_RIGHTSHIFT, KEY_LEFTCTRL, KEY_RIGHTCTRL, KEY_LEFTALT, KEY_RIGHTALT,
        // Punctuation / symbols
        KEY_MINUS, KEY_EQUAL, KEY_LEFTBRACE, KEY_RIGHTBRACE, KEY_SEMICOLON, KEY_APOSTROPHE,
        KEY_GRAVE, KEY_BACKSLASH, KEY_COMMA, KEY_DOT, KEY_SLASH,
    ];
    let ghost listed = codes@;
    assert(listed.to_set() =~= registered_keys()) by {
        assert forall|k: u16| registered_keys().contains(k) implies listed.contains(k) by {
            if k == KEY_A { assert(listed[0] == k); }
            else if k == KEY_B { assert(listed[1] == k); }
            else if k == KEY_C { assert(listed[2] == k); }
            else if k == KEY_D { assert(listed[3] == k); }
            else if k == KEY_E { assert(listed[4] == k); }
            else if k == KEY_F { assert(listed[5] == k); }
            else if k == KEY_G { assert(listed[6] == k); }
            else if k == KEY_H { assert(listed[7] == k); }
            else if k == KEY_I { assert(listed[8] == k); }
            else if k == KEY_J { assert(listed[9] == k); }
            else if k == KEY_K { assert(listed[10] == k); }
            else if k == KEY_L { assert(listed[11] == k); }
            else if k == KEY_M { assert(listed[12] == k); }
            else if k == KEY_N { assert(listed[13] == k); }
            else if k == KEY_O { assert(listed[14] == k); }
            else if k == KEY_P { assert(listed[15] == k); }
            else if k == KEY_Q { assert(listed[16] == k); }
            else if k == KEY_R { assert(listed[17] == k); }
            else if k == KEY_S { assert(listed[18] == k); }
            else if k == KEY_T { assert(listed[19] == k); }
            else if k == KEY_U { assert(listed[20] == k); }
            else if k == KEY_V { assert(listed[21] == k); }
            else if k == KEY_W { assert(listed[22] == k); }
            else if k == KEY_X { assert(listed[23] == k); }
            else if k == KEY_Y { assert(listed[24] == k); }
            else if k == KEY_Z { assert(listed[25] == k); }
            else if k == KEY_0 { assert(listed[26] == k); }
            else if k == KEY_1 { assert(listed[27] == k); }
            else if k == KEY_2 { assert(listed[28] == k); }
            else if k == KEY_3 { assert(listed[29] == k); }
            else if k == KEY_4 { assert(listed[30] == k); }
            else if k == KEY_5 { assert(listed[31] == k); }
            else if k == KEY_6 { assert(listed[32] == k); }
            else if k == KEY_7 { assert(listed[33] == k); }
            else if k == KEY_8 { assert(listed[34] == k); }
            else if k == KEY_9 { assert(listed[35] == k); }
            else if k == KEY_ENTER { assert(listed[36] == k); }
            else if k == KEY_BACKSPACE { assert(listed[37] == k); }
            else if k == KEY_SPACE { assert(listed[38] == k); }
            else if k == KEY_TAB { assert(listed[39] == k); }
            else if k == KEY_ESC { assert(listed[40] == k); }
            else if k == KEY_CAPSLOCK { assert(listed[41] == k); }
            else if k == KEY_LEFTSHIFT { assert(listed[42] == k); }
            else if k == KEY_RIGHTSHIFT { assert(listed[43] == k); }
            else if k == KEY_LEFTCTRL { assert(listed[44] == k); }
            else if k == KEY_RIGHTCTRL { assert(listed[45] == k); }
            else if k == KEY_LEFTALT { assert(listed[46] == k); }
            else if k == KEY_RIGHTALT { assert(listed[47] == k); }
            else if k == KEY_MINUS { assert(listed[48] == k); }
            else if k == KEY_EQUAL { assert(listed[49] == k); }
            else if k == KEY_LEFTBRACE { assert(listed[50] == k); }
            else if k == KEY_RIGHTBRACE { assert(listed[51] == k); }
            else if k == KEY_SEMICOLON { assert(listed[52] == k); }
            else if k == KEY_APOSTROPHE { assert(listed[53] == k); }
            else if k == KEY_GRAVE { assert(listed[54] == k); }
            else if k == KEY_BACKSLASH { assert(listed[55] == k); }
            else if k == KEY_COMMA { assert(listed[56] == k); }
            else if k == KEY_DOT { assert(listed[57] == k); }
            else { assert(listed[58] == k); }
        }
    }
    let mut i: usize = 0;
    while i < 59
        invariant
            i <= 59,
            listed == codes@,
            forall|j: int| 0 <= j < 59 ==> #[trigger] listed[j] < KEY_CNT,
            key_set_codes(keys) == listed.subrange(0, i as int).to_set(),
        decreases 59 - i,
    {
        keys.insert(codes[i]);
        proof {
            assert(listed.subrange(0, i + 1) =~= listed.subrange(0, i as int).push(listed[i as int]));
            listed.subrange(0, i as int).lemma_push_to_set_commute(listed[i as int]);
        }
        i = i + 1;
    }
    assert(listed.subrange(0, 59) =~= listed);
    keys
}

} // verus!

verus! {

/// An uppercase letter is typed with the key of its lowercase letter, with
/// shift held; the lowercase letter itself needs no shift.
pub proof fn lemma_uppercase_is_shifted_lowercase(c: char)
    requires
        'A' <= c <= 'Z',
    ensures
        char_key(ascii_lower(c)) matches Some((k, false)) && char_key(c) == Some((k, true)),
{
}

/// Every key that a character or a key name maps to is one of the keys the
/// virtual keyboard registers, so no mapped keystroke is dropped by the device.
pub proof fn lemma_mapped_keys_are_registered(c: char, name: Seq<char>)
    ensures
        char_key(c) matches Some((k, _)) ==> registered_keys().contains(k),
        key_name_key(name) matches Some((k, _)) ==> registered_keys().contains(k),
{
    if name.len() == 1 {
        let d = name[0];
        assert(char_key(d) matches Some((k, _)) ==> registered_keys().contains(k));
    }
}

/// One step of emitting a keystroke on the virtual keyboard.
#[derive(Debug, Clone, Copy, PartialEq, Eq)]
pub enum KeystrokeStep {
    /// Emit a key event (`value` 1 = press, 0 = release) followed by a
    /// synchronization report.
    Emit { code: u16, value: i32 },
    /// Wait the inter-key delay.
    Pause,
}

/// The steps of one keystroke: press and release of `code`, wrapped in a
/// press and release of left shift when `shift` is set, with a pause between
/// consecutive emits.
pub open spec fn keystroke_steps(code: u16, shift: bool) -> Seq<KeystrokeStep> {
    let press = seq![
        KeystrokeStep::Emit { code, value: 1 },
        KeystrokeStep::Pause,
        KeystrokeStep::Emit { code, value: 0 },
    ];
    if shift {
        seq![KeystrokeStep::Emit { code: KEY_LEFTSHIFT, value: 1 }, KeystrokeStep::Pause]
            + press
            + seq![KeystrokeStep::Pause, KeystrokeStep::Emit { code: KEY_LEFTSHIFT, value: 0 }]
    } else {
        press
    }
}

/// The order in which a single keystroke (with optional shift wrapping) is
/// emitted on the device.
pub fn keystroke_plan(code: u16, shift: bool) -> (steps: Vec<KeystrokeStep>)
    ensures
        steps@ == keystroke_steps(code, shift),
{
    let mut steps: Vec<KeystrokeStep> = Vec::new();
    if shift {
        steps.push(KeystrokeStep::Emit { code: KEY_LEFTSHIFT, value: 1 });
        steps.push(KeystrokeStep::Pause);
    }
    steps.push(KeystrokeStep::Emit { code, value: 1 });
    steps.push(KeystrokeStep::Pause);
    steps.push(KeystrokeStep::Emit { code, value: 0 });
    if shift {
        steps.push(KeystrokeStep::Pause);
        steps.push(KeystrokeStep::Emit { code: KEY_LEFTSHIFT, value: 0 });
    }
    assert(steps@ =~= keystroke_steps(code, shift));
    steps
}

/// The keystrokes that type `text`: one per character, as far as the
/// characters can be mapped, and the first character that cannot, if any.
/// Typing stops at that character.
pub fn text_keystrokes(text: &str) -> (r: (Vec<(u16, bool)>, Option<char>))
    ensures
        r.0@.len() <= text@.len(),
        forall|i: int| 0 <= i < r.0@.len() ==> char_key(#[trigger] text@[i]) == Some(r.0@[i]),
        match r.1 {
            None => r.0@.len() == text@.len(),
            Some(c) => r.0@.len() < text@.len() && text@[r.0@.len() as int] == c
                && char_key(c) is None,
        },
{
    let n = text.unicode_len();
    let mut keys: Vec<(u16, bool)> = Vec::new();
    let mut i: usize = 0;
    while i < n
        invariant
            n == text@.len(),
            i <= n,
            keys@.len() == i,
            forall|j: int| 0 <= j < i ==> char_key(#[trigger] text@[j]) == Some(keys@[j]),
        decreases n - i,
    {
        let ch = text.get_char(i);
        match map_char(ch) {
            Some(k) => keys.push(k),
            None => return (keys, Some(ch)),
        }
        i = i + 1;
    }
    (keys, None)
}

} // verus!

verus! {

/// Whether key `k` is left pressed after emitting `steps`: its last emitted
/// event, if any, is not a release.
pub open spec fn held_after(steps: Seq<KeystrokeStep>, k: u16) -> bool
    decreases steps.len(),
{
    if steps.len() == 0 {
        false
    } else {
        match steps.last() {
            KeystrokeStep::Emit { code, value } => if code == k {
                value != 0
            } else {
                held_after(steps.drop_last(), k)
            },
            KeystrokeStep::Pause => held_after(steps.drop_last(), k),
        }
    }
}

/// A keystroke presses its key (value 1), pauses, and releases the same key
/// (value 0); with shift, left shift (code 42) is pressed first and released
/// last. Emits and pauses alternate, and no key is left pressed afterwards.
pub proof fn lemma_keystroke_presses_and_releases(code: u16, shift: bool)
    ensures
        ({
            let s = keystroke_steps(code, shift);
            let p = if shift { 2int } else { 0int };
            &&& s[p] == KeystrokeStep::Emit { code, value: 1 }
            &&& s[p + 1] == KeystrokeStep::Pause
            &&& s[p + 2] == KeystrokeStep::Emit { code, value: 0 }
            &&& shift ==> s.len() == 7 && s[0] == (KeystrokeStep::Emit { code: 42, value: 1 })
                && s[1] == KeystrokeStep::Pause && s[5] == KeystrokeStep::Pause
                && s[6] == (KeystrokeStep::Emit { code: 42, value: 0 })
            &&& !shift ==> s.len() == 3
            &&& forall|k: u16| !held_after(s, k)
        }),
{
    let s = keystroke_steps(code, shift);
    reveal_with_fuel(held_after, 8);
    if shift {
        assert(s =~= seq![
            KeystrokeStep::Emit { code: 42, value: 1 },
            KeystrokeStep::Pause,
            KeystrokeStep::Emit { code, value: 1 },
            KeystrokeStep::Pause,
            KeystrokeStep::Emit { code, value: 0 },
            KeystrokeStep::Pause,
            KeystrokeStep::Emit { code: 42, value: 0 },
        ]);
    } else {
        assert(s =~= seq![
            KeystrokeStep::Emit { code, value: 1 },
            KeystrokeStep::Pause,
            KeystrokeStep::Emit { code, value: 0 },
        ]);
    }
    assert forall|k: u16| !held_after(s, k) by {
        if shift {
            assert(s.drop_last().drop_last() =~= s.subrange(0, 5));
            assert(s.subrange(0, 5).drop_last().drop_last() =~= s.subrange(0, 3));
            assert(s.subrange(0, 3).drop_last() =~= s.subrange(0, 2));
            assert(s.subrange(0, 2).drop_last() =~= s.subrange(0, 1));
            assert(s.subrange(0, 1).drop_last() =~= Seq::<KeystrokeStep>::empty());
        } else {
            assert(s.drop_last() =~= s.subrange(0, 2));
            assert(s.subrange(0, 2).drop_last() =~= s.subrange(0, 1));
            assert(s.subrange(0, 1).drop_last() =~= Seq::<KeystrokeStep>::empty());
        }
    }
}

} // verus!
