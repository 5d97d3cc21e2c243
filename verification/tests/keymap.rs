use evdev::KeyCode;
use flip_companion::keymap::{
    all_key_codes, keystroke_plan, map_char, map_key_name, text_keystrokes, KeystrokeStep,
};

fn key(k: KeyCode, shift: bool) -> Option<(u16, bool)> {
    Some((k.code(), shift))
}

#[test]
fn map_lowercase_letters() {
    assert_eq!(map_key_name("a"), key(KeyCode::KEY_A, false));
    assert_eq!(map_key_name("z"), key(KeyCode::KEY_Z, false));
}

#[test]
fn map_uppercase_letters_need_shift() {
    assert_eq!(map_key_name("A"), key(KeyCode::KEY_A, true));
    assert_eq!(map_key_name("Z"), key(KeyCode::KEY_Z, true));
}

#[test]
fn map_digits() {
    assert_eq!(map_key_name("0"), key(KeyCode::KEY_0, false));
    assert_eq!(map_key_name("9"), key(KeyCode::KEY_9, false));
}

#[test]
fn map_special_keys() {
    assert_eq!(map_key_name("Return"), key(KeyCode::KEY_ENTER, false));
    assert_eq!(map_key_name("BackSpace"), key(KeyCode::KEY_BACKSPACE, false));
    assert_eq!(map_key_name("space"), key(KeyCode::KEY_SPACE, false));
    assert_eq!(map_key_name("Tab"), key(KeyCode::KEY_TAB, false));
    assert_eq!(map_key_name("Ctrl"), key(KeyCode::KEY_LEFTCTRL, false));
    assert_eq!(map_key_name("Alt"), key(KeyCode::KEY_LEFTALT, false));
}

#[test]
fn map_unknown_returns_none() {
    assert_eq!(map_key_name("FooBar"), None);
}

#[test]
fn map_char_shifted_symbols() {
    assert_eq!(map_char('!'), key(KeyCode::KEY_1, true));
    assert_eq!(map_char('@'), key(KeyCode::KEY_2, true));
    assert_eq!(map_char('#'), key(KeyCode::KEY_3, true));
    assert_eq!(map_char('$'), key(KeyCode::KEY_4, true));
    assert_eq!(map_char('%'), key(KeyCode::KEY_5, true));
    assert_eq!(map_char('^'), key(KeyCode::KEY_6, true));
    assert_eq!(map_char('&'), key(KeyCode::KEY_7, true));
    assert_eq!(map_char('*'), key(KeyCode::KEY_8, true));
    assert_eq!(map_char('('), key(KeyCode::KEY_9, true));
    assert_eq!(map_char(')'), key(KeyCode::KEY_0, true));
    assert_eq!(map_char('?'), key(KeyCode::KEY_SLASH, true));
    assert_eq!(map_char('~'), key(KeyCode::KEY_GRAVE, true));
    assert_eq!(map_char('{'), key(KeyCode::KEY_LEFTBRACE, true));
    assert_eq!(map_char('}'), key(KeyCode::KEY_RIGHTBRACE, true));
    assert_eq!(map_char('|'), key(KeyCode::KEY_BACKSLASH, true));
    assert_eq!(map_char(':'), key(KeyCode::KEY_SEMICOLON, true));
    assert_eq!(map_char('"'), key(KeyCode::KEY_APOSTROPHE, true));
    assert_eq!(map_char('<'), key(KeyCode::KEY_COMMA, true));
    assert_eq!(map_char('>'), key(KeyCode::KEY_DOT, true));
    assert_eq!(map_char('_'), key(KeyCode::KEY_MINUS, true));
    assert_eq!(map_char('+'), key(KeyCode::KEY_EQUAL, true));
}

#[test]
fn map_char_unshifted_symbols() {
    assert_eq!(map_char('-'), key(KeyCode::KEY_MINUS, false));
    assert_eq!(map_char('='), key(KeyCode::KEY_EQUAL, false));
    assert_eq!(map_char('['), key(KeyCode::KEY_LEFTBRACE, false));
    assert_eq!(map_char(']'), key(KeyCode::KEY_RIGHTBRACE, false));
    assert_eq!(map_char('\\'), key(KeyCode::KEY_BACKSLASH, false));
    assert_eq!(map_char(';'), key(KeyCode::KEY_SEMICOLON, false));
    assert_eq!(map_char('\''), key(KeyCode::KEY_APOSTROPHE, false));
    assert_eq!(map_char('`'), key(KeyCode::KEY_GRAVE, false));
    assert_eq!(map_char(','), key(KeyCode::KEY_COMMA, false));
    assert_eq!(map_char('.'), key(KeyCode::KEY_DOT, false));
    assert_eq!(map_char('/'), key(KeyCode::KEY_SLASH, false));
}

#[test]
fn map_char_uppercase() {
    assert_eq!(map_char('A'), key(KeyCode::KEY_A, true));
    assert_eq!(map_char('Z'), key(KeyCode::KEY_Z, true));
}

#[test]
fn map_char_unknown_returns_none() {
    assert_eq!(map_char('€'), None);
}

#[test]
fn map_whitespace_and_remaining_names() {
    assert_eq!(map_char(' '), key(KeyCode::KEY_SPACE, false));
    assert_eq!(map_char('\n'), key(KeyCode::KEY_ENTER, false));
    assert_eq!(map_char('\t'), key(KeyCode::KEY_TAB, false));
    assert_eq!(map_key_name("Shift"), key(KeyCode::KEY_LEFTSHIFT, false));
    assert_eq!(map_key_name("Escape"), key(KeyCode::KEY_ESC, false));
    assert_eq!(map_key_name(""), None);
    assert_eq!(map_key_name("ab"), None);
    assert_eq!(map_key_name("€"), None);
    assert_eq!(map_key_name("?"), key(KeyCode::KEY_SLASH, true));
}

#[test]
fn key_constants_match_evdev() {
    for c in ('a'..='z').chain('0'..='9') {
        let (code, shift) = map_char(c).unwrap();
        assert!(!shift);
        let name = format!("KEY_{}", c.to_ascii_uppercase());
        assert_eq!(code, name.parse::<KeyCode>().unwrap().code(), "{name}");
    }
}

#[test]
fn uppercase_uses_lowercase_key_with_shift() {
    for c in 'A'..='Z' {
        let (lower, lower_shift) = map_char(c.to_ascii_lowercase()).unwrap();
        assert!(!lower_shift);
        assert_eq!(map_char(c), Some((lower, true)));
    }
}

fn has(keys: &flip_companion::keymap::KeySet, code: KeyCode) -> bool {
    keys.with_attribute_set(|s| s.contains(code))
}

#[test]
fn every_mapped_key_is_registered() {
    let keys = all_key_codes();
    for b in 0u8..128 {
        let c = b as char;
        if let Some((code, _)) = map_char(c) {
            assert!(has(&keys, KeyCode::new(code)), "{c:?}");
        }
    }
    for name in ["Return", "BackSpace", "space", "Tab", "Ctrl", "Alt", "Shift", "Escape"] {
        let (code, _) = map_key_name(name).unwrap();
        assert!(has(&keys, KeyCode::new(code)), "{name}");
    }
    assert!(has(&keys, KeyCode::KEY_RIGHTSHIFT));
    assert!(has(&keys, KeyCode::KEY_CAPSLOCK));
    assert!(!has(&keys, KeyCode::KEY_F1));
    assert_eq!(keys.with_attribute_set(|s| s.iter().count()), 59);
}

#[test]
fn keystroke_plan_without_shift() {
    assert_eq!(
        keystroke_plan(30, false),
        vec![
            KeystrokeStep::Emit { code: 30, value: 1 },
            KeystrokeStep::Pause,
            KeystrokeStep::Emit { code: 30, value: 0 },
        ]
    );
}

#[test]
fn keystroke_plan_with_shift() {
    let shift = KeyCode::KEY_LEFTSHIFT.code();
    assert_eq!(
        keystroke_plan(2, true),
        vec![
            KeystrokeStep::Emit { code: shift, value: 1 },
            KeystrokeStep::Pause,
            KeystrokeStep::Emit { code: 2, value: 1 },
            KeystrokeStep::Pause,
            KeystrokeStep::Emit { code: 2, value: 0 },
            KeystrokeStep::Pause,
            KeystrokeStep::Emit { code: shift, value: 0 },
        ]
    );
}

#[test]
fn text_keystrokes_maps_every_char() {
    let (keys, bad) = text_keystrokes("Hi!");
    assert_eq!(bad, None);
    assert_eq!(
        keys,
        vec![
            (KeyCode::KEY_H.code(), true),
            (KeyCode::KEY_I.code(), false),
            (KeyCode::KEY_1.code(), true),
        ]
    );
}

#[test]
fn text_keystrokes_stops_at_unmappable() {
    let (keys, bad) = text_keystrokes("ab€cd");
    assert_eq!(bad, Some('€'));
    assert_eq!(keys, vec![(KeyCode::KEY_A.code(), false), (KeyCode::KEY_B.code(), false)]);
    let (keys, bad) = text_keystrokes("");
    assert!(keys.is_empty());
    assert_eq!(bad, None);
}
