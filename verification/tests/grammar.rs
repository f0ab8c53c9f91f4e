//! The hotkey grammar and matching engine, exercised on concrete inputs.

use cleave::hotkey::{parse_hotkey, HotKey, HotKeyParseError, Modifiers};
use cleave::keys::KeyCode;

fn mods(shift: bool, control: bool, alt: bool, superkey: bool) -> Modifiers {
    Modifiers { shift, control, alt, superkey, meta: false }
}

#[test]
fn parses_modifiers_and_key() {
    let h = parse_hotkey("Ctrl+Shift+K", false).unwrap();
    assert_eq!(h.mods, mods(true, true, false, false));
    assert_eq!(h.key, KeyCode::KeyK);
}

#[test]
fn single_token_is_a_main_key() {
    let h = parse_hotkey("a", false).unwrap();
    assert_eq!(h.mods, mods(false, false, false, false));
    assert_eq!(h.key, KeyCode::KeyA);
}

#[test]
fn case_insensitive_and_trimmed() {
    assert_eq!(
        parse_hotkey("SHIFT+a", false).unwrap(),
        parse_hotkey("shift+A", false).unwrap()
    );
    assert_eq!(
        parse_hotkey(" Ctrl + K ", false).unwrap(),
        parse_hotkey("ctrl+k", false).unwrap()
    );
}

#[test]
fn single_token_is_not_trimmed() {
    match parse_hotkey(" a ", false) {
        Err(HotKeyParseError::UnsupportedKey(t)) => assert_eq!(t, " a "),
        other => panic!("expected UnsupportedKey, got {:?}", other),
    }
}

#[test]
fn round_trip_formats_and_parses_back() {
    for text in ["Ctrl+Shift+K", "Alt+F4", "Super+Space", "comma", "Shift+Ctrl+Alt+Super+Numpad7"] {
        let h = parse_hotkey(text, false).unwrap();
        let s = h.into_string();
        assert_eq!(parse_hotkey(&s, false).unwrap(), h, "round trip of {:?} via {:?}", text, s);
    }
}

#[test]
fn format_orders_modifiers_and_lowercases() {
    let h = parse_hotkey("Super+Alt+Ctrl+Shift+PageDown", false).unwrap();
    assert_eq!(h.into_string(), "shift+control+alt+super+pagedown");
}

#[test]
fn grammar_ordering_rejected() {
    match parse_hotkey("Ctrl+C+Shift", false) {
        Err(HotKeyParseError::InvalidFormat(t)) => assert_eq!(t, "Ctrl+C+Shift"),
        other => panic!("expected InvalidFormat, got {:?}", other),
    }
    match parse_hotkey("Ctrl+Shift+C+A", false) {
        Err(HotKeyParseError::InvalidFormat(t)) => assert_eq!(t, "Ctrl+Shift+C+A"),
        other => panic!("expected InvalidFormat, got {:?}", other),
    }
}

#[test]
fn no_main_key_rejected() {
    match parse_hotkey("Ctrl+Shift", false) {
        Err(HotKeyParseError::InvalidFormat(t)) => assert_eq!(t, "Ctrl+Shift"),
        other => panic!("expected InvalidFormat, got {:?}", other),
    }
}

#[test]
fn empty_token_rejected() {
    match parse_hotkey("Ctrl++C", false) {
        Err(HotKeyParseError::EmptyToken(t)) => assert_eq!(t, "Ctrl++C"),
        other => panic!("expected EmptyToken, got {:?}", other),
    }
}

#[test]
fn unsupported_key_rejected() {
    match parse_hotkey("Ctrl+Foo", false) {
        Err(HotKeyParseError::UnsupportedKey(t)) => assert_eq!(t, "Foo"),
        other => panic!("expected UnsupportedKey, got {:?}", other),
    }
}

#[test]
fn cmd_or_ctrl_alias_follows_platform() {
    assert_eq!(
        parse_hotkey("CmdOrCtrl+K", false),
        parse_hotkey("Control+K", false)
    );
    assert_eq!(
        parse_hotkey("CmdOrCtrl+K", true),
        parse_hotkey("Super+K", true)
    );
}

#[test]
fn meta_normalizes_to_super() {
    assert_eq!(
        parse_hotkey("Meta+K", false),
        parse_hotkey("Super+K", false)
    );
}

#[test]
fn matches_masks_to_the_base_four() {
    let h = HotKey::new(Some(mods(true, false, false, false)), KeyCode::KeyK);
    let held = Modifiers { shift: true, control: false, alt: false, superkey: false, meta: true };
    assert!(h.matches(held, KeyCode::KeyK));
    assert!(h.matches(mods(true, false, false, false), KeyCode::KeyK));
    assert!(!h.matches(mods(true, true, false, false), KeyCode::KeyK));
    assert!(!h.matches(mods(true, false, false, false), KeyCode::KeyJ));
}

#[test]
fn check_folds_held_keys() {
    let h = parse_hotkey("Ctrl+Shift+K", false).unwrap();
    assert!(h.check(&vec![KeyCode::ControlLeft, KeyCode::ShiftLeft, KeyCode::KeyK]));
    assert!(h.check(&vec![KeyCode::ShiftRight, KeyCode::ControlRight, KeyCode::KeyK]));
    // no main key held
    assert!(!h.check(&vec![KeyCode::ControlLeft, KeyCode::ShiftLeft]));
    // wrong modifier set
    assert!(!h.check(&vec![KeyCode::ControlLeft, KeyCode::KeyK]));
    // the last non-modifier key wins
    assert!(h.check(&vec![KeyCode::ControlLeft, KeyCode::ShiftLeft, KeyCode::KeyJ, KeyCode::KeyK]));
    assert!(!h.check(&vec![KeyCode::ControlLeft, KeyCode::ShiftLeft, KeyCode::KeyK, KeyCode::KeyJ]));
}

#[test]
fn id_packs_modifier_bits_and_key_number() {
    let h = HotKey::new(Some(mods(true, false, false, false)), KeyCode::KeyA);
    // shift contributes bit 1; KeyA is the eighteenth key of the table.
    assert_eq!(h.id(), (1 << 16) | 17);
    let k = HotKey::new(None, KeyCode::Backquote);
    assert_eq!(k.id(), 0);
}
