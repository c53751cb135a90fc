use clipsnap::hotkeys::{parse_hotkey, Hotkey, HotkeyError, KeyCode, Modifiers};
use global_hotkey::hotkey::HotKey;

fn registered(hk: &Hotkey) -> HotKey {
    hk.accelerator().parse::<HotKey>().unwrap()
}

#[test]
fn test_parse_hotkey_ctrl_super_s() {
    let hk = registered(&parse_hotkey("Ctrl+Super+S").unwrap());
    assert_ne!(hk.id(), 0);
}

#[test]
fn test_parse_hotkey_super_h() {
    let hk = registered(&parse_hotkey("Super+H").unwrap());
    assert_ne!(hk.id(), 0);
}

#[test]
fn test_parse_hotkey_invalid() {
    assert!(parse_hotkey("").is_err());
    assert!(parse_hotkey("Ctrl+???").is_err());
}

#[test]
fn parsed_fields_and_accelerator() {
    let hk = parse_hotkey("Ctrl+Super+S").unwrap();
    assert_eq!(
        hk,
        Hotkey {
            modifiers: Modifiers { ctrl: true, alt: false, shift: false, super_key: true },
            key: KeyCode::KeyS,
        }
    );
    assert_eq!(hk.accelerator(), "control+super+KeyS");
    let alt = parse_hotkey(" alt + shift + f5 ").unwrap();
    assert_eq!(alt.accelerator(), "shift+alt+F5");
    assert_eq!(parse_hotkey("Win+Return").unwrap().accelerator(), "super+Enter");
    assert_eq!(parse_hotkey("7").unwrap().key, KeyCode::Digit7);
    assert_eq!(parse_hotkey("CONTROL+esc").unwrap().accelerator(), "control+Escape");
}

#[test]
fn unknown_parts_are_reported() {
    assert_eq!(parse_hotkey("Hyper+S"), Err(HotkeyError::UnknownModifier));
    assert_eq!(parse_hotkey("Ctrl+Hyper"), Err(HotkeyError::UnknownKey));
    assert_eq!(parse_hotkey(""), Err(HotkeyError::UnknownKey));
    assert_eq!(parse_hotkey("Ctrl++S"), Err(HotkeyError::UnknownModifier));
}

#[test]
fn global_hotkey_reads_the_same_shortcut() {
    let hk = registered(&parse_hotkey("Ctrl+Alt+S").unwrap());
    let expected = HotKey::new(
        Some(global_hotkey::hotkey::Modifiers::CONTROL | global_hotkey::hotkey::Modifiers::ALT),
        global_hotkey::hotkey::Code::KeyS,
    );
    assert_eq!(hk.id(), expected.id());
}
