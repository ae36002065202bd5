use clash_tui::hotkey::{hotkey_from_parts, parse_hotkey};

#[test]
fn test_parse_hotkey() {
    let (mod_, vk) = parse_hotkey("Ctrl+`").unwrap();
    assert_eq!(mod_, 0x0002);
    assert_eq!(vk, 0xC0);

    let (mod_, vk) = parse_hotkey("Alt+F4").unwrap();
    assert_eq!(mod_, 0x0001);
    assert_eq!(vk, 0x73);

    let (mod_, vk) = parse_hotkey("Ctrl+Shift+A").unwrap();
    assert_eq!(mod_, 0x0002 | 0x0004);
    assert_eq!(vk, 'A' as u32);
}

#[test]
fn hotkey_ignores_case_and_blanks() {
    assert_eq!(parse_hotkey(" CONTROL + win +  space "), Some((0x000A, 0x20)));
    assert_eq!(parse_hotkey("ALT+ESC"), Some((0x0001, 0x1B)));
    assert_eq!(parse_hotkey("Shift+x"), Some((0x0004, 'X' as u32)));
    assert_eq!(parse_hotkey("Hyper+F12"), Some((0, 0x7B)));
}

#[test]
fn hotkey_rejects_single_parts_and_unknown_keys() {
    assert_eq!(parse_hotkey("F4"), None);
    assert_eq!(parse_hotkey(""), None);
    assert_eq!(parse_hotkey("Ctrl+PageUp"), None);
    assert_eq!(parse_hotkey("Ctrl+é"), None);
}

#[test]
fn hotkey_from_lowered_parts() {
    let parts = vec!["ctrl".to_string(), "alt".to_string(), "tab".to_string()];
    assert_eq!(hotkey_from_parts(&parts), Some((0x0003, 0x09)));
    assert_eq!(hotkey_from_parts(&vec!["tab".to_string()]), None);
}

#[test]
fn modifiers_are_a_set_and_case_is_ignored() {
    assert_eq!(parse_hotkey("shift + CTRL+a"), Some((0x0006, 0x41)));
    assert_eq!(parse_hotkey("Ctrl+Shift+a"), parse_hotkey("shift + CTRL+a"));
    assert_eq!(parse_hotkey("ctrl+control+SHIFT+Ctrl+A"), Some((0x0006, 0x41)));
    assert_eq!(parse_hotkey("WIN+Alt+f1"), parse_hotkey("alt+windows+F1"));
}
