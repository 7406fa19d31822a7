use cloud_satchel::hotkey::{
    parse_hotkey, HotKeySpec, HotkeyRegistry, MOD_ALT, MOD_CONTROL, MOD_SHIFT, MOD_WIN,
};

#[test]
fn parse_common_combos() {
    let s = parse_hotkey("Ctrl+`").unwrap();
    assert_eq!(s.modifiers & MOD_CONTROL, MOD_CONTROL);
    assert_eq!(s.vk, 0xC0);

    let s = parse_hotkey("Ctrl+Shift+Space").unwrap();
    assert_eq!(s.modifiers & MOD_CONTROL, MOD_CONTROL);
    assert_eq!(s.modifiers & MOD_SHIFT, MOD_SHIFT);
    assert_eq!(s.vk, 0x20);

    let s = parse_hotkey("alt+f9").unwrap();
    assert_eq!(s.modifiers, MOD_ALT);
    assert_eq!(s.vk, 0x78);

    let s = parse_hotkey("Ctrl+Alt+P").unwrap();
    assert_eq!(s.modifiers, MOD_CONTROL | MOD_ALT);
    assert_eq!(s.vk, 0x50);
}

#[test]
fn parse_invalid() {
    assert!(parse_hotkey("").is_none());
    assert!(parse_hotkey("Ctrl").is_none());
    assert!(parse_hotkey("Space+Ctrl").is_none());
    assert!(parse_hotkey("Ctrl+X+Y").is_none());
    assert!(parse_hotkey("Ctrl+@@@").is_none());
    assert!(parse_hotkey("Ctrl+Shift+Alt+Win+F5").is_none());
}

#[test]
fn parse_function_keys_digits_and_names() {
    assert_eq!(parse_hotkey("Win+F24"), Some(HotKeySpec { modifiers: MOD_WIN, vk: 0x87 }));
    assert_eq!(parse_hotkey("F1"), Some(HotKeySpec { modifiers: 0, vk: 0x70 }));
    assert_eq!(parse_hotkey("ctrl+f25"), None);
    assert_eq!(parse_hotkey("ctrl+f0"), None);
    assert_eq!(parse_hotkey("ctrl+f"), Some(HotKeySpec { modifiers: MOD_CONTROL, vk: 0x46 }));
    assert_eq!(parse_hotkey("Ctrl+7"), Some(HotKeySpec { modifiers: MOD_CONTROL, vk: 0x37 }));
    assert_eq!(parse_hotkey(" Ctrl + PgDn "), Some(HotKeySpec { modifiers: MOD_CONTROL, vk: 0x22 }));
    assert_eq!(parse_hotkey("Ctrl++Enter"), Some(HotKeySpec { modifiers: MOD_CONTROL, vk: 0x0D }));
    assert_eq!(parse_hotkey("Windows+slash"), Some(HotKeySpec { modifiers: MOD_WIN, vk: 0xBF }));
    assert_eq!(parse_hotkey("Ctrl+F+9"), None);
    assert_eq!(parse_hotkey("Ctrl+F09"), Some(HotKeySpec { modifiers: MOD_CONTROL, vk: 0x78 }));
}

#[test]
fn parse_is_case_insensitive() {
    assert_eq!(parse_hotkey("CTRL+SHIFT+SPACE"), parse_hotkey("ctrl+shift+space"));
    assert_eq!(parse_hotkey("Alt+F9"), parse_hotkey("aLT+f9"));
}

#[test]
fn registry_tracks_accepted_registrations() {
    let mut r = HotkeyRegistry::new();
    let a = HotKeySpec { modifiers: MOD_CONTROL, vk: 0xC0 };
    let b = HotKeySpec { modifiers: MOD_ALT, vk: 0x20 };
    assert!(r.register(0x1301, a, true));
    assert!(r.contains(0x1301));
    assert_eq!(r.get(0x1301), Some(a));
    assert!(!r.register(0x1301, b, false));
    assert!(!r.contains(0x1301));
    assert!(r.register(0x1701, b, true));
    assert!(r.unregister(0x1701));
    assert!(!r.unregister(0x1701));
    r.register(1, a, true);
    r.register(2, b, true);
    let mut ids = r.unregister_all();
    ids.sort();
    assert_eq!(ids, vec![1, 2]);
    assert!(!r.contains(1));
}
