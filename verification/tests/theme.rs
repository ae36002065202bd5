use clash_tui::ui::theme::{hex, hex_is_safe, parse_hex_u8, Color, Theme, ThemeFile};

#[test]
fn test_hex_color() {
    assert_eq!(hex("#ff0000"), Color::Rgb(255, 0, 0));
    assert_eq!(hex("00ff00"), Color::Rgb(0, 255, 0));
    assert_eq!(hex("#1a1b26"), Color::Rgb(26, 27, 38));
}

#[test]
fn test_builtin_themes() {
    let t = Theme::tokyo_night();
    assert_eq!(t.name, "tokyo-night");

    let t = Theme::catppuccin();
    assert_eq!(t.name, "catppuccin");

    let t = Theme::gruvbox();
    assert_eq!(t.name, "gruvbox");
}

#[test]
fn test_theme_fallback() {
    let t = Theme::load("nonexistent", None).unwrap();
    assert_eq!(t.name, "tokyo-night");
}

#[test]
fn hex_edge_cases() {
    assert_eq!(hex("##abcdef"), Color::Rgb(0xab, 0xcd, 0xef));
    assert_eq!(hex("#12345"), Color::Reset);
    assert_eq!(hex("#1234567"), Color::Reset);
    assert_eq!(hex("#zz0000"), Color::Rgb(0, 0, 0));
    assert_eq!(hex("#+f+f+f"), Color::Rgb(15, 15, 15));
    assert_eq!(hex("#éé0000"), Color::Reset);
    assert_eq!(hex("#é0000"), Color::Rgb(0, 0, 0));
    assert!(hex_is_safe("#é0000"));
    assert!(!hex_is_safe("#aé000"));
    assert!(hex_is_safe("#ab"));
}

#[test]
fn hex_byte_parse_matches_std() {
    for s in ["ff", "+f", "0", "", "+", "-1", "100", "g0", "FF", "+ff"] {
        let cs: Vec<char> = s.chars().collect();
        assert_eq!(parse_hex_u8(&cs), u8::from_str_radix(s, 16).ok(), "{}", s);
    }
}

#[test]
fn builtin_theme_by_name_ignores_case() {
    assert_eq!(Theme::load("Gruvbox", None).unwrap().name, "gruvbox");
    assert_eq!(Theme::load("CATPPUCCIN", None).unwrap().name, "catppuccin");
    assert_eq!(Theme::load("tokyo_night", None).unwrap().name, "tokyo-night");
    assert_eq!(Theme::gruvbox().accent, Color::Rgb(0xfa, 0xbd, 0x2f));
}

fn empty_file() -> ThemeFile {
    ThemeFile {
        name: None,
        bg: None,
        fg: None,
        accent: None,
        surface: None,
        surface_light: None,
        success: None,
        warning: None,
        error: None,
        info: None,
        latency_low: None,
        latency_mid: None,
        latency_high: None,
        latency_offline: None,
        tab_active: None,
        tab_inactive: None,
    }
}

#[test]
fn theme_file_overrides_tokyo_night() {
    let mut f = empty_file();
    f.accent = Some("#010203".to_string());
    f.bg = Some("bad".to_string());
    assert!(f.is_safe());
    let t = Theme::load("mine", Some(Ok(f))).unwrap();
    assert_eq!(t.name, "mine");
    assert_eq!(t.accent, Color::Rgb(1, 2, 3));
    assert_eq!(t.bg, Color::Reset);
    assert_eq!(t.fg, Theme::tokyo_night().fg);
    let mut g = empty_file();
    g.name = Some("Named".to_string());
    assert_eq!(Theme::from_file("x", g).name, "Named");
}

#[test]
fn theme_file_error_is_handed_back() {
    let r = Theme::load("broken", Some(Err("Failed to parse theme file".to_string())));
    assert_eq!(r.unwrap_err(), "Failed to parse theme file");
}
