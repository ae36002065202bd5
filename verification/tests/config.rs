use clash_tui::config::app_config::AppConfig;

#[test]
fn defaults_match_the_documented_values() {
    let c = AppConfig::default();
    assert_eq!(c.api.host, "127.0.0.1");
    assert_eq!(c.api.port, 9090);
    assert_eq!(c.api.secret, None);
    assert_eq!(c.ui.theme, "tokyo-night");
    assert_eq!(c.ui.refresh_interval_ms, 1000);
    assert_eq!(c.core.core_type, "mihomo");
    assert_eq!(c.core.core_path, "./core/mihomo");
    assert_eq!(c.hotkey.toggle, None);
    assert!(!c.subscription.auto_update);
    assert_eq!(c.subscription.interval_hours, 24);
}

#[test]
fn config_files_live_in_the_config_dir() {
    assert_eq!(AppConfig::config_path("/home/u/.config/clash-tui"), "/home/u/.config/clash-tui/config.toml");
    assert_eq!(AppConfig::themes_dir("/x"), "/x/themes");
}
