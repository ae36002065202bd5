use clash_tui::clash::groups::ProxyGroupMap;
use clash_tui::clash::types::LogEntry;
use clash_tui::clash::RefreshData;
use clash_tui::state::store::{parse_mihomo_log, AppState};

fn refresh(reachable: bool, up: u64, down: u64) -> RefreshData {
    RefreshData {
        proxy_groups: ProxyGroupMap::new(),
        memory: 42,
        mode: "global".to_string(),
        upload_speed: up,
        download_speed: down,
        active_conn_count: 3,
        core_version: if reachable { "v1.18".to_string() } else { String::new() },
        connections: vec![],
        logs: vec![],
        rules: vec![],
        api_reachable: reachable,
        tun_enabled: false,
    }
}

#[test]
fn reachable_refresh_connects() {
    let mut s = AppState::default();
    s.apply_refresh(refresh(true, 0, 0), None);
    assert!(s.api_connected);
    assert!(s.core_running);
    assert_eq!(s.core_version, "v1.18");
    assert_eq!(s.clash_mode, "global");
    assert_eq!(s.memory_used_bytes, 42);
}

#[test]
fn three_failures_disconnect_one_does_not() {
    let mut s = AppState::default();
    s.apply_refresh(refresh(true, 0, 0), None);
    s.apply_refresh(refresh(false, 0, 0), None);
    assert!(s.api_connected);
    assert_eq!(s.core_version, "v1.18");
    s.apply_refresh(refresh(false, 0, 0), None);
    assert!(s.api_connected);
    s.apply_refresh(refresh(false, 0, 0), None);
    assert!(!s.api_connected);
    assert!(!s.core_running);
    s.apply_refresh(refresh(true, 0, 0), None);
    assert!(s.api_connected);
    assert_eq!(s.consecutive_failures, 0);
}

#[test]
fn speeds_are_counter_growth() {
    let mut s = AppState::default();
    s.apply_refresh(refresh(true, 1000, 5000), None);
    assert_eq!(s.upload_speed, 0);
    assert_eq!(s.download_speed, 0);
    s.apply_refresh(refresh(true, 1500, 5200), None);
    assert_eq!(s.upload_speed, 500);
    assert_eq!(s.download_speed, 200);
    assert_eq!(s.total_upload, 1500);
    s.apply_refresh(refresh(true, 100, 100), None);
    assert_eq!(s.upload_speed, 0);
    assert_eq!(s.download_speed, 0);
}

#[test]
fn history_keeps_sixty_samples() {
    let mut s = AppState::default();
    for i in 0..100u64 {
        s.apply_refresh(refresh(true, i * 10, i * 20), None);
    }
    assert_eq!(s.speed_history_up.len(), 60);
    assert_eq!(s.speed_history_down.len(), 60);
    assert_eq!(*s.speed_history_up.last().unwrap(), 10);
    assert_eq!(*s.speed_history_down.last().unwrap(), 20);
}

#[test]
fn status_lasts_forty_ticks() {
    let mut s = AppState::default();
    s.set_status("hello".to_string());
    for _ in 0..39 {
        s.tick_status();
        assert_eq!(s.status_line.as_deref(), Some("hello"));
    }
    s.tick_status();
    assert_eq!(s.status_line, None);
    s.tick_status();
    assert_eq!(s.status_ttl, 0);
}

#[test]
fn logs_fall_back_to_the_core_log_file() {
    let mut s = AppState::default();
    s.apply_refresh(
        refresh(true, 0, 0),
        Some("level=error msg=boom\r\n\ninfo started\nWARN slow\n".to_string()),
    );
    let levels: Vec<&str> = s.logs.iter().map(|e| e.level.as_str()).collect();
    assert_eq!(levels, vec!["error", "info", "warning"]);
    let mut d = refresh(true, 0, 0);
    d.logs = vec![LogEntry { level: "info".to_string(), payload: Some("x".to_string()) }];
    s.apply_refresh(d, Some("ignored".to_string()));
    assert_eq!(s.logs.len(), 1);
    assert_eq!(parse_mihomo_log("a DEBUG b").len(), 1);
}

#[test]
fn subscriptions_path_under_config_dir() {
    assert_eq!(AppState::subscriptions_path(Some("/c")), "/c/subscriptions.toml");
    assert_eq!(AppState::subscriptions_path(None), "~/.config/clash-tui/subscriptions.toml");
}

#[test]
fn disconnect_clears_flags() {
    let mut s = AppState::default();
    s.apply_refresh(refresh(true, 0, 0), None);
    s.set_disconnected();
    assert!(!s.api_connected);
    assert!(!s.core_running);
}

#[test]
fn connection_shows_up_while_under_three_failures() {
    let mut s = AppState::default();
    s.apply_refresh(refresh(true, 0, 0), None);
    for k in 1..=600u32 {
        s.apply_refresh(refresh(false, 0, 0), None);
        assert_eq!(s.api_connected, k < 3);
        assert_eq!(s.core_running, k < 3);
    }
    assert_eq!(s.consecutive_failures, 255);
    s.apply_refresh(refresh(true, 0, 0), None);
    assert!(s.api_connected && s.core_running);
    assert_eq!(s.consecutive_failures, 0);
}

#[test]
fn status_tick_touches_nothing_else() {
    let mut s = AppState::default();
    s.apply_refresh(refresh(true, 0, 0), None);
    s.set_status("x".to_string());
    s.tick_status();
    assert!(s.api_connected && s.core_running);
    assert_eq!(s.status_ttl, 39);
    let mut t = AppState::default();
    t.tick_status();
    assert_eq!(t.status_line, None);
    assert_eq!(t.status_ttl, 0);
}
