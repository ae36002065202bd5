use clash_tui::clash::groups::ProxyGroupMap;
use clash_tui::clash::types::{Connection, ConnectionMetadata, LatencyRecord, ProxyGroup, Rule};
use clash_tui::event::keymap::{KeyCode, KeyEvent};
use clash_tui::state::store::AppState;
use clash_tui::subscription::Subscription;
use clash_tui::ui::pages::connections::{connection_detail, connection_row, connections_title};
use clash_tui::ui::pages::dashboard::{data_summary, mode_color, sparkline_title};
use clash_tui::ui::pages::logs::{level_color, log_prefix, logs_title};
use clash_tui::ui::pages::proxies::{
    group_row_suffix, group_tag, latency_color, member_order, member_row_head, members_title,
    scroll_offset,
};
use clash_tui::ui::pages::rules::{rule_row, rule_type_color};
use clash_tui::ui::pages::settings::settings_lines;
use clash_tui::ui::pages::subscriptions::{subscription_detail, subscription_row, SubscriptionsPage};
use clash_tui::ui::theme::Theme;

fn group(name: &str, t: &str, now: Option<&str>) -> ProxyGroup {
    ProxyGroup {
        name: name.to_string(),
        group_type: t.to_string(),
        now: now.map(str::to_string),
        all: vec!["a".to_string(), "b".to_string()],
        udp: false,
        history: None,
        hidden: false,
    }
}

#[test]
fn proxy_rows() {
    assert_eq!(group_tag("URLTest"), " [url]");
    assert_eq!(group_tag("Selector"), "");
    assert_eq!(group_row_suffix(&group("G", "Fallback", Some("a"))), " → a  [fb]");
    assert_eq!(group_row_suffix(&group("G", "Selector", None)), " → ? ");
    let g = group("G", "Selector", Some("a"));
    assert_eq!(member_row_head("a", &g), " ◆ a");
    assert_eq!(member_row_head("b", &g), "   b");
    assert_eq!(members_title("G", 2, true), " G (2 proxies) [sorted] ");
    assert_eq!(members_title("G", 2, false), " G (2 proxies) ");
    let t = Theme::tokyo_night();
    assert_eq!(latency_color(99, &t), t.latency_low);
    assert_eq!(latency_color(100, &t), t.latency_mid);
    assert_eq!(latency_color(300, &t), t.latency_high);
}

#[test]
fn scroll_keeps_selection_visible() {
    assert_eq!(scroll_offset(3, 0), 0);
    assert_eq!(scroll_offset(3, 10), 0);
    assert_eq!(scroll_offset(10, 10), 1);
    assert_eq!(scroll_offset(25, 10), 16);
}

#[test]
fn connection_rows_and_details() {
    let conn = Connection {
        id: "1".to_string(),
        metadata: Some(ConnectionMetadata {
            network: Some("tcp".to_string()),
            meta_type: None,
            source_ip: Some("10.0.0.2".to_string()),
            source_port: Some("5555".to_string()),
            destination_ip: None,
            destination_port: Some("443".to_string()),
            host: Some("example.com".to_string()),
            dns_mode: None,
            process: None,
        }),
        upload: Some(2048),
        download: None,
        start: None,
        chains: None,
        rule: None,
        rule_payload: None,
        host: None,
    };
    assert_eq!(connection_row(&conn), vec!["example.com", "tcp", "-", "2.0KB", "0B"]);
    let d = connection_detail(&conn);
    assert_eq!(d[1], (" Dest: ".to_string(), "-:443".to_string()));
    assert_eq!(d[2].1, "10.0.0.2:5555");
    assert_eq!(d[5].1, "-");
    assert_eq!(connections_title(7), " Connections (7) ");
}

#[test]
fn rules_and_logs_text() {
    let r = Rule { rule_type: "MATCH".to_string(), payload: None, proxy: Some("PROXY".to_string()) };
    assert_eq!(rule_row(&r), vec!["MATCH", "-", "PROXY"]);
    let t = Theme::gruvbox();
    assert_eq!(rule_type_color("MATCH", &t), t.error);
    assert_eq!(rule_type_color("IP-CIDR6", &t), t.accent);
    assert_eq!(rule_type_color("PROCESS-NAME", &t), t.fg);
    assert_eq!(log_prefix("warning"), "[WARNING] ");
    assert_eq!(level_color("WARN", &t), t.warning);
    assert_eq!(level_color("Debug", &t), t.latency_offline);
    assert_eq!(logs_title(3, &Some("error".to_string()), false), " Mihomo Logs (3) (filter: error)  [manual] (from mihomo.log) ");
    assert_eq!(logs_title(0, &None, true), " Mihomo Logs (0) [auto] (from mihomo.log) ");
}

#[test]
fn dashboard_text() {
    let mut s = AppState::default();
    let mut groups = ProxyGroupMap::new();
    let mut g = group("G", "Selector", None);
    g.history = Some(vec![LatencyRecord { time: "t".to_string(), delay: 5 }]);
    groups.insert("G".to_string(), g);
    s.proxy_groups = groups;
    assert_eq!(data_summary(&s), "1 groups  0 rules  0 logs");
    assert_eq!(sparkline_title("Upload", 2048), " Upload: 2.0 KB/s/s ");
    let t = Theme::catppuccin();
    assert_eq!(mode_color("global", &t), t.warning);
    assert_eq!(mode_color("GLOBAL", &t), t.fg);
}

#[test]
fn settings_page_lines() {
    let mut s = AppState::default();
    s.core_running = true;
    s.core_version = "v1".to_string();
    let lines = settings_lines(&s, Some("/c/config.toml"));
    assert_eq!(lines.len(), 19);
    assert_eq!(lines[1], "DISABLED");
    assert_eq!(lines[2], "  Address: 127.0.0.1:7890");
    assert_eq!(lines[6], "  API: 127.0.0.1:9090");
    assert_eq!(lines[7], "  Config: /c/config.toml");
    assert_eq!(lines[10], "  Version: v1");
    assert_eq!(lines[11], "  Status: Running");
    assert_eq!(lines[12], "  Mode: RULE");
    assert_eq!(lines[18], "  0 groups | 0 rules | 0 logs | 0 connections");
    assert_eq!(settings_lines(&AppState::default(), None)[7], "  Config: N/A");
}

#[test]
fn subscription_rows_and_detail() {
    let s = Subscription { name: "s".to_string(), url: "u".to_string(), enabled: false, last_updated: None };
    assert_eq!(subscription_row(&s), ("✗ s ".to_string(), "(never)".to_string()));
    let d = subscription_detail(&s);
    assert_eq!(d[2].1, "No");
    assert_eq!(d[3].1, "never");
}

#[test]
fn input_line_scrolls_with_the_cursor() {
    let mut page = SubscriptionsPage::new();
    let state = AppState::default();
    page.handle_key(KeyEvent { code: KeyCode::Char('a'), modifiers: 0 }, &state);
    assert_eq!(page.render_input_text(20), Some(" URL:  █".to_string()));
    for c in "abcdefghijklmnopqrstuvwxyz".chars() {
        page.handle_key(KeyEvent { code: KeyCode::Char(c), modifiers: 0 }, &state);
    }
    // 20 columns: 10 for the text
    assert_eq!(page.render_input_text(20), Some("←URL: rstuvwxyz █".to_string()));
    page.handle_key(KeyEvent { code: KeyCode::Home, modifiers: 0 }, &state);
    assert_eq!(page.render_input_text(20), Some(" URL: ▌abcdefghij→".to_string()));
    assert_eq!(page.render_input_text(10), None);
}

#[test]
fn input_edits_whole_characters() {
    let mut page = SubscriptionsPage::new();
    let state = AppState::default();
    page.handle_key(KeyEvent { code: KeyCode::Char('a'), modifiers: 0 }, &state);
    for c in "héllo✓".chars() {
        page.handle_key(KeyEvent { code: KeyCode::Char(c), modifiers: 0 }, &state);
    }
    assert_eq!(page.cursor_pos, 6);
    page.handle_key(KeyEvent { code: KeyCode::Backspace, modifiers: 0 }, &state);
    assert_eq!(page.input_text.iter().collect::<String>(), "héllo");
    page.handle_key(KeyEvent { code: KeyCode::Home, modifiers: 0 }, &state);
    page.handle_key(KeyEvent { code: KeyCode::Right, modifiers: 0 }, &state);
    page.handle_key(KeyEvent { code: KeyCode::Delete, modifiers: 0 }, &state);
    assert_eq!(page.input_text.iter().collect::<String>(), "hllo");
    page.handle_key(KeyEvent { code: KeyCode::Char('é'), modifiers: 0 }, &state);
    assert_eq!(page.input_text.iter().collect::<String>(), "héllo");
    assert_eq!(page.cursor_pos, 2);
    assert_eq!(page.render_input_text(30), Some(" URL: hé▌llo ".to_string()));
}

#[test]
fn sorting_goes_by_the_delay_shown() {
    let mut state = AppState::default();
    let mut g = group("G", "Selector", None);
    g.all = vec!["a".to_string(), "b".to_string(), "c".to_string(), "d".to_string()];
    // a and b were tested (cache), c has only a history, d nothing.
    state.latency_cache.insert("a".to_string(), 500);
    state.latency_cache.insert("b".to_string(), 100);
    let mut c = group("c", "Shadowsocks", None);
    c.history = Some(vec![LatencyRecord { time: "t".to_string(), delay: 300 }]);
    state.proxy_groups.insert("c".to_string(), c);
    assert_eq!(member_order(&g, &state, false), vec![0, 1, 2, 3]);
    assert_eq!(member_order(&g, &state, true), vec![1, 2, 0, 3]);
    // A tested delay wins over the history; equal delays keep list order.
    state.latency_cache.insert("c".to_string(), 100);
    assert_eq!(member_order(&g, &state, true), vec![1, 2, 0, 3]);
    state.latency_cache.insert("c".to_string(), 50);
    assert_eq!(member_order(&g, &state, true), vec![2, 1, 0, 3]);
}
