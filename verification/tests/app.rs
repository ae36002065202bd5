use clash_tui::app::{clock_text, next_theme, App, Command, ProxyChange};
use clash_tui::config::app_config::AppConfig;
use clash_tui::event::action::Action;
use clash_tui::event::keymap::{KeyCode, KeyEvent};
use clash_tui::proxy::ProxyState;
use clash_tui::subscription::Subscription;
use clash_tui::ui::pages::PageId;
use clash_tui::ui::theme::Theme;

fn app() -> App {
    App::with_client(AppConfig::default(), Theme::tokyo_night(), None, None)
}

fn sub(name: &str, url: &str) -> Subscription {
    Subscription { name: name.to_string(), url: url.to_string(), enabled: true, last_updated: None }
}

#[test]
fn new_app_takes_config_and_detected_values() {
    let mut cfg = AppConfig::default();
    cfg.api.host = "10.1.1.1".to_string();
    cfg.api.port = 9191;
    let mut p = ProxyState::default();
    p.enabled = true;
    let a = App::with_client(cfg, Theme::gruvbox(), Some(p), Some(vec![sub("a", "u")]));
    assert_eq!(a.state.api_host, "10.1.1.1");
    assert_eq!(a.state.api_port, 9191);
    assert!(a.state.proxy_state.enabled);
    assert_eq!(a.state.subscriptions.len(), 1);
    assert_eq!(a.pages.active_id(), PageId::Dashboard);
    assert_eq!(a.theme.name, "gruvbox");
    assert!(!a.should_quit);
}

#[test]
fn quit_and_help() {
    let mut a = app();
    assert!(a.dispatch(Action::ToggleHelp, 0).is_empty());
    assert!(a.state.show_help);
    a.dispatch(Action::ToggleHelp, 0);
    assert!(!a.state.show_help);
    a.dispatch(Action::Quit, 0);
    assert!(a.should_quit);
}

#[test]
fn next_then_prev_page_returns() {
    let mut a = app();
    a.dispatch(Action::NextPage, 0);
    assert_eq!(a.pages.active_id(), PageId::Proxies);
    a.dispatch(Action::PrevPage, 0);
    assert_eq!(a.pages.active_id(), PageId::Dashboard);
    a.dispatch(Action::PrevPage, 0);
    assert_eq!(a.pages.active_id(), PageId::Subscriptions);
    a.dispatch(Action::SwitchPage(PageId::Logs), 0);
    assert_eq!(a.pages.active_id(), PageId::Logs);
    assert!(a.pages.logs.auto_scroll);
    assert_eq!(a.pages.logs.scroll, usize::MAX);
}

#[test]
fn select_proxy_updates_group_and_status() {
    let mut a = app();
    let cmds = a.dispatch(
        Action::SelectProxy { group: "PROXY".to_string(), proxy: "HK".to_string() },
        0,
    );
    assert_eq!(a.state.status_line.as_deref(), Some("PROXY → HK"));
    assert_eq!(a.state.status_ttl, 40);
    match &cmds[..] {
        [Command::SwitchProxy { group, proxy }] => {
            assert_eq!(group, "PROXY");
            assert_eq!(proxy, "HK");
        }
        _ => panic!("unexpected {:?}", cmds),
    }
}

#[test]
fn mode_change_is_optimistic_and_upper_cased() {
    let mut a = app();
    let cmds = a.dispatch(Action::SetClashMode("global".to_string()), 0);
    assert_eq!(a.state.clash_mode, "global");
    assert_eq!(a.state.status_line.as_deref(), Some("Mode: GLOBAL"));
    assert!(matches!(&cmds[..], [Command::SetMode(m)] if m == "global"));
}

#[test]
fn latency_tests_use_gstatic_and_timeouts() {
    let mut a = app();
    let cmds = a.dispatch(Action::TestLatency { group: "G".to_string(), proxy: "P".to_string() }, 0);
    assert!(matches!(&cmds[..], [Command::TestLatency { proxy, url, timeout_ms: 5000 }]
        if proxy == "P" && url == "https://www.gstatic.com/generate_204"));
    let cmds = a.dispatch(
        Action::TestAllLatency { group: "G".to_string(), proxies: vec!["a".to_string(), "b".to_string()] },
        0,
    );
    assert!(matches!(&cmds[..], [Command::TestAllLatency { proxies, timeout_ms: 3000, .. }] if proxies.len() == 2));
    a.record_latency("a".to_string(), 123);
    assert_eq!(a.state.latency_cache.get("a"), Some(&123));
}

#[test]
fn toggle_tun_twice_restores() {
    let mut a = app();
    let c1 = a.dispatch(Action::ToggleTun, 0);
    assert!(a.state.tun_enabled);
    assert_eq!(a.state.status_line.as_deref(), Some("TUN: ON"));
    assert!(matches!(&c1[..], [Command::SetTun(true)]));
    let c2 = a.dispatch(Action::ToggleTun, 0);
    assert!(!a.state.tun_enabled);
    assert_eq!(a.state.status_line.as_deref(), Some("TUN: OFF"));
    assert!(matches!(&c2[..], [Command::SetTun(false)]));
}

#[test]
fn restart_sets_status() {
    let mut a = app();
    let cmds = a.dispatch(Action::RestartMihomo, 0);
    assert_eq!(a.state.status_line.as_deref(), Some("Restarting mihomo..."));
    assert!(matches!(&cmds[..], [Command::RestartCore]));
}

#[test]
fn system_proxy_toggle_completes_with_outcome() {
    let mut a = app();
    let cmds = a.dispatch(Action::ToggleSystemProxy, 0);
    match &cmds[..] {
        [Command::WriteSystemProxy { settings, change: ProxyChange::Toggle }] => {
            assert!(settings.enable);
            assert_eq!(settings.port, 7890);
        }
        _ => panic!("unexpected {:?}", cmds),
    }
    a.system_proxy_written(ProxyChange::Toggle, Err("no registry".to_string()));
    assert!(!a.state.proxy_state.enabled);
    assert_eq!(a.state.status_line, None);
    a.system_proxy_written(ProxyChange::Toggle, Ok(()));
    assert!(a.state.proxy_state.enabled);
    assert_eq!(a.state.status_line.as_deref(), Some("Proxy: ON"));
    a.system_proxy_written(ProxyChange::Disable, Ok(()));
    assert!(!a.state.proxy_state.enabled);
    a.system_proxy_written(ProxyChange::Enable, Err("x".to_string()));
    assert!(!a.state.proxy_state.enabled);
    let cmds = a.dispatch(Action::DisableSystemProxy, 0);
    assert!(matches!(&cmds[..], [Command::WriteSystemProxy { settings, change: ProxyChange::Disable }] if !settings.enable && settings.host.is_empty()));
}

#[test]
fn add_then_remove_subscription_restores_list() {
    let mut a = App::with_client(AppConfig::default(), Theme::tokyo_night(), None, Some(vec![sub("a", "ua")]));
    let c = a.dispatch(Action::AddSubscription { name: "b".to_string(), url: "ub".to_string() }, 0);
    assert!(matches!(&c[..], [Command::SaveSubscriptions]));
    assert_eq!(a.state.subscriptions.len(), 2);
    assert!(a.state.subscriptions[1].enabled);
    a.dispatch(Action::RemoveSubscription("b".to_string()), 0);
    assert_eq!(a.state.subscriptions.len(), 1);
    assert_eq!(a.state.subscriptions[0].name, "a");
}

#[test]
fn remove_drops_every_subscription_of_that_name() {
    let mut a = App::with_client(
        AppConfig::default(),
        Theme::tokyo_night(),
        None,
        Some(vec![sub("x", "1"), sub("y", "2"), sub("x", "3")]),
    );
    a.dispatch(Action::RemoveSubscription("x".to_string()), 0);
    assert_eq!(a.state.subscriptions.len(), 1);
    assert_eq!(a.state.subscriptions[0].url, "2");
}

#[test]
fn toggle_subscription_twice_restores() {
    let mut a = App::with_client(
        AppConfig::default(),
        Theme::tokyo_night(),
        None,
        Some(vec![sub("x", "1"), sub("x", "2")]),
    );
    let c = a.dispatch(Action::ToggleSubscription("x".to_string()), 0);
    assert!(matches!(&c[..], [Command::SaveSubscriptions]));
    assert!(!a.state.subscriptions[0].enabled);
    assert!(a.state.subscriptions[1].enabled);
    a.dispatch(Action::ToggleSubscription("x".to_string()), 0);
    assert!(a.state.subscriptions[0].enabled);
    let c = a.dispatch(Action::ToggleSubscription("missing".to_string()), 0);
    assert!(c.is_empty());
}

#[test]
fn download_stamps_time_of_day() {
    let mut a = App::with_client(AppConfig::default(), Theme::tokyo_night(), None, Some(vec![sub("s", "http://u")]));
    // 1970-01-02 13:05:59 UTC
    let now = 86_400 + 13 * 3600 + 5 * 60 + 59;
    let cmds = a.dispatch(Action::DownloadSubscription("http://u".to_string()), now);
    assert_eq!(a.state.subscriptions[0].last_updated.as_deref(), Some("13:05"));
    match &cmds[..] {
        [Command::SaveSubscriptions, Command::DownloadSubscription { url, name }] => {
            assert_eq!(url, "http://u");
            assert_eq!(name, "s");
        }
        _ => panic!("unexpected {:?}", cmds),
    }
    let cmds = a.dispatch(Action::DownloadSubscription("http://other".to_string()), now);
    assert!(matches!(&cmds[1], Command::DownloadSubscription { name, .. } if name.is_empty()));
}

#[test]
fn clock_text_pads_to_two_digits() {
    assert_eq!(clock_text(0), "00:00");
    assert_eq!(clock_text(3600 * 9 + 60 * 7), "09:07");
    assert_eq!(clock_text(86_399), "23:59");
    assert_eq!(clock_text(u64::MAX), "07:00");
}

#[test]
fn theme_cycle_goes_round() {
    assert_eq!(next_theme("tokyo-night"), "catppuccin");
    assert_eq!(next_theme("catppuccin"), "gruvbox");
    assert_eq!(next_theme("gruvbox"), "tokyo-night");
    assert_eq!(next_theme("Gruvbox"), "tokyo-night");
    let mut a = app();
    let cmds = a.dispatch(Action::CycleTheme, 0);
    assert!(matches!(&cmds[..], [Command::LoadTheme(n)] if n == "catppuccin"));
    let cmds = a.theme_loaded("catppuccin".to_string(), Ok(Theme::catppuccin()));
    assert!(matches!(&cmds[..], [Command::SaveConfig]));
    assert_eq!(a.config.ui.theme, "catppuccin");
    assert_eq!(a.theme.name, "catppuccin");
    assert_eq!(a.state.status_line.as_deref(), Some("Theme: catppuccin"));
    let cmds = a.theme_loaded("gruvbox".to_string(), Err("unreadable".to_string()));
    assert!(cmds.is_empty());
    assert_eq!(a.config.ui.theme, "catppuccin");
}

#[test]
fn errors_become_warnings_and_refreshes_pass_through() {
    let mut a = app();
    assert!(matches!(&a.dispatch(Action::Error("boom".to_string()), 0)[..], [Command::Warn(m)] if m == "boom"));
    assert!(matches!(&a.dispatch(Action::RefreshData, 0)[..], [Command::Refresh]));
    assert!(matches!(&a.dispatch(Action::CloseAllConnections, 0)[..], [Command::CloseAllConnections]));
    assert!(matches!(&a.dispatch(Action::CloseConnection("c1".to_string()), 0)[..], [Command::CloseConnection(id)] if id == "c1"));
    assert!(a.dispatch(Action::Noop, 0).is_empty());
}

#[test]
fn global_keys_come_before_page_keys() {
    let mut a = app();
    let r = a.handle_input(KeyEvent { code: KeyCode::Char('q'), modifiers: 0 });
    assert!(matches!(&r[..], [Action::Quit]));
    let r = a.handle_input(KeyEvent { code: KeyCode::Char('1'), modifiers: 0 });
    assert!(matches!(&r[..], [Action::SetClashMode(m)] if m == "rule"));
}

#[test]
fn modal_input_takes_every_key() {
    let mut a = app();
    a.dispatch(Action::SwitchPage(PageId::Subscriptions), 0);
    let r = a.handle_input(KeyEvent { code: KeyCode::Char('a'), modifiers: 0 });
    assert!(r.is_empty());
    assert!(a.pages.is_modal());
    for c in "https://x.io/sub?t=1".chars() {
        let k = KeyEvent { code: KeyCode::Char(c), modifiers: 0 };
        assert!(a.handle_input(k).is_empty());
    }
    let r = a.handle_input(KeyEvent { code: KeyCode::Enter, modifiers: 0 });
    match &r[..] {
        [Action::AddSubscription { name, url }] => {
            assert_eq!(name, "sub");
            assert_eq!(url, "https://x.io/sub?t=1");
        }
        _ => panic!("unexpected {:?}", r),
    }
    assert!(!a.pages.is_modal());
}

#[test]
fn page_keys_override_global_ones() {
    let mut a = app();
    a.dispatch(Action::SwitchPage(PageId::Settings), 0);
    let r = a.handle_input(KeyEvent { code: KeyCode::Char('T'), modifiers: 0 });
    assert!(matches!(&r[..], [Action::CycleTheme]));
    a.dispatch(Action::SwitchPage(PageId::Proxies), 0);
    let r = a.handle_input(KeyEvent { code: KeyCode::Right, modifiers: 0 });
    assert!(r.is_empty());
    assert_eq!(a.pages.active_id(), PageId::Proxies);
    let r = a.handle_input(KeyEvent { code: KeyCode::Left, modifiers: 0 });
    assert!(r.is_empty());
    assert_eq!(a.pages.active_id(), PageId::Proxies);
    // Elsewhere Right still goes to the next page, T still cycles the theme.
    let r = a.handle_input(KeyEvent { code: KeyCode::Char('T'), modifiers: 0 });
    assert!(matches!(&r[..], [Action::CycleTheme]));
    a.dispatch(Action::SwitchPage(PageId::Rules), 0);
    let r = a.handle_input(KeyEvent { code: KeyCode::Right, modifiers: 0 });
    assert!(matches!(&r[..], [Action::NextPage]));
}
