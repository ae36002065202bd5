//! The application: the state, the pages, the configuration and the theme,
//! and what each action does to them. Work that waits on the network, the
//! disk or the core is handed back as commands; the caller runs them and
//! reports their outcome where the application decides on it.
use vstd::prelude::*;

use crate::clash::types::ProxyGroupView;
use crate::clash::RefreshData;
use crate::config::app_config::AppConfig;
use crate::event::action::Action;
use crate::event::keymap::{global_actions, map_key, KeyEvent};
use crate::proxy::{ProxyState, SystemProxySettings};
use crate::state::store::{refreshed, AppState};
use crate::subscription::Subscription;
use crate::text::{digit_char, owned, push_str, string_from_chars, to_uppercase, uppercase};
use crate::ui::pages::router::{router_key_spec, switched};
use crate::ui::pages::{page_after, page_before, PageRouter};
use crate::ui::theme::Theme;

verus! {

/// How long one latency test may take, in milliseconds.
pub const LATENCY_TIMEOUT_MS: u16 = 5000;

/// How long each test of a whole group may take, in milliseconds.
pub const BATCH_LATENCY_TIMEOUT_MS: u16 = 3000;

/// Which change a system proxy write makes.
#[derive(Debug, Clone, Copy, PartialEq, Eq, Structural)]
pub enum ProxyChange {
    Toggle,
    Enable,
    Disable,
}

/// Work the application hands to its caller.
#[derive(Debug)]
pub enum Command {
    /// Switch `group` to `proxy`, then refresh.
    SwitchProxy { group: String, proxy: String },
    /// Test one proxy against `url`; the delay goes to `record_latency`.
    TestLatency { proxy: String, url: String, timeout_ms: u16 },
    /// Test each proxy on its own; each delay goes to `record_latency`.
    TestAllLatency { proxies: Vec<String>, url: String, timeout_ms: u16 },
    /// Set the Clash mode, then refresh.
    SetMode(String),
    /// Restart the core, wait two seconds, then refresh.
    RestartCore,
    /// Turn TUN on or off, then refresh.
    SetTun(bool),
    /// Close one connection, then refresh.
    CloseConnection(String),
    /// Close every connection, then refresh.
    CloseAllConnections,
    /// Write the system proxy settings; the outcome goes to
    /// `system_proxy_written` with `change`.
    WriteSystemProxy { settings: SystemProxySettings, change: ProxyChange },
    /// Write the subscription list to disk.
    SaveSubscriptions,
    /// Download the subscription at `url` and save it as the config of
    /// `name`, restart the core, wait two seconds, then refresh.
    DownloadSubscription { url: String, name: String },
    /// Refresh everything from the API.
    Refresh,
    /// Hand this refresh to `apply_refresh`, with the core's log file when
    /// the refresh brings no logs.
    ApplyRefresh(RefreshData),
    /// Load the theme of this name; the result goes to `theme_loaded`.
    LoadTheme(String),
    /// Write the configuration to disk.
    SaveConfig,
    /// Log this message as a warning.
    Warn(String),
}

/// The terminal client.
#[derive(Debug)]
pub struct App {
    pub state: AppState,
    pub pages: PageRouter,
    pub config: AppConfig,
    pub theme: Theme,
    pub should_quit: bool,
}

/// Two decimal digits of `n`, zero-padded (`{:02}` for `n < 100`).
pub open spec fn two_digits(n: nat) -> Seq<char> {
    seq![digit_char(n / 10), digit_char(n % 10)]
}

/// The UTC time of day of `secs` seconds since the epoch, as `HH:MM`.
pub open spec fn clock_of(secs: u64) -> Seq<char> {
    two_digits(((secs / 3600) % 24) as nat) + seq![':'] + two_digits(((secs / 60) % 60) as nat)
}

/// The theme that follows `current` in the cycle tokyo-night, catppuccin,
/// gruvbox; an unknown name goes to the first.
pub open spec fn theme_after(current: Seq<char>) -> Seq<char> {
    if current == "tokyo-night"@ {
        "catppuccin"@
    } else if current == "catppuccin"@ {
        "gruvbox"@
    } else {
        "tokyo-night"@
    }
}

/// `i` is where the first subscription whose URL (or name) is `key`
/// stands, or the length when there is none.
pub open spec fn is_first_match(subs: Seq<Subscription>, key: Seq<char>, by_url: bool, i: int) -> bool {
    &&& 0 <= i <= subs.len()
    &&& forall|j: int| 0 <= j < i ==> !(#[trigger] sub_key(subs[j], by_url) == key)
    &&& i < subs.len() ==> sub_key(subs[i], by_url) == key
}

/// A subscription's URL or name.
pub open spec fn sub_key(s: Subscription, by_url: bool) -> Seq<char> {
    if by_url {
        s.url@
    } else {
        s.name@
    }
}

/// Where the first subscription with URL (or name) `key` stands, or the
/// length when there is none.
pub open spec fn first_match(subs: Seq<Subscription>, key: Seq<char>, by_url: bool) -> int {
    choose|i: int| is_first_match(subs, key, by_url, i)
}

/// The subscriptions without those named `name`.
pub open spec fn without_name(subs: Seq<Subscription>, name: Seq<char>) -> Seq<Subscription> {
    subs.filter(|s: Subscription| s.name@ != name)
}

/// The status line holds `msg` for a fresh count of ticks; nothing else of
/// the state changed but what `changed` names.
pub open spec fn status_set(new: AppState, msg: Seq<char>) -> bool {
    &&& new.status_line matches Some(m) && m@ == msg
    &&& new.status_ttl == 40
}

/// What one action does to the application, and the commands it yields.
pub open spec fn dispatch_spec(old: App, new: App, action: Action, now: u64, cmds: Seq<Command>) -> bool {
    match action {
        Action::Quit => new == App { should_quit: true, ..old } && cmds.len() == 0,
        Action::NextPage => new == App { pages: new.pages, ..old } && switched(
            old.pages,
            new.pages,
            page_after(old.pages.active),
        ) && cmds.len() == 0,
        Action::PrevPage => new == App { pages: new.pages, ..old } && switched(
            old.pages,
            new.pages,
            page_before(old.pages.active),
        ) && cmds.len() == 0,
        Action::SwitchPage(id) => new == App { pages: new.pages, ..old } && switched(
            old.pages,
            new.pages,
            id,
        ) && cmds.len() == 0,
        Action::ToggleHelp => new == App {
            state: AppState { show_help: !old.state.show_help, ..old.state },
            ..old
        } && cmds.len() == 0,
        Action::SelectProxy { group, proxy } => {
            &&& new == App {
                state: AppState {
                    proxy_groups: new.state.proxy_groups,
                    status_line: new.state.status_line,
                    status_ttl: new.state.status_ttl,
                    ..old.state
                },
                ..old
            }
            &&& old.state.proxy_groups@.dom().contains(group@) ==> new.state.proxy_groups@
                == old.state.proxy_groups@.insert(
                group@,
                ProxyGroupView { now: Some(proxy), ..old.state.proxy_groups@[group@] },
            )
            &&& !old.state.proxy_groups@.dom().contains(group@) ==> new.state.proxy_groups@
                == old.state.proxy_groups@
            &&& status_set(new.state, group@ + " → "@ + proxy@)
            &&& cmds == seq![Command::SwitchProxy { group, proxy }]
        },
        Action::TestLatency { group: _, proxy } => new == old && cmds.len() == 1 && (
        cmds[0] matches Command::TestLatency { proxy: p, url, timeout_ms } && p == proxy && url@
            == "https://www.gstatic.com/generate_204"@ && timeout_ms == 5000),
        Action::TestAllLatency { group: _, proxies } => new == old && cmds.len() == 1 && (
        cmds[0] matches Command::TestAllLatency { proxies: ps, url, timeout_ms } && ps == proxies
            && url@ == "https://www.gstatic.com/generate_204"@ && timeout_ms == 3000),
        Action::SetClashMode(mode) => {
            &&& new == App {
                state: AppState {
                    clash_mode: mode,
                    status_line: new.state.status_line,
                    status_ttl: new.state.status_ttl,
                    ..old.state
                },
                ..old
            }
            &&& status_set(new.state, "Mode: "@ + uppercase(mode@))
            &&& cmds.len() == 1 && (cmds[0] matches Command::SetMode(m) && m@ == mode@)
        },
        Action::RestartMihomo => {
            &&& new == App {
                state: AppState {
                    status_line: new.state.status_line,
                    status_ttl: new.state.status_ttl,
                    ..old.state
                },
                ..old
            }
            &&& status_set(new.state, "Restarting mihomo..."@)
            &&& cmds == seq![Command::RestartCore]
        },
        Action::ToggleTun => {
            &&& new == App {
                state: AppState {
                    tun_enabled: !old.state.tun_enabled,
                    status_line: new.state.status_line,
                    status_ttl: new.state.status_ttl,
                    ..old.state
                },
                ..old
            }
            &&& status_set(
                new.state,
                if !old.state.tun_enabled {
                    "TUN: ON"@
                } else {
                    "TUN: OFF"@
                },
            )
            &&& cmds == seq![Command::SetTun(!old.state.tun_enabled)]
        },
        Action::CloseConnection(id) => new == old && cmds == seq![Command::CloseConnection(id)],
        Action::CloseAllConnections => new == old && cmds == seq![Command::CloseAllConnections],
        Action::ToggleSystemProxy => new == old && cmds.len() == 1 && (
        cmds[0] matches Command::WriteSystemProxy { settings, change } && change
            == ProxyChange::Toggle && settings.enable == !old.state.proxy_state.enabled && (
        settings.enable ==> settings.host == old.state.proxy_state.host && settings.port
            == old.state.proxy_state.port && settings.bypass == old.state.proxy_state.bypass) && (
        !settings.enable ==> settings.host@.len() == 0 && settings.port == 0
            && settings.bypass@.len() == 0)),
        Action::EnableSystemProxy => new == old && cmds.len() == 1 && (
        cmds[0] matches Command::WriteSystemProxy { settings, change } && change
            == ProxyChange::Enable && settings.enable && settings.host
            == old.state.proxy_state.host && settings.port == old.state.proxy_state.port
            && settings.bypass == old.state.proxy_state.bypass),
        Action::DisableSystemProxy => new == old && cmds.len() == 1 && (
        cmds[0] matches Command::WriteSystemProxy { settings, change } && change
            == ProxyChange::Disable && !settings.enable && settings.host@.len() == 0
            && settings.port == 0 && settings.bypass@.len() == 0),
        Action::DownloadSubscription(url) => {
            let subs = old.state.subscriptions@;
            let i = first_match(subs, url@, true);
            &&& new == App {
                state: AppState { subscriptions: new.state.subscriptions, ..old.state },
                ..old
            }
            &&& new.state.subscriptions@.len() == subs.len()
            &&& forall|j: int|
                0 <= j < subs.len() && j != i ==> new.state.subscriptions@[j] == subs[j]
            &&& i < subs.len() ==> {
                let s = new.state.subscriptions@[i];
                &&& s.name == subs[i].name
                &&& s.url == subs[i].url
                &&& s.enabled == subs[i].enabled
                &&& s.last_updated matches Some(t) && t@ == clock_of(now)
            }
            &&& cmds.len() == 2
            &&& cmds[0] == Command::SaveSubscriptions
            &&& cmds[1] matches Command::DownloadSubscription { url: u, name } && u == url && name@
                == (if i < subs.len() {
                subs[i].name@
            } else {
                Seq::<char>::empty()
            })
        },
        Action::AddSubscription { name, url } => {
            &&& new == App {
                state: AppState { subscriptions: new.state.subscriptions, ..old.state },
                ..old
            }
            &&& new.state.subscriptions@ == old.state.subscriptions@.push(
                Subscription { name, url, enabled: true, last_updated: None },
            )
            &&& cmds == seq![Command::SaveSubscriptions]
        },
        Action::RemoveSubscription(name) => {
            &&& new == App {
                state: AppState { subscriptions: new.state.subscriptions, ..old.state },
                ..old
            }
            &&& new.state.subscriptions@ == without_name(old.state.subscriptions@, name@)
            &&& cmds == seq![Command::SaveSubscriptions]
        },
        Action::ToggleSubscription(name) => {
            let subs = old.state.subscriptions@;
            let i = first_match(subs, name@, false);
            &&& new == App {
                state: AppState { subscriptions: new.state.subscriptions, ..old.state },
                ..old
            }
            &&& if i < subs.len() {
                &&& new.state.subscriptions@ == subs.update(
                    i,
                    Subscription { enabled: !subs[i].enabled, ..subs[i] },
                )
                &&& cmds == seq![Command::SaveSubscriptions]
            } else {
                new.state.subscriptions@ == subs && cmds.len() == 0
            }
        },
        Action::RefreshData => new == old && cmds == seq![Command::Refresh],
        Action::UpdateData(data) => new == old && cmds == seq![Command::ApplyRefresh(data)],
        Action::CycleTheme => new == old && cmds.len() == 1 && (
        cmds[0] matches Command::LoadTheme(n) && n@ == theme_after(old.config.ui.theme@)),
        Action::Error(msg) => new == old && cmds == seq![Command::Warn(msg)],
        Action::Noop | Action::SelectNext | Action::SelectPrev => new == old && cmds.len() == 0,
    }
}

/// Where the first subscription with URL (or name) `key` stands (see
/// `is_first_match`).
fn find_subscription(subs: &Vec<Subscription>, key: &str, by_url: bool) -> (r: usize)
    ensures
        is_first_match(subs@, key@, by_url, r as int),
        r as int == first_match(subs@, key@, by_url),
{
    let mut i: usize = 0;
    while i < subs.len() && !sub_matches(&subs[i], key, by_url)
        invariant
            0 <= i <= subs@.len(),
            forall|j: int| 0 <= j < i ==> !(#[trigger] sub_key(subs@[j], by_url) == key@),
        decreases subs.len() - i,
    {
        i = i + 1;
    }
    proof {
        lemma_first_match_unique(subs@, key@, by_url, i as int);
    }
    i
}

/// Whether the subscription's URL (or name) is `key`.
fn sub_matches(s: &Subscription, key: &str, by_url: bool) -> (r: bool)
    ensures
        r == (sub_key(*s, by_url) == key@),
{
    if by_url {
        crate::text::str_eq(s.url.as_str(), key)
    } else {
        crate::text::str_eq(s.name.as_str(), key)
    }
}

/// The first match is unique.
proof fn lemma_first_match_unique(subs: Seq<Subscription>, key: Seq<char>, by_url: bool, i: int)
    requires
        is_first_match(subs, key, by_url, i),
    ensures
        first_match(subs, key, by_url) == i,
{
    let k = first_match(subs, key, by_url);
    assert(is_first_match(subs, key, by_url, k));
    if k < i {
        assert(!(sub_key(subs[k], by_url) == key));
    } else if i < k {
        assert(!(sub_key(subs[i], by_url) == key));
    }
}

/// `HH:MM` of `secs` seconds since the epoch (see `clock_of`).
pub fn clock_text(secs: u64) -> (r: String)
    ensures
        r@ == clock_of(secs),
{
    let h = (secs / 3600) % 24;
    let m = (secs / 60) % 60;
    let mut v: Vec<char> = Vec::new();
    v.push(((h / 10) as u32 + 48) as u8 as char);
    v.push(((h % 10) as u32 + 48) as u8 as char);
    v.push(':');
    v.push(((m / 10) as u32 + 48) as u8 as char);
    v.push(((m % 10) as u32 + 48) as u8 as char);
    assert(v@ =~= clock_of(secs));
    string_from_chars(v.as_slice())
}

/// The theme after `current` (see `theme_after`).
pub fn next_theme(current: &str) -> (r: String)
    ensures
        r@ == theme_after(current@),
{
    proof {
        reveal_strlit("tokyo-night");
        reveal_strlit("catppuccin");
        reveal_strlit("gruvbox");
    }
    let c = crate::text::chars_of(current);
    if crate::text::chars_eq_str(c.as_slice(), "tokyo-night") {
        owned("catppuccin")
    } else if crate::text::chars_eq_str(c.as_slice(), "catppuccin") {
        owned("gruvbox")
    } else {
        owned("tokyo-night")
    }
}

impl App {
    /// A new client: the initial state with the API address of the
    /// configuration, the detected system proxy and the stored
    /// subscriptions where those could be read; the dashboard shown.
    pub fn with_client(
        config: AppConfig,
        theme: Theme,
        detected_proxy: Option<ProxyState>,
        subscriptions: Option<Vec<Subscription>>,
    ) -> (r: App)
        ensures
            r.state.is_fresh(),
            r.state.histories_ok(),
            r.state.api_host == config.api.host,
            r.state.api_port == config.api.port,
            detected_proxy matches Some(p) ==> r.state.proxy_state == p,
            detected_proxy is None ==> r.state.proxy_state.is_default(),
            subscriptions matches Some(s) ==> r.state.subscriptions == s,
            subscriptions is None ==> r.state.subscriptions@.len() == 0,
            r.pages.active == crate::ui::pages::PageId::Dashboard,
            r.config == config,
            r.theme == theme,
            !r.should_quit,
    {
        let mut state = AppState::default();
        state.api_host = config.api.host.clone();
        state.api_port = config.api.port;
        match detected_proxy {
            Some(p) => {
                state.proxy_state = p;
            },
            None => {},
        }
        match subscriptions {
            Some(s) => {
                state.subscriptions = s;
            },
            None => {},
        }
        App { state, pages: PageRouter::new(), config, theme, should_quit: false }
    }

    /// What the keys do: while the shown page takes every key, or when it
    /// has its own use for the key (`page_binds`), only the page gets it;
    /// otherwise the global bindings come first, then the page's actions.
    pub fn handle_input(&mut self, key: KeyEvent) -> (r: Vec<Action>)
        ensures
            *final(self) == (App { pages: final(self).pages, ..*old(self) }),
            old(self).pages.modal() || old(self).pages.page_binds(key) ==> router_key_spec(
                old(self).pages,
                final(self).pages,
                key,
                old(self).state,
                r@,
            ),
            !(old(self).pages.modal() || old(self).pages.page_binds(key)) ==> {
                let g = global_actions(key);
                &&& r@.len() >= g.len()
                &&& r@.subrange(0, g.len() as int) == g
                &&& router_key_spec(
                    old(self).pages,
                    final(self).pages,
                    key,
                    old(self).state,
                    r@.subrange(g.len() as int, r@.len() as int),
                )
            },
    {
        if self.pages.is_modal() || self.pages.binds_key(key) {
            return self.pages.handle_key(key, &self.state);
        }
        let mut actions = map_key(key);
        let ghost g = actions@;
        let mut page_actions = self.pages.handle_key(key, &self.state);
        let ghost p = page_actions@;
        actions.append(&mut page_actions);
        assert(actions@.subrange(0, g.len() as int) =~= g);
        assert(actions@.subrange(g.len() as int, actions@.len() as int) =~= p);
        actions
    }

    /// Applies one refresh to the state (see `AppState::apply_refresh`).
    pub fn apply_refresh(&mut self, data: RefreshData, mihomo_log: Option<String>)
        ensures
            refreshed(old(self).state, final(self).state, data, mihomo_log),
            *final(self) == (App { state: final(self).state, ..*old(self) }),
    {
        self.state.apply_refresh(data, mihomo_log);
    }

    /// Keeps a measured latency.
    pub fn record_latency(&mut self, proxy: String, delay: u64)
        ensures
            *final(self) == (App {
                state: AppState { latency_cache: final(self).state.latency_cache, ..old(self).state },
                ..*old(self)
            }),
            final(self).state.latency_cache@ == old(self).state.latency_cache@.insert(proxy@, delay),
    {
        self.state.latency_cache.insert(proxy, delay);
    }

    /// Completes a system proxy write of the given kind with its outcome. A
    /// toggle flips the state when the write succeeded and then shows
    /// `Proxy: ON` or `Proxy: OFF`; enabling or disabling sets the state
    /// when the write succeeded. A failed write changes nothing.
    pub fn system_proxy_written(&mut self, change: ProxyChange, outcome: Result<(), String>)
        ensures
            outcome is Err ==> *final(self) == *old(self),
            outcome is Ok ==> match change {
                ProxyChange::Toggle => {
                    let enabled = !old(self).state.proxy_state.enabled;
                    &&& *final(self) == (App {
                        state: AppState {
                            proxy_state: ProxyState { enabled, ..old(self).state.proxy_state },
                            status_line: final(self).state.status_line,
                            status_ttl: final(self).state.status_ttl,
                            ..old(self).state
                        },
                        ..*old(self)
                    })
                    &&& status_set(
                        final(self).state,
                        if enabled {
                            "Proxy: ON"@
                        } else {
                            "Proxy: OFF"@
                        },
                    )
                },
                ProxyChange::Enable => *final(self) == (App {
                    state: AppState {
                        proxy_state: ProxyState { enabled: true, ..old(self).state.proxy_state },
                        ..old(self).state
                    },
                    ..*old(self)
                }),
                ProxyChange::Disable => *final(self) == (App {
                    state: AppState {
                        proxy_state: ProxyState { enabled: false, ..old(self).state.proxy_state },
                        ..old(self).state
                    },
                    ..*old(self)
                }),
            },
    {
        match outcome {
            Ok(()) => match change {
                ProxyChange::Toggle => {
                    let _ = self.state.proxy_state.toggle(Ok(()));
                    let msg = if self.state.proxy_state.enabled {
                        owned("Proxy: ON")
                    } else {
                        owned("Proxy: OFF")
                    };
                    self.state.set_status(msg);
                },
                ProxyChange::Enable => {
                    self.state.proxy_state.enabled = true;
                },
                ProxyChange::Disable => {
                    self.state.proxy_state.enabled = false;
                },
            },
            Err(_) => {},
        }
    }

    /// Completes a theme change to `name` with what loading it gave: a
    /// loaded theme is taken, becomes the configured theme, shows
    /// `Theme: <name>` and the configuration is saved; a failed load
    /// changes nothing.
    pub fn theme_loaded(&mut self, name: String, loaded: Result<Theme, String>) -> (r: Vec<Command>)
        ensures
            loaded is Err ==> *final(self) == *old(self) && r@.len() == 0,
            loaded matches Ok(t) ==> {
                &&& *final(self) == (App {
                    theme: t,
                    config: AppConfig {
                        ui: crate::config::app_config::UiConfig {
                            theme: final(self).config.ui.theme,
                            ..old(self).config.ui
                        },
                        ..old(self).config
                    },
                    state: AppState {
                        status_line: final(self).state.status_line,
                        status_ttl: final(self).state.status_ttl,
                        ..old(self).state
                    },
                    ..*old(self)
                })
                &&& final(self).config.ui.theme@ == name@
                &&& status_set(final(self).state, "Theme: "@ + name@)
                &&& r@ == seq![Command::SaveConfig]
            },
    {
        let mut r: Vec<Command> = Vec::new();
        match loaded {
            Ok(t) => {
                self.theme = t;
                let mut v: Vec<char> = Vec::new();
                push_str(&mut v, "Theme: ");
                push_str(&mut v, name.as_str());
                self.config.ui.theme = name;
                self.state.set_status(string_from_chars(v.as_slice()));
                r.push(Command::SaveConfig);
            },
            Err(_) => {},
        }
        r
    }

    /// Carries out one action (see `dispatch_spec`); `now_secs` is the
    /// current time in seconds since the epoch.
    pub fn dispatch(&mut self, action: Action, now_secs: u64) -> (cmds: Vec<Command>)
        ensures
            dispatch_spec(*old(self), *final(self), action, now_secs, cmds@),
    {
        let mut cmds: Vec<Command> = Vec::new();
        match action {
            Action::Quit => {
                self.should_quit = true;
            },
            Action::NextPage => {
                self.pages.next_page();
            },
            Action::PrevPage => {
                self.pages.prev_page();
            },
            Action::SwitchPage(id) => {
                self.pages.switch_to(id);
            },
            Action::ToggleHelp => {
                self.state.show_help = !self.state.show_help;
            },
            Action::SelectProxy { group, proxy } => {
                self.state.proxy_groups.set_now(group.as_str(), proxy.clone());
                let mut v: Vec<char> = Vec::new();
                push_str(&mut v, group.as_str());
                push_str(&mut v, " → ");
                push_str(&mut v, proxy.as_str());
                self.state.set_status(string_from_chars(v.as_slice()));
                cmds.push(Command::SwitchProxy { group, proxy });
            },
            Action::TestLatency { group: _, proxy } => {
                cmds.push(
                    Command::TestLatency {
                        proxy,
                        url: owned("https://www.gstatic.com/generate_204"),
                        timeout_ms: LATENCY_TIMEOUT_MS,
                    },
                );
            },
            Action::TestAllLatency { group: _, proxies } => {
                cmds.push(
                    Command::TestAllLatency {
                        proxies,
                        url: owned("https://www.gstatic.com/generate_204"),
                        timeout_ms: BATCH_LATENCY_TIMEOUT_MS,
                    },
                );
            },
            Action::SetClashMode(mode) => {
                let upper = to_uppercase(mode.as_str());
                let mut v: Vec<char> = Vec::new();
                push_str(&mut v, "Mode: ");
                push_str(&mut v, upper.as_str());
                let m = mode.clone();
                self.state.clash_mode = mode;
                self.state.set_status(string_from_chars(v.as_slice()));
                cmds.push(Command::SetMode(m));
            },
            Action::RestartMihomo => {
                self.state.set_status(owned("Restarting mihomo..."));
                cmds.push(Command::RestartCore);
            },
            Action::ToggleTun => {
                let enable = !self.state.tun_enabled;
                self.state.tun_enabled = enable;
                let msg = if enable {
                    owned("TUN: ON")
                } else {
                    owned("TUN: OFF")
                };
                self.state.set_status(msg);
                cmds.push(Command::SetTun(enable));
            },
            Action::CloseConnection(id) => {
                cmds.push(Command::CloseConnection(id));
            },
            Action::CloseAllConnections => {
                cmds.push(Command::CloseAllConnections);
            },
            Action::ToggleSystemProxy => {
                let settings = self.state.proxy_state.toggle_request();
                cmds.push(Command::WriteSystemProxy { settings, change: ProxyChange::Toggle });
            },
            Action::EnableSystemProxy => {
                let settings = self.state.proxy_state.enable();
                cmds.push(Command::WriteSystemProxy { settings, change: ProxyChange::Enable });
            },
            Action::DisableSystemProxy => {
                let settings = self.state.proxy_state.disable();
                cmds.push(Command::WriteSystemProxy { settings, change: ProxyChange::Disable });
            },
            Action::DownloadSubscription(url) => {
                let name = self.stamp_download(url.as_str(), now_secs);
                cmds.push(Command::SaveSubscriptions);
                cmds.push(Command::DownloadSubscription { url, name });
            },
            Action::AddSubscription { name, url } => {
                self.state.subscriptions.push(
                    Subscription { name, url, enabled: true, last_updated: None },
                );
                cmds.push(Command::SaveSubscriptions);
            },
            Action::RemoveSubscription(name) => {
                let kept = remove_named(&self.state.subscriptions, name.as_str());
                self.state.subscriptions = kept;
                cmds.push(Command::SaveSubscriptions);
            },
            Action::ToggleSubscription(name) => {
                let i = find_subscription(&self.state.subscriptions, name.as_str(), false);
                if i < self.state.subscriptions.len() {
                    let s = &self.state.subscriptions[i];
                    let flipped = Subscription {
                        name: s.name.clone(),
                        url: s.url.clone(),
                        enabled: !s.enabled,
                        last_updated: crate::clash::types::clone_opt_string(&s.last_updated),
                    };
                    self.state.subscriptions.set(i, flipped);
                    cmds.push(Command::SaveSubscriptions);
                }
            },
            Action::RefreshData => {
                cmds.push(Command::Refresh);
            },
            Action::UpdateData(data) => {
                cmds.push(Command::ApplyRefresh(data));
            },
            Action::CycleTheme => {
                let next = next_theme(self.config.ui.theme.as_str());
                cmds.push(Command::LoadTheme(next));
            },
            Action::Error(msg) => {
                cmds.push(Command::Warn(msg));
            },
            Action::Noop | Action::SelectNext | Action::SelectPrev => {},
        }
        cmds
    }

    /// Stamps the first subscription with this URL as updated at
    /// `now_secs` and returns its name ("" when there is none).
    fn stamp_download(&mut self, url: &str, now_secs: u64) -> (name: String)
        ensures
            *final(self) == (App {
                state: AppState { subscriptions: final(self).state.subscriptions, ..old(self).state },
                ..*old(self)
            }),
            ({
                let subs = old(self).state.subscriptions@;
                let i = first_match(subs, url@, true);
                &&& final(self).state.subscriptions@.len() == subs.len()
                &&& forall|j: int|
                    0 <= j < subs.len() && j != i ==> final(self).state.subscriptions@[j] == subs[j]
                &&& i < subs.len() ==> {
                    let s = final(self).state.subscriptions@[i];
                    &&& s.name == subs[i].name
                    &&& s.url == subs[i].url
                    &&& s.enabled == subs[i].enabled
                    &&& s.last_updated matches Some(t) && t@ == clock_of(now_secs)
                }
                &&& name@ == (if i < subs.len() {
                    subs[i].name@
                } else {
                    Seq::<char>::empty()
                })
            }),
    {
        let i = find_subscription(&self.state.subscriptions, url, true);
        if i < self.state.subscriptions.len() {
            let s = &self.state.subscriptions[i];
            let name = s.name.clone();
            let stamped = Subscription {
                name: s.name.clone(),
                url: s.url.clone(),
                enabled: s.enabled,
                last_updated: Some(clock_text(now_secs)),
            };
            self.state.subscriptions.set(i, stamped);
            name
        } else {
            String::new()
        }
    }
}

/// The subscriptions not named `name`, in order.
fn remove_named(subs: &Vec<Subscription>, name: &str) -> (r: Vec<Subscription>)
    ensures
        r@ == without_name(subs@, name@),
{
    let mut r: Vec<Subscription> = Vec::new();
    let mut i: usize = 0;
    assert(subs@.subrange(0, 0) =~= Seq::<Subscription>::empty());
    proof {
        reveal(Seq::filter);
    }
    while i < subs.len()
        invariant
            0 <= i <= subs@.len(),
            r@ == without_name(subs@.subrange(0, i as int), name@),
        decreases subs.len() - i,
    {
        let ghost pre = subs@.subrange(0, i as int);
        assert(subs@.subrange(0, i as int + 1) =~= pre.push(subs@[i as int]));
        proof {
            pre.lemma_filter_push(subs@[i as int], |s: Subscription| s.name@ != name@);
        }
        if !crate::text::str_eq(subs[i].name.as_str(), name) {
            let s = &subs[i];
            r.push(
                Subscription {
                    name: s.name.clone(),
                    url: s.url.clone(),
                    enabled: s.enabled,
                    last_updated: crate::clash::types::clone_opt_string(&s.last_updated),
                },
            );
        }
        i = i + 1;
    }
    assert(subs@.subrange(0, subs@.len() as int) =~= subs@);
    r
}

/// Adding a subscription under a name no subscription has, then removing
/// that name, gives the list back.
pub proof fn law_add_then_remove_subscription(
    a0: App,
    a1: App,
    a2: App,
    name: String,
    url: String,
    now: u64,
    c1: Seq<Command>,
    c2: Seq<Command>,
)
    requires
        forall|j: int|
            0 <= j < a0.state.subscriptions@.len() ==> #[trigger] a0.state.subscriptions@[j].name@
                != name@,
        dispatch_spec(a0, a1, Action::AddSubscription { name, url }, now, c1),
        dispatch_spec(a1, a2, Action::RemoveSubscription(name), now, c2),
    ensures
        a2.state.subscriptions@ == a0.state.subscriptions@,
        a2 == (App {
            state: AppState { subscriptions: a2.state.subscriptions, ..a0.state },
            ..a0
        }),
{
    let subs = a0.state.subscriptions@;
    let added = Subscription { name, url, enabled: true, last_updated: None };
    let pred = |s: Subscription| s.name@ != name@;
    subs.lemma_filter_push(added, pred);
    assert(subs.filter(pred) == subs) by {
        lemma_filter_keeps_all(subs, name@);
    }
}

/// Filtering out a name that no subscription has keeps the list.
proof fn lemma_filter_keeps_all(subs: Seq<Subscription>, name: Seq<char>)
    requires
        forall|j: int| 0 <= j < subs.len() ==> #[trigger] subs[j].name@ != name,
    ensures
        without_name(subs, name) == subs,
    decreases subs.len(),
{
    reveal(Seq::filter);
    if subs.len() > 0 {
        let rest = subs.drop_last();
        assert forall|j: int| 0 <= j < rest.len() implies #[trigger] rest[j].name@ != name by {
            assert(rest[j] == subs[j]);
        }
        lemma_filter_keeps_all(rest, name);
        assert(subs[subs.len() - 1].name@ != name);
        assert(rest.push(subs.last()) =~= subs);
    }
}

/// Toggling the same subscription twice gives the list back.
pub proof fn law_toggle_subscription_twice(
    a0: App,
    a1: App,
    a2: App,
    name: String,
    now: u64,
    c1: Seq<Command>,
    c2: Seq<Command>,
)
    requires
        dispatch_spec(a0, a1, Action::ToggleSubscription(name), now, c1),
        dispatch_spec(a1, a2, Action::ToggleSubscription(name), now, c2),
    ensures
        a2.state.subscriptions@ == a0.state.subscriptions@,
        a2 == (App {
            state: AppState { subscriptions: a2.state.subscriptions, ..a0.state },
            ..a0
        }),
{
    let s0 = a0.state.subscriptions@;
    let s1 = a1.state.subscriptions@;
    let i = first_match(s0, name@, false);
    assert(is_first_match(s0, name@, false, i)) by {
        lemma_first_match_exists(s0, name@, false);
    }
    if i < s0.len() {
        assert(is_first_match(s1, name@, false, i)) by {
            assert forall|j: int| 0 <= j < i implies !(#[trigger] sub_key(s1[j], false) == name@) by {
                assert(s1[j] == s0[j]);
            }
        }
        lemma_first_match_unique(s1, name@, false, i);
        assert(a2.state.subscriptions@ =~= s0);
    } else {
        assert(is_first_match(s1, name@, false, i));
        lemma_first_match_unique(s1, name@, false, i);
    }
}

/// There is always a first match (or none at the end).
proof fn lemma_first_match_exists(subs: Seq<Subscription>, key: Seq<char>, by_url: bool)
    ensures
        is_first_match(subs, key, by_url, first_match(subs, key, by_url)),
{
    let w = choose|i: int| 0 <= i < subs.len() && sub_key(subs[i], by_url) == key;
    if exists|i: int| 0 <= i < subs.len() && sub_key(subs[i], by_url) == key {
        lemma_least_match(subs, key, by_url, w);
    } else {
        assert(is_first_match(subs, key, by_url, subs.len() as int));
    }
}

/// Below a match there is a least one.
proof fn lemma_least_match(subs: Seq<Subscription>, key: Seq<char>, by_url: bool, w: int)
    requires
        0 <= w < subs.len(),
        sub_key(subs[w], by_url) == key,
    ensures
        exists|i: int| is_first_match(subs, key, by_url, i),
    decreases w,
{
    if exists|j: int| 0 <= j < w && sub_key(subs[j], by_url) == key {
        let j = choose|j: int| 0 <= j < w && sub_key(subs[j], by_url) == key;
        lemma_least_match(subs, key, by_url, j);
    } else {
        assert(is_first_match(subs, key, by_url, w));
    }
}

/// Toggling TUN twice turns it back to what it was.
pub proof fn law_toggle_tun_twice(
    a0: App,
    a1: App,
    a2: App,
    now: u64,
    c1: Seq<Command>,
    c2: Seq<Command>,
)
    requires
        dispatch_spec(a0, a1, Action::ToggleTun, now, c1),
        dispatch_spec(a1, a2, Action::ToggleTun, now, c2),
    ensures
        a2.state.tun_enabled == a0.state.tun_enabled,
        c1 == seq![Command::SetTun(!a0.state.tun_enabled)],
        c2 == seq![Command::SetTun(a0.state.tun_enabled)],
{
}

/// Toggling the help twice changes nothing.
pub proof fn law_toggle_help_twice(
    a0: App,
    a1: App,
    a2: App,
    now: u64,
    c1: Seq<Command>,
    c2: Seq<Command>,
)
    requires
        dispatch_spec(a0, a1, Action::ToggleHelp, now, c1),
        dispatch_spec(a1, a2, Action::ToggleHelp, now, c2),
    ensures
        a2 == a0,
{
}

/// The next page and then the previous one show the page shown before.
pub proof fn law_next_then_prev_page(
    a0: App,
    a1: App,
    a2: App,
    now: u64,
    c1: Seq<Command>,
    c2: Seq<Command>,
)
    requires
        dispatch_spec(a0, a1, Action::NextPage, now, c1),
        dispatch_spec(a1, a2, Action::PrevPage, now, c2),
    ensures
        a2.pages.active == a0.pages.active,
        a2.state == a0.state,
{
    crate::ui::pages::law_next_prev_inverse(a0.pages.active);
}

/// Cycling the theme three times from a built-in theme comes back to it;
/// from any other name the cycle starts at `tokyo-night`.
pub proof fn law_theme_cycle(name: Seq<char>)
    ensures
        (name == "tokyo-night"@ || name == "catppuccin"@ || name == "gruvbox"@) ==> theme_after(
            theme_after(theme_after(name)),
        ) == name,
        !(name == "tokyo-night"@ || name == "catppuccin"@ || name == "gruvbox"@) ==> theme_after(
            name,
        ) == "tokyo-night"@,
{
    reveal_strlit("tokyo-night");
    reveal_strlit("catppuccin");
    reveal_strlit("gruvbox");
}

/// The value of two decimal digits.
pub open spec fn two_digit_value(s: Seq<char>) -> int {
    (s[0] as int - 48) * 10 + (s[1] as int - 48)
}

/// The download stamp is the time of day to the minute: its hours and
/// minutes read back as the minutes since midnight UTC.
pub proof fn law_clock_reads_back(secs: u64)
    ensures
        clock_of(secs).len() == 5,
        clock_of(secs)[2] == ':',
        two_digit_value(clock_of(secs).subrange(0, 2)) * 60 + two_digit_value(
            clock_of(secs).subrange(3, 5),
        ) == (secs / 60) % 1440,
{
    let h = ((secs / 3600) % 24) as nat;
    let m = ((secs / 60) % 60) as nat;
    assert(clock_of(secs).subrange(0, 2) =~= two_digits(h));
    assert(clock_of(secs).subrange(3, 5) =~= two_digits(m));
    assert(two_digit_value(two_digits(h)) == h);
    assert(two_digit_value(two_digits(m)) == m);
    let t = (secs / 60) as int;
    vstd::arithmetic::div_mod::lemma_div_denominator(secs as int, 60, 60);
    vstd::arithmetic::div_mod::lemma_breakdown(t, 60, 24);
    assert(h == (t / 60) % 24);
}

} // verus!
