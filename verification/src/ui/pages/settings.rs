//! The settings page: system proxy, connection, core, traffic and data.
use vstd::prelude::*;

use crate::event::action::Action;
use crate::event::keymap::{KeyCode, KeyEvent};
use crate::state::store::AppState;
use crate::text::{chars_of, dec, push_chars, push_str, string_from_chars, u64_to_dec};
use crate::ui::format::{f64_of, fixed1, plain, scaled1};

verus! {

/// The settings page has no state of its own.
#[derive(Debug, Clone, Copy)]
pub struct SettingsPage;

/// What a key does on the settings page.
pub open spec fn settings_key_spec(key: KeyEvent) -> Seq<Action> {
    if key.code == KeyCode::Char('p') {
        seq![Action::ToggleSystemProxy]
    } else if key.code == KeyCode::Char('P') {
        seq![Action::EnableSystemProxy]
    } else if key.code == KeyCode::Char('o') {
        seq![Action::DisableSystemProxy]
    } else if key.code == KeyCode::Char('T') {
        seq![Action::CycleTheme]
    } else {
        Seq::empty()
    }
}

impl SettingsPage {
    pub fn new() -> (r: Self) {
        SettingsPage
    }

    /// `p` toggles the system proxy, `P` enables it, `o` disables it, `T`
    /// cycles the theme.
    pub fn handle_key(&mut self, key: KeyEvent, state: &AppState) -> (r: Vec<Action>)
        ensures
            r@ == settings_key_spec(key),
    {
        let mut r: Vec<Action> = Vec::new();
        match key.code {
            KeyCode::Char('p') => r.push(Action::ToggleSystemProxy),
            KeyCode::Char('P') => r.push(Action::EnableSystemProxy),
            KeyCode::Char('o') => r.push(Action::DisableSystemProxy),
            KeyCode::Char('T') => r.push(Action::CycleTheme),
            _ => {},
        }
        assert(r@ =~= settings_key_spec(key));
        r
    }

    /// The settings page's identity.
    pub fn page_id(&self) -> (r: crate::ui::pages::PageId)
        ensures
            r == crate::ui::pages::PageId::Settings,
    {
        crate::ui::pages::PageId::Settings
    }
}

/// A speed, human-readable (as on the dashboard).
pub fn format_speed(bytes: u64) -> (r: String)
    ensures
        r@ == crate::ui::pages::dashboard::format_speed_spec(bytes),
{
    let v = if bytes >= 1048576 {
        scaled1(bytes, 20, " MB/s")
    } else if bytes >= 1024 {
        scaled1(bytes, 10, " KB/s")
    } else {
        plain(bytes, " B/s")
    };
    string_from_chars(v.as_slice())
}

/// The traffic line: `  Memory: <MiB>MB | Upload: <speed> | Download:
/// <speed> | Conns: <n>`.
pub fn traffic_line(state: &AppState) -> (r: String)
    ensures
        r@ == "  Memory: "@ + dec((state.memory_used_bytes / 1024 / 1024) as nat) + "MB | Upload: "@
            + crate::ui::pages::dashboard::format_speed_spec(state.upload_speed) + " | Download: "@
            + crate::ui::pages::dashboard::format_speed_spec(state.download_speed) + " | Conns: "@
            + dec(state.active_conn_count as nat),
{
    let mut v = chars_of("  Memory: ");
    let m = u64_to_dec(state.memory_used_bytes / 1024 / 1024);
    push_chars(&mut v, m.as_slice());
    push_str(&mut v, "MB | Upload: ");
    let up = format_speed(state.upload_speed);
    push_str(&mut v, up.as_str());
    push_str(&mut v, " | Download: ");
    let down = format_speed(state.download_speed);
    push_str(&mut v, down.as_str());
    push_str(&mut v, " | Conns: ");
    let c = u64_to_dec(state.active_conn_count as u64);
    push_chars(&mut v, c.as_slice());
    string_from_chars(v.as_slice())
}


/// The lines of the settings page, in order: the system proxy section
/// (status word, address, key), the connection section (API address,
/// config file or `N/A`), the core section (version or `N/A`, status,
/// mode in upper case), the traffic section and the data section, with a
/// blank line between sections. Line 1 is the status word alone.
pub open spec fn settings_lines_spec(state: AppState, config_path: Option<Seq<char>>) -> Seq<Seq<char>> {
    seq![
        " System Proxy "@,
        if state.proxy_state.enabled {
            "ENABLED"@
        } else {
            "DISABLED"@
        },
        "  Address: "@ + crate::proxy::address_of(state.proxy_state.host@, state.proxy_state.port),
        "  p         Toggle system proxy on/off"@,
        Seq::empty(),
        " Connection "@,
        "  API: "@ + state.api_host@ + ":"@ + dec(state.api_port as nat),
        "  Config: "@ + match config_path {
            Some(p) => p,
            None => "N/A"@,
        },
        Seq::empty(),
        " Core "@,
        "  Version: "@ + if state.core_version@.len() == 0 {
            "N/A"@
        } else {
            state.core_version@
        },
        "  Status: "@ + if state.core_running {
            "Running"@
        } else {
            "Disconnected"@
        },
        "  Mode: "@ + crate::text::uppercase(state.clash_mode@),
        Seq::empty(),
        " Traffic "@,
        "  Memory: "@ + dec((state.memory_used_bytes / 1024 / 1024) as nat) + "MB | Upload: "@
            + crate::ui::pages::dashboard::format_speed_spec(state.upload_speed) + " | Download: "@
            + crate::ui::pages::dashboard::format_speed_spec(state.download_speed) + " | Conns: "@
            + dec(state.active_conn_count as nat),
        Seq::empty(),
        " Data "@,
        "  "@ + dec(state.proxy_groups@.dom().len()) + " groups | "@ + dec(state.rules@.len())
            + " rules | "@ + dec(state.logs@.len()) + " logs | "@ + dec(state.connections@.len())
            + " connections"@,
    ]
}

/// The lines of the settings page (see `settings_lines_spec`); the config
/// file path is `None` when there is no config directory.
pub fn settings_lines(state: &AppState, config_path: Option<&str>) -> (r: Vec<String>)
    ensures
        r@.map_values(|l: String| l@) == settings_lines_spec(
            *state,
            match config_path {
                Some(p) => Some(p@),
                None => None,
            },
        ),
{
    let mut r: Vec<String> = Vec::new();
    r.push(crate::text::owned(" System Proxy "));
    r.push(
        if state.proxy_state.enabled {
            crate::text::owned("ENABLED")
        } else {
            crate::text::owned("DISABLED")
        },
    );
    let mut a = chars_of("  Address: ");
    push_str(&mut a, state.proxy_state.address().as_str());
    r.push(string_from_chars(a.as_slice()));
    r.push(crate::text::owned("  p         Toggle system proxy on/off"));
    r.push(String::new());
    r.push(crate::text::owned(" Connection "));
    let mut api = chars_of("  API: ");
    push_str(&mut api, state.api_host.as_str());
    push_str(&mut api, ":");
    let port = u64_to_dec(state.api_port as u64);
    push_chars(&mut api, port.as_slice());
    r.push(string_from_chars(api.as_slice()));
    let mut cfg = chars_of("  Config: ");
    match config_path {
        Some(p) => push_str(&mut cfg, p),
        None => push_str(&mut cfg, "N/A"),
    }
    r.push(string_from_chars(cfg.as_slice()));
    r.push(String::new());
    r.push(crate::text::owned(" Core "));
    let mut ver = chars_of("  Version: ");
    if chars_of(state.core_version.as_str()).len() == 0 {
        push_str(&mut ver, "N/A");
    } else {
        push_str(&mut ver, state.core_version.as_str());
    }
    r.push(string_from_chars(ver.as_slice()));
    let mut st = chars_of("  Status: ");
    if state.core_running {
        push_str(&mut st, "Running");
    } else {
        push_str(&mut st, "Disconnected");
    }
    r.push(string_from_chars(st.as_slice()));
    let mut mode = chars_of("  Mode: ");
    push_str(&mut mode, crate::text::to_uppercase(state.clash_mode.as_str()).as_str());
    r.push(string_from_chars(mode.as_slice()));
    r.push(String::new());
    r.push(crate::text::owned(" Traffic "));
    r.push(traffic_line(state));
    r.push(String::new());
    r.push(crate::text::owned(" Data "));

    let mut d = chars_of("  ");
    push_chars(&mut d, u64_to_dec(state.proxy_groups.len() as u64).as_slice());
    push_str(&mut d, " groups | ");
    push_chars(&mut d, u64_to_dec(state.rules.len() as u64).as_slice());
    push_str(&mut d, " rules | ");
    push_chars(&mut d, u64_to_dec(state.logs.len() as u64).as_slice());
    push_str(&mut d, " logs | ");
    push_chars(&mut d, u64_to_dec(state.connections.len() as u64).as_slice());
    push_str(&mut d, " connections");
    r.push(string_from_chars(d.as_slice()));
    proof {
        reveal_strlit(":");
    }
    assert(r@.map_values(|l: String| l@) =~= settings_lines_spec(
        *state,
        match config_path {
            Some(p) => Some(p@),
            None => None,
        },
    ));
    r
}

} // verus!
