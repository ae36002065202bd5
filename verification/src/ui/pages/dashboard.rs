//! The dashboard: core status, mode, proxy summary, traffic and memory.
use vstd::prelude::*;

use crate::clash::groups::NamedEntry;
use crate::clash::types::ProxyGroup;
use crate::event::action::Action;
use crate::event::keymap::{KeyCode, KeyEvent};
use crate::state::store::AppState;
use crate::text::{chars_eq_str, chars_of, dec, owned, push_chars, push_str, string_from_chars, u64_to_dec};
use crate::ui::format::{f64_of, fixed0, fixed1, plain, scaled0, scaled1};

verus! {

/// The dashboard has no state of its own.
#[derive(Debug, Clone, Copy)]
pub struct DashboardPage;

/// `r` is the single action `SetClashMode(mode)`.
pub open spec fn is_set_mode(r: Seq<Action>, mode: Seq<char>) -> bool {
    &&& r.len() == 1
    &&& r[0] matches Action::SetClashMode(m) && m@ == mode
}

/// The mode after `mode` in the cycle rule, global, direct.
pub open spec fn next_mode(mode: Seq<char>) -> Seq<char> {
    if mode == "rule"@ {
        "global"@
    } else if mode == "global"@ {
        "direct"@
    } else {
        "rule"@
    }
}

/// What a key does on the dashboard.
pub open spec fn dashboard_key_spec(key: KeyEvent, mode: Seq<char>, r: Seq<Action>) -> bool {
    if key.code == KeyCode::Char('1') {
        is_set_mode(r, "rule"@)
    } else if key.code == KeyCode::Char('2') {
        is_set_mode(r, "global"@)
    } else if key.code == KeyCode::Char('3') {
        is_set_mode(r, "direct"@)
    } else if key.code == KeyCode::Char('R') {
        r == seq![Action::RestartMihomo]
    } else if key.code == KeyCode::Char('m') {
        is_set_mode(r, next_mode(mode))
    } else {
        r.len() == 0
    }
}

impl DashboardPage {
    pub fn new() -> (r: Self) {
        DashboardPage
    }

    /// `1`, `2`, `3` set the mode to rule, global, direct; `m` cycles it;
    /// `R` restarts mihomo.
    pub fn handle_key(&mut self, key: KeyEvent, state: &AppState) -> (r: Vec<Action>)
        ensures
            dashboard_key_spec(key, state.clash_mode@, r@),
    {
        let mut r: Vec<Action> = Vec::new();
        match key.code {
            KeyCode::Char('1') => r.push(Action::SetClashMode(owned("rule"))),
            KeyCode::Char('2') => r.push(Action::SetClashMode(owned("global"))),
            KeyCode::Char('3') => r.push(Action::SetClashMode(owned("direct"))),
            KeyCode::Char('R') => r.push(Action::RestartMihomo),
            KeyCode::Char('m') => {
                let m = chars_of(state.clash_mode.as_str());
                let next = if chars_eq_str(m.as_slice(), "rule") {
                    owned("global")
                } else if chars_eq_str(m.as_slice(), "global") {
                    owned("direct")
                } else {
                    owned("rule")
                };
                r.push(Action::SetClashMode(next));
            },
            _ => {},
        }
        assert(r@ == seq![Action::RestartMihomo] || key.code != KeyCode::Char('R'));
        r
    }

    /// The dashboard's identity.
    pub fn page_id(&self) -> (r: crate::ui::pages::PageId)
        ensures
            r == crate::ui::pages::PageId::Dashboard,
    {
        crate::ui::pages::PageId::Dashboard
    }
}

/// Memory as the dashboard prints it: `x.y MB` from 1 MiB, `x KB` from
/// 1 KiB, else `n B`.
pub open spec fn format_memory_spec(bytes: u64) -> Seq<char> {
    if bytes >= 1048576 {
        fixed1(f64_of(bytes as nat), 20) + " MB"@
    } else if bytes >= 1024 {
        fixed0(f64_of(bytes as nat), 10) + " KB"@
    } else {
        dec(bytes as nat) + " B"@
    }
}

/// A speed as the dashboard and settings print it: `x.y MB/s` from 1 MiB,
/// `x.y KB/s` from 1 KiB, else `n B/s`.
pub open spec fn format_speed_spec(bytes: u64) -> Seq<char> {
    if bytes >= 1048576 {
        fixed1(f64_of(bytes as nat), 20) + " MB/s"@
    } else if bytes >= 1024 {
        fixed1(f64_of(bytes as nat), 10) + " KB/s"@
    } else {
        dec(bytes as nat) + " B/s"@
    }
}

/// Memory in use, human-readable (`{:.1} MB`, `{:.0} KB` or `{} B`).
pub fn format_memory(bytes: u64) -> (r: String)
    ensures
        r@ == format_memory_spec(bytes),
{
    let v = if bytes >= 1048576 {
        scaled1(bytes, 20, " MB")
    } else if bytes >= 1024 {
        scaled0(bytes, 10, " KB")
    } else {
        plain(bytes, " B")
    };
    string_from_chars(v.as_slice())
}

/// A speed, human-readable (`{:.1} MB/s`, `{:.1} KB/s` or `{} B/s`).
pub fn format_speed(bytes: u64) -> (r: String)
    ensures
        r@ == format_speed_spec(bytes),
{
    let v = if bytes >= 1048576 {
        scaled1(bytes, 20, " MB/s")
    } else if bytes >= 1024 {
        scaled1(bytes, 10, " KB/s")
    } else {
        plain(bytes, " B/s")
    };
    string_from_chars(v.as_slice())
}

/// The first line of the status card: `mihomo <version>` while the core
/// runs, `Connected` while only the API answers, else `Starting...`.
pub fn status_headline(state: &AppState) -> (r: String)
    ensures
        state.core_running ==> r@ == "mihomo "@ + state.core_version@,
        !state.core_running && state.api_connected ==> r@ == "Connected"@,
        !state.core_running && !state.api_connected ==> r@ == "Starting..."@,
{
    if state.core_running {
        let mut v = chars_of("mihomo ");
        push_str(&mut v, state.core_version.as_str());
        string_from_chars(v.as_slice())
    } else if state.api_connected {
        owned("Connected")
    } else {
        owned("Starting...")
    }
}

/// The groups the proxy card lists: the first four by name, each with its
/// active member (`?` when none).
pub fn proxy_summary(state: &AppState) -> (r: Vec<(String, String)>)
    ensures
        r@.len() == (if state.proxy_groups@.dom().len() < 4 {
            state.proxy_groups@.dom().len() as int
        } else {
            4
        }),
        forall|i: int, j: int|
            0 <= i < j < r@.len() ==> crate::text::seq_lt(#[trigger] r@[i].0@, #[trigger] r@[j].0@),
        forall|i: int|
            0 <= i < r@.len() ==> state.proxy_groups@.dom().contains(#[trigger] r@[i].0@) && (
            match state.proxy_groups@[r@[i].0@].now {
                Some(n) => r@[i].1@ == n@,
                None => r@[i].1@ == "?"@,
            }),
        forall|k: Seq<char>|
            #[trigger] state.proxy_groups@.dom().contains(k) && (forall|j: int|
                0 <= j < r@.len() ==> !crate::text::seq_lt(k, #[trigger] r@[j].0@) && k
                    != r@[j].0@) ==> r@.len() == 4,
{
    let all = state.proxy_groups.sorted_entries();
    let mut r: Vec<(String, String)> = Vec::new();
    let mut i: usize = 0;
    while i < all.len() && i < 4
        invariant
            0 <= i <= all@.len(),
            i <= 4,
            r@.len() == i,
            all@.len() == state.proxy_groups@.dom().len(),
            forall|a: int, b: int|
                0 <= a < b < all@.len() ==> crate::text::seq_lt(#[trigger] all@[a].key@, #[trigger] all@[b].key@),
            forall|a: int|
                0 <= a < all@.len() ==> state.proxy_groups@.dom().contains(#[trigger] all@[a].key@)
                    && state.proxy_groups@[all@[a].key@] == all@[a].group@,
            forall|a: int| 0 <= a < i ==> (#[trigger] r@[a]).0@ == all@[a].key@ && (match all@[a].group.now {
                Some(n) => r@[a].1@ == n@,
                None => r@[a].1@ == "?"@,
            }),
        decreases all.len() - i,
    {
        let e: &NamedEntry<ProxyGroup> = all[i];
        let current = match &e.group.now {
            Some(n) => n.clone(),
            None => owned("?"),
        };
        r.push((e.key.clone(), current));
        i = i + 1;
    }
    proof {
        assert forall|k: Seq<char>|
            #[trigger] state.proxy_groups@.dom().contains(k) && (forall|j: int|
                0 <= j < r@.len() ==> !crate::text::seq_lt(k, #[trigger] r@[j].0@) && k
                    != r@[j].0@) implies r@.len() == 4 by {
            if r@.len() < 4 {
                let a = choose|a: int| 0 <= a < all@.len() && #[trigger] all@[a].key@ == k;
                assert(a < r@.len());
                assert(r@[a].0@ == k);
            }
        }
    }
    r
}

/// The line under the proxy card when more groups exist than it lists:
/// `... and <n> more`.
pub fn summary_more(group_count: usize) -> (r: Option<String>)
    ensures
        group_count > 4 ==> r is Some && r->0@ == "... and "@ + dec((group_count - 4) as nat) + " more"@,
        group_count <= 4 ==> r is None,
{
    if group_count > 4 {
        let mut v = chars_of("... and ");
        let d = u64_to_dec((group_count - 4) as u64);
        push_chars(&mut v, d.as_slice());
        push_str(&mut v, " more");
        Some(string_from_chars(v.as_slice()))
    } else {
        None
    }
}

/// The sparkline's samples: the history in KiB, or a single 0 when empty.
pub fn sparkline_data(history: &Vec<u64>) -> (r: Vec<u64>)
    ensures
        history@.len() == 0 ==> r@ == seq![0u64],
        history@.len() > 0 ==> r@.len() == history@.len() && forall|i: int|
            0 <= i < r@.len() ==> #[trigger] r@[i] == history@[i] / 1024,
{
    let mut r: Vec<u64> = Vec::new();
    if history.len() == 0 {
        r.push(0);
        assert(r@ =~= seq![0u64]);
        return r;
    }
    let mut i: usize = 0;
    while i < history.len()
        invariant
            0 <= i <= history@.len(),
            r@.len() == i,
            forall|a: int| 0 <= a < i ==> #[trigger] r@[a] == history@[a] / 1024,
        decreases history.len() - i,
    {
        r.push(history[i] / 1024);
        i = i + 1;
    }
    r
}


/// The counts line of the status card: `<n> groups  <n> rules  <n> logs`.
pub fn data_summary(state: &AppState) -> (r: String)
    ensures
        r@ == dec(state.proxy_groups@.dom().len()) + " groups  "@ + dec(state.rules@.len())
            + " rules  "@ + dec(state.logs@.len()) + " logs"@,
{

    let g = u64_to_dec(state.proxy_groups.len() as u64);
    let mut v = g;
    push_str(&mut v, " groups  ");
    let r = u64_to_dec(state.rules.len() as u64);
    push_chars(&mut v, r.as_slice());
    push_str(&mut v, " rules  ");
    let l = u64_to_dec(state.logs.len() as u64);
    push_chars(&mut v, l.as_slice());
    push_str(&mut v, " logs");
    string_from_chars(v.as_slice())
}

/// The title of a traffic sparkline: ` <label>: <speed>/s ` (the speed
/// text already ends in `/s`).
pub fn sparkline_title(label: &str, speed: u64) -> (r: String)
    ensures
        r@ == " "@ + label@ + ": "@ + format_speed_spec(speed) + "/s "@,
{
    let mut v = chars_of(" ");
    push_str(&mut v, label);
    push_str(&mut v, ": ");
    let s = format_speed(speed);
    push_str(&mut v, s.as_str());
    push_str(&mut v, "/s ");
    string_from_chars(v.as_slice())
}

/// The colour of a mode: rule info, global warning, direct success, others
/// the text colour.
pub fn mode_color(mode: &str, theme: &crate::ui::theme::Theme) -> (r: crate::ui::theme::Color)
    ensures
        r == (if mode@ == "rule"@ {
            theme.info
        } else if mode@ == "global"@ {
            theme.warning
        } else if mode@ == "direct"@ {
            theme.success
        } else {
            theme.fg
        }),
{
    let m = chars_of(mode);
    if chars_eq_str(m.as_slice(), "rule") {
        theme.info
    } else if chars_eq_str(m.as_slice(), "global") {
        theme.warning
    } else if chars_eq_str(m.as_slice(), "direct") {
        theme.success
    } else {
        theme.fg
    }
}

/// On the dashboard, `m` asks for the next mode in the order rule, global,
/// direct, rule: from `rule` it sets `global`, from `global` it sets
/// `direct`, and from `direct` (or any other mode) it sets `rule`.
pub proof fn law_m_key_mode_order(key: KeyEvent, mode: Seq<char>, r: Seq<Action>)
    requires
        key.code == KeyCode::Char('m'),
        dashboard_key_spec(key, mode, r),
    ensures
        r.len() == 1,
        mode == "rule"@ ==> (r[0] matches Action::SetClashMode(m) && m@ == "global"@),
        mode == "global"@ ==> (r[0] matches Action::SetClashMode(m) && m@ == "direct"@),
        mode != "rule"@ && mode != "global"@ ==> (r[0] matches Action::SetClashMode(m) && m@
            == "rule"@),
{
    reveal_strlit("rule");
    reveal_strlit("global");
    assert("rule"@.len() != "global"@.len());
}

/// On the dashboard, `1`, `2` and `3` set the mode to rule, global and
/// direct, whatever the mode is.
pub proof fn law_digit_keys_set_mode(key: KeyEvent, mode: Seq<char>, r: Seq<Action>)
    requires
        dashboard_key_spec(key, mode, r),
    ensures
        key.code == KeyCode::Char('1') ==> r.len() == 1 && (r[0] matches Action::SetClashMode(m)
            && m@ == "rule"@),
        key.code == KeyCode::Char('2') ==> r.len() == 1 && (r[0] matches Action::SetClashMode(m)
            && m@ == "global"@),
        key.code == KeyCode::Char('3') ==> r.len() == 1 && (r[0] matches Action::SetClashMode(m)
            && m@ == "direct"@),
        key.code == KeyCode::Char('R') ==> r == seq![Action::RestartMihomo],
{
}

/// Pressing `m` three times from rule, global or direct comes back to it
/// (rule, global, direct, rule); any other mode goes to rule.
pub proof fn law_mode_cycle(mode: Seq<char>)
    ensures
        (mode == "rule"@ || mode == "global"@ || mode == "direct"@) ==> next_mode(
            next_mode(next_mode(mode)),
        ) == mode,
        !(mode == "rule"@ || mode == "global"@ || mode == "direct"@) ==> next_mode(mode)
            == "rule"@,
{
    reveal_strlit("rule");
    reveal_strlit("global");
    reveal_strlit("direct");
    assert("global"@[0] != "direct"@[0]);
    assert("rule"@.len() != "global"@.len());
}

} // verus!
