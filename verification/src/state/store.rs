//! The central application state and how refreshes and status messages
//! change it.
use vstd::prelude::*;

use crate::clash::groups::{LatencyCache, ProxyGroupMap};
use crate::clash::types::{Connection, LogEntry, Rule};
use crate::clash::RefreshData;
use crate::proxy::ProxyState;
use crate::subscription::Subscription;
use crate::text::{
    chars_of, contains_seq, contains_str, owned, string_from_chars, text_lines, text_lines_spec,
};
use crate::ui::pages::PageId;

verus! {

/// The number of speed samples kept (about a minute at the default rate).
pub const MAX_SAMPLES: usize = 60;

/// How many ticks a status message stays (about four seconds).
pub const STATUS_TICKS: u8 = 40;

/// Consecutive unreachable refreshes after which the API counts as gone.
pub const FAILURES_TO_DISCONNECT: u8 = 3;

/// Central application state.
#[derive(Debug)]
pub struct AppState {
    pub api_connected: bool,
    pub core_version: String,
    pub core_running: bool,
    pub clash_mode: String,
    pub tun_enabled: bool,
    pub memory_used_bytes: u64,
    pub upload_speed: u64,
    pub download_speed: u64,
    pub total_upload: u64,
    pub total_download: u64,
    pub active_conn_count: usize,
    pub proxy_groups: ProxyGroupMap,
    pub connections: Vec<Connection>,
    pub logs: Vec<LogEntry>,
    pub rules: Vec<Rule>,
    pub api_host: String,
    pub api_port: u16,
    /// Measured latencies (proxy name to milliseconds): mihomo does not keep
    /// the results of /delay in a proxy's history.
    pub latency_cache: LatencyCache,
    pub prev_traffic_up: u64,
    pub prev_traffic_down: u64,
    pub proxy_state: ProxyState,
    pub subscriptions: Vec<Subscription>,
    pub speed_history_up: Vec<u64>,
    pub speed_history_down: Vec<u64>,
    pub status_line: Option<String>,
    pub status_ttl: u8,
    pub active_page: PageId,
    pub show_help: bool,
    pub consecutive_failures: u8,
}

/// One step of the connection debounce: a reachable refresh connects at
/// once and clears the failure count; an unreachable one counts a failure
/// (the count stops at `u8::MAX`) and disconnects from the third on.
pub open spec fn link_step(connected: bool, running: bool, failures: u8, reachable: bool) -> (
    bool,
    bool,
    u8,
) {
    if reachable {
        (true, true, 0)
    } else {
        let f = if failures < 255 {
            (failures + 1) as u8
        } else {
            255u8
        };
        if f >= 3 {
            (false, false, f)
        } else {
            (connected, running, f)
        }
    }
}

/// `link_step` over a sequence of reachability answers.
pub open spec fn link_steps(connected: bool, running: bool, failures: u8, answers: Seq<bool>) -> (
    bool,
    bool,
    u8,
)
    decreases answers.len(),
{
    if answers.len() == 0 {
        (connected, running, failures)
    } else {
        let (c, r, f) = link_steps(connected, running, failures, answers.drop_last());
        link_step(c, r, f, answers.last())
    }
}

/// The speed shown for a cumulative counter: 0 on the first sample (the
/// previous upload counter is 0), else the growth since the previous
/// sample, 0 if the counter went down.
pub open spec fn speed_of(prev_up: u64, prev: u64, now: u64) -> u64 {
    if prev_up == 0 {
        0
    } else if now >= prev {
        (now - prev) as u64
    } else {
        0
    }
}

/// A history after one sample: appended, and the oldest sample dropped
/// once the upload history holds more than `MAX_SAMPLES`.
pub open spec fn history_step(h: Seq<u64>, up_len: nat, sample: u64) -> Seq<u64> {
    if up_len + 1 > 60 {
        h.push(sample).drop_first()
    } else {
        h.push(sample)
    }
}

/// The level a mihomo log line is shown with: `error`, `warning`, `debug`
/// or `info`, by the first of `ERROR`/`error`, `WARN`/`warn`,
/// `DEBUG`/`debug` it contains.
pub open spec fn log_level_of(line: Seq<char>) -> Seq<char> {
    if contains_seq(line, "ERROR"@) || contains_seq(line, "error"@) {
        "error"@
    } else if contains_seq(line, "WARN"@) || contains_seq(line, "warn"@) {
        "warning"@
    } else if contains_seq(line, "DEBUG"@) || contains_seq(line, "debug"@) {
        "debug"@
    } else {
        "info"@
    }
}

/// The entry a log line becomes.
pub open spec fn entry_for_line(e: LogEntry, line: Seq<char>) -> bool {
    &&& e.level@ == log_level_of(line)
    &&& e.payload is Some
    &&& e.payload->0@ == line
}

/// The level of a core log entry follows the words in its line: `error`
/// when the line holds `ERROR` or `error`; else `warning` when it holds
/// `WARN` or `warn`; else `debug` when it holds `DEBUG` or `debug`; else
/// `info`.
pub proof fn law_log_level_words(e: LogEntry, line: Seq<char>)
    requires
        entry_for_line(e, line),
    ensures
        contains_seq(line, "ERROR"@) || contains_seq(line, "error"@) ==> e.level@ == "error"@,
        !contains_seq(line, "ERROR"@) && !contains_seq(line, "error"@) && (contains_seq(
            line,
            "WARN"@,
        ) || contains_seq(line, "warn"@)) ==> e.level@ == "warning"@,
        !contains_seq(line, "ERROR"@) && !contains_seq(line, "error"@) && !contains_seq(
            line,
            "WARN"@,
        ) && !contains_seq(line, "warn"@) && (contains_seq(line, "DEBUG"@) || contains_seq(
            line,
            "debug"@,
        )) ==> e.level@ == "debug"@,
        !contains_seq(line, "ERROR"@) && !contains_seq(line, "error"@) && !contains_seq(
            line,
            "WARN"@,
        ) && !contains_seq(line, "warn"@) && !contains_seq(line, "DEBUG"@) && !contains_seq(
            line,
            "debug"@,
        ) ==> e.level@ == "info"@,
        e.payload matches Some(p) && p@ == line,
{
}

/// The non-empty lines of a mihomo log file.
pub open spec fn log_file_lines(content: Seq<char>) -> Seq<Seq<char>> {
    text_lines_spec(content).filter(|l: Seq<char>| l.len() > 0)
}

/// One entry for each non-empty line of a mihomo log file, its level by
/// `log_level_of` and the line as payload.
pub fn parse_mihomo_log(content: &str) -> (r: Vec<LogEntry>)
    ensures
        r@.len() == log_file_lines(content@).len(),
        forall|i: int|
            0 <= i < r@.len() ==> entry_for_line(#[trigger] r@[i], log_file_lines(content@)[i]),
{
    let lines = text_lines(content);
    let ghost all = text_lines_spec(content@);
    let ghost keep = |l: Seq<char>| l.len() > 0;
    let mut out: Vec<LogEntry> = Vec::new();
    let mut i: usize = 0;
    assert(all.subrange(0, 0).filter(keep) =~= Seq::<Seq<char>>::empty());
    while i < lines.len()
        invariant
            0 <= i <= lines@.len(),
            lines@.len() == all.len(),
            all == text_lines_spec(content@),
            keep == (|l: Seq<char>| l.len() > 0),
            forall|k: int| 0 <= k < lines@.len() ==> #[trigger] lines@[k]@ == all[k],
            out@.len() == all.subrange(0, i as int).filter(keep).len(),
            forall|k: int|
                0 <= k < out@.len() ==> entry_for_line(
                    #[trigger] out@[k],
                    all.subrange(0, i as int).filter(keep)[k],
                ),
        decreases lines.len() - i,
    {
        let ghost pre = all.subrange(0, i as int);
        let ghost post = all.subrange(0, i + 1);
        proof {
            assert(post =~= pre.push(all[i as int]));
            pre.lemma_filter_push(all[i as int], keep);
        }
        let line = chars_of(lines[i].as_str());
        if line.len() > 0 {
            let level = if contains_str(line.as_slice(), "ERROR") || contains_str(
                line.as_slice(),
                "error",
            ) {
                owned("error")
            } else if contains_str(line.as_slice(), "WARN") || contains_str(
                line.as_slice(),
                "warn",
            ) {
                owned("warning")
            } else if contains_str(line.as_slice(), "DEBUG") || contains_str(
                line.as_slice(),
                "debug",
            ) {
                owned("debug")
            } else {
                owned("info")
            };
            out.push(LogEntry { level, payload: Some(string_from_chars(line.as_slice())) });
        }
        i = i + 1;
    }
    assert(all.subrange(0, all.len() as int) =~= all);
    out
}

/// What one refresh makes of the state `old` (see `AppState::apply_refresh`).
pub open spec fn refreshed(
    old: AppState,
    new: AppState,
    data: RefreshData,
    mihomo_log: Option<String>,
) -> bool {
    &&& new.proxy_groups == data.proxy_groups
    &&& new.memory_used_bytes == data.memory
    &&& new.clash_mode == data.mode
    &&& new.tun_enabled == data.tun_enabled
    &&& new.upload_speed == speed_of(
        old.prev_traffic_up,
        old.prev_traffic_up,
        data.upload_speed,
    )
    &&& new.download_speed == speed_of(
        old.prev_traffic_up,
        old.prev_traffic_down,
        data.download_speed,
    )
    &&& new.prev_traffic_up == data.upload_speed
    &&& new.prev_traffic_down == data.download_speed
    &&& new.total_upload == data.upload_speed
    &&& new.total_download == data.download_speed
    &&& new.active_conn_count == data.active_conn_count
    &&& new.core_version == (if data.core_version@.len() > 0 {
        data.core_version
    } else {
        old.core_version
    })
    &&& new.connections == data.connections
    &&& data.logs@.len() > 0 ==> new.logs == data.logs
    &&& data.logs@.len() == 0 && mihomo_log is None ==> new.logs == old.logs
    &&& data.logs@.len() == 0 && mihomo_log is Some ==> new.logs@.len()
        == log_file_lines(mihomo_log->0@).len() && forall|i: int|
        0 <= i < new.logs@.len() ==> entry_for_line(
            #[trigger] new.logs@[i],
            log_file_lines(mihomo_log->0@)[i],
        )
    &&& new.rules == data.rules
    &&& (new.api_connected, new.core_running, new.consecutive_failures)
        == link_step(
        old.api_connected,
        old.core_running,
        old.consecutive_failures,
        data.api_reachable,
    )
    &&& new.speed_history_up@ == history_step(
        old.speed_history_up@,
        old.speed_history_up@.len(),
        new.upload_speed,
    )
    &&& new.speed_history_down@ == history_step(
        old.speed_history_down@,
        old.speed_history_up@.len(),
        new.download_speed,
    )
    &&& new.api_host == old.api_host
    &&& new.api_port == old.api_port
    &&& new.latency_cache == old.latency_cache
    &&& new.proxy_state == old.proxy_state
    &&& new.subscriptions == old.subscriptions
    &&& new.status_line == old.status_line
    &&& new.status_ttl == old.status_ttl
    &&& new.active_page == old.active_page
    &&& new.show_help == old.show_help
}

impl AppState {
    /// The speed histories have equal lengths of at most `MAX_SAMPLES`.
    pub open spec fn histories_ok(&self) -> bool {
        &&& self.speed_history_up@.len() == self.speed_history_down@.len()
        &&& self.speed_history_up@.len() <= 60
    }

    /// The state before anything is known.
    pub open spec fn is_initial(&self) -> bool {
        &&& self.is_fresh()
        &&& self.api_host@ == "127.0.0.1"@
        &&& self.api_port == 9090
        &&& self.proxy_state.is_default()
        &&& self.subscriptions@.len() == 0
    }

    /// Nothing heard from the API yet, no status, no samples, the dashboard
    /// shown (whatever the API address, system proxy and subscriptions).
    pub open spec fn is_fresh(&self) -> bool {
        &&& !self.api_connected
        &&& self.core_version@ == Seq::<char>::empty()
        &&& !self.core_running
        &&& self.clash_mode@ == "rule"@
        &&& !self.tun_enabled
        &&& self.memory_used_bytes == 0
        &&& self.upload_speed == 0
        &&& self.download_speed == 0
        &&& self.total_upload == 0
        &&& self.total_download == 0
        &&& self.active_conn_count == 0
        &&& self.proxy_groups@.dom().len() == 0
        &&& self.connections@.len() == 0
        &&& self.logs@.len() == 0
        &&& self.rules@.len() == 0
        &&& self.latency_cache@.dom().len() == 0
        &&& self.prev_traffic_up == 0
        &&& self.prev_traffic_down == 0
        &&& self.speed_history_up@.len() == 0
        &&& self.speed_history_down@.len() == 0
        &&& self.status_line is None
        &&& self.status_ttl == 0
        &&& self.active_page == PageId::Dashboard
        &&& !self.show_help
        &&& self.consecutive_failures == 0
    }

    /// Applies one refresh. Groups, memory, mode, TUN, connections, rules
    /// and the connection count are taken over. Traffic arrives as
    /// cumulative counters: the speeds become their growth since the last
    /// refresh (0 on the first), the totals the counters. The version is
    /// kept when the refresh brings none. Logs come from the refresh, or,
    /// when it has none, from the mihomo log file `mihomo_log` when it could
    /// be read. Connection status follows `link_step`. One speed sample is
    /// added to each history, which keep at most `MAX_SAMPLES`.
    pub fn apply_refresh(&mut self, data: RefreshData, mihomo_log: Option<String>)
        ensures
            refreshed(*old(self), *final(self), data, mihomo_log),
    {
        self.proxy_groups = data.proxy_groups;
        self.memory_used_bytes = data.memory;
        self.clash_mode = data.mode;
        self.tun_enabled = data.tun_enabled;
        if self.prev_traffic_up == 0 {
            self.upload_speed = 0;
            self.download_speed = 0;
        } else {
            self.upload_speed = data.upload_speed.saturating_sub(self.prev_traffic_up);
            self.download_speed = data.download_speed.saturating_sub(self.prev_traffic_down);
        }
        self.prev_traffic_up = data.upload_speed;
        self.prev_traffic_down = data.download_speed;
        self.total_upload = data.upload_speed;
        self.total_download = data.download_speed;
        self.active_conn_count = data.active_conn_count;
        if !data.core_version.as_str().is_empty() {
            self.core_version = data.core_version;
        }
        self.connections = data.connections;
        if !data.logs.is_empty() {
            self.logs = data.logs;
        } else {
            match mihomo_log {
                Some(content) => {
                    self.logs = parse_mihomo_log(content.as_str());
                },
                None => {},
            }
        }
        self.rules = data.rules;
        if data.api_reachable {
            self.api_connected = true;
            self.core_running = true;
            self.consecutive_failures = 0;
        } else {
            self.consecutive_failures = self.consecutive_failures.saturating_add(1);
            if self.consecutive_failures >= FAILURES_TO_DISCONNECT {
                self.api_connected = false;
                self.core_running = false;
            }
        }
        let up = self.upload_speed;
        let down = self.download_speed;
        self.speed_history_up.push(up);
        self.speed_history_down.push(down);
        if self.speed_history_up.len() > MAX_SAMPLES {
            self.speed_history_up.remove(0);
            self.speed_history_down.remove(0);
        }
    }

    /// Shows `msg` in the status bar for `STATUS_TICKS` ticks.
    pub fn set_status(&mut self, msg: String)
        ensures
            *final(self) == (AppState { status_line: Some(msg), status_ttl: 40, ..*old(self) }),
    {
        self.status_line = Some(msg);
        self.status_ttl = STATUS_TICKS;
    }

    /// Counts one tick down; the message clears when the count reaches 0.
    pub fn tick_status(&mut self)
        ensures
            *final(self) == (AppState {
                status_line: status_tick(old(self).status_line, old(self).status_ttl).0,
                status_ttl: status_tick(old(self).status_line, old(self).status_ttl).1,
                ..*old(self)
            }),
    {
        if self.status_ttl > 0 {
            self.status_ttl = self.status_ttl - 1;
            if self.status_ttl == 0 {
                self.status_line = None;
            }
        }
    }

    /// Marks the API and core as gone.
    pub fn set_disconnected(&mut self)
        ensures
            *final(self) == (AppState { api_connected: false, core_running: false, ..*old(self) }),
    {
        self.api_connected = false;
        self.core_running = false;
    }

    /// Where the subscription list is kept: `subscriptions.toml` in the
    /// config directory, or `~/.config/clash-tui/subscriptions.toml` when
    /// there is no config directory.
    pub fn subscriptions_path(config_dir: Option<&str>) -> (r: String)
        ensures
            config_dir matches Some(d) ==> r@ == crate::config::app_config::path_joined(
                d@,
                "subscriptions.toml"@,
            ),
            config_dir is None ==> r@ == "~/.config/clash-tui/subscriptions.toml"@,
    {
        match config_dir {
            Some(d) => crate::config::app_config::join_path(d, "subscriptions.toml"),
            None => owned("~/.config/clash-tui/subscriptions.toml"),
        }
    }
}

/// One status tick: a running count goes down, the line clears at 0.
pub open spec fn status_tick(line: Option<String>, ttl: u8) -> (Option<String>, u8) {
    if ttl > 0 {
        let t = (ttl - 1) as u8;
        (if t == 0 {
            None
        } else {
            line
        }, t)
    } else {
        (line, ttl)
    }
}

/// `n` status ticks.
pub open spec fn status_ticks(line: Option<String>, ttl: u8, n: nat) -> (Option<String>, u8)
    decreases n,
{
    if n == 0 {
        (line, ttl)
    } else {
        let (l, t) = status_ticks(line, ttl, (n - 1) as nat);
        status_tick(l, t)
    }
}

impl Default for AppState {
    fn default() -> (r: Self)
        ensures
            r.is_initial(),
            r.histories_ok(),
    {
        AppState {
            api_connected: false,
            core_version: String::new(),
            core_running: false,
            clash_mode: owned("rule"),
            tun_enabled: false,
            memory_used_bytes: 0,
            upload_speed: 0,
            download_speed: 0,
            total_upload: 0,
            total_download: 0,
            active_conn_count: 0,
            proxy_groups: ProxyGroupMap::new(),
            connections: Vec::new(),
            logs: Vec::new(),
            rules: Vec::new(),
            api_host: owned("127.0.0.1"),
            api_port: 9090,
            latency_cache: LatencyCache::new(),
            prev_traffic_up: 0,
            prev_traffic_down: 0,
            proxy_state: ProxyState::default(),
            subscriptions: Vec::new(),
            speed_history_up: Vec::new(),
            speed_history_down: Vec::new(),
            status_line: None,
            status_ttl: 0,
            active_page: PageId::Dashboard,
            show_help: false,
            consecutive_failures: 0,
        }
    }
}

// ---------------------------------------------------------------------------
// Laws
// ---------------------------------------------------------------------------
/// A reachable refresh marks the API connected and the core running at once.
pub proof fn law_reachable_connects(connected: bool, running: bool, failures: u8)
    ensures
        link_step(connected, running, failures, true) == (true, true, 0u8),
{
}

/// Three unreachable refreshes in a row mark the API disconnected, whatever
/// came before.
pub proof fn law_three_failures_disconnect(connected: bool, running: bool, failures: u8)
    ensures
        link_steps(connected, running, failures, seq![false, false, false]).0 == false,
        link_steps(connected, running, failures, seq![false, false, false]).1 == false,
{
    let s = seq![false, false, false];
    assert(s.drop_last() =~= seq![false, false]);
    assert(s.drop_last().drop_last() =~= seq![false]);
    assert(s.drop_last().drop_last().drop_last() =~= Seq::<bool>::empty());
    assert(seq![false].drop_last() =~= Seq::<bool>::empty());
    assert(seq![false, false].drop_last() =~= seq![false]);
    assert(link_steps(connected, running, failures, Seq::<bool>::empty()) == (connected, running, failures));
    let a = link_steps(connected, running, failures, seq![false]);
    assert(a == link_step(connected, running, failures, false));
    let b = link_steps(connected, running, failures, seq![false, false]);
    assert(b == link_step(a.0, a.1, a.2, false));
    let c = link_steps(connected, running, failures, s);
    assert(c == link_step(b.0, b.1, b.2, false));
}

/// Once disconnected, the API stays disconnected until a reachable refresh.
pub proof fn law_disconnected_until_reachable(running: bool, failures: u8, answers: Seq<bool>)
    requires
        forall|i: int| 0 <= i < answers.len() ==> !#[trigger] answers[i],
    ensures
        link_steps(false, running, failures, answers).0 == false,
    decreases answers.len(),
{
    if answers.len() > 0 {
        let t = answers.drop_last();
        assert forall|i: int| 0 <= i < t.len() implies !#[trigger] t[i] by {
            assert(t[i] == answers[i]);
        }
        law_disconnected_until_reachable(running, failures, t);
        assert(!answers[answers.len() - 1]);
    }
}

/// `k` unreachable answers.
pub open spec fn unreachable_answers(k: nat) -> Seq<bool> {
    Seq::new(k, |i: int| false)
}

/// After a reachable refresh followed by `k` unreachable ones, the API
/// shows as connected and the core as running exactly while `k < 3`, for
/// every `k`.
pub proof fn law_connected_while_under_three_failures(
    connected: bool,
    running: bool,
    failures: u8,
    k: nat,
)
    ensures
        link_steps(connected, running, failures, seq![true] + unreachable_answers(k)).0 == (k < 3),
        link_steps(connected, running, failures, seq![true] + unreachable_answers(k)).1 == (k < 3),
{
    lemma_after_failures(connected, running, failures, k);
}

proof fn lemma_after_failures(connected: bool, running: bool, failures: u8, k: nat)
    ensures
        link_steps(connected, running, failures, seq![true] + unreachable_answers(k)) == (
            k < 3,
            k < 3,
            (if k < 255 {
                k
            } else {
                255
            }) as u8,
        ),
    decreases k,
{
    let s = seq![true] + unreachable_answers(k);
    if k == 0 {
        assert(s =~= seq![true]);
        assert(seq![true].drop_last() =~= Seq::<bool>::empty());
    } else {
        lemma_after_failures(connected, running, failures, (k - 1) as nat);
        assert(s.drop_last() =~= seq![true] + unreachable_answers((k - 1) as nat));
        assert(s.last() == false);
    }
}

/// A single unreachable refresh after a reachable one does not disconnect:
/// a stale answer cannot undo a fresh "connected".
pub proof fn law_single_failure_tolerated()
    ensures
        link_steps(false, false, 0, seq![true, false]).0 == true,
        link_steps(false, false, 0, seq![true, false, false]).0 == true,
{
    assert(seq![true, false].drop_last() =~= seq![true]);
    assert(seq![true, false, false].drop_last() =~= seq![true, false]);
    assert(seq![true].drop_last() =~= Seq::<bool>::empty());
    reveal_with_fuel(link_steps, 4);
}

/// The speed histories keep equal lengths, never more than `MAX_SAMPLES`,
/// and grow by one sample per refresh until full.
pub proof fn law_history_bounded(up: Seq<u64>, down: Seq<u64>, su: u64, sd: u64)
    requires
        up.len() == down.len(),
        up.len() <= 60,
    ensures
        history_step(up, up.len(), su).len() == history_step(down, up.len(), sd).len(),
        history_step(up, up.len(), su).len() <= 60,
        up.len() < 60 ==> history_step(up, up.len(), su).len() == up.len() + 1,
        history_step(up, up.len(), su).last() == su,
        history_step(down, up.len(), sd).last() == sd,
{
}

/// Speeds are the growth of the cumulative counters between two refreshes.
pub proof fn law_speed_is_delta(prev_up: u64, prev: u64, now: u64)
    requires
        prev_up != 0,
        prev <= now,
    ensures
        speed_of(prev_up, prev, now) == now - prev,
{
}

/// A status message stays for exactly `STATUS_TICKS` ticks: it is shown
/// after 39 ticks and gone after 40.
pub proof fn law_status_lasts_forty_ticks(msg: String)
    ensures
        forall|n: nat| n < 40 ==> #[trigger] status_ticks(Some(msg), 40, n).0 == Some(msg),
        status_ticks(Some(msg), 40, 40).0 is None,
{
    assert forall|n: nat| n < 40 implies #[trigger] status_ticks(Some(msg), 40, n).0 == Some(msg)
        && status_ticks(Some(msg), 40, n).1 == 40 - n by {
        lemma_status_ticks(msg, n);
    }
    lemma_status_ticks(msg, 39);
}

proof fn lemma_status_ticks(msg: String, n: nat)
    requires
        n < 40,
    ensures
        status_ticks(Some(msg), 40, n) == (Some(msg), (40 - n) as u8),
    decreases n,
{
    if n > 0 {
        lemma_status_ticks(msg, (n - 1) as nat);
    }
}

} // verus!
