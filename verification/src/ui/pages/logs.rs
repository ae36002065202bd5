//! The mihomo log page: log lines, newest first, with a level filter.
use vstd::prelude::*;

use crate::event::action::Action;
use crate::event::keymap::{KeyCode, KeyEvent};
use crate::state::store::AppState;
use crate::text::{
    chars_eq_ignore_ascii_case, chars_eq_str, chars_of, eq_ignore_ascii_case, lowercase, owned, push_str,
    string_from_chars, to_lowercase, to_uppercase, uppercase,
};
use crate::ui::theme::{Color, Theme};
use crate::ui::pages::proxies::{is_down, is_up};
use crate::ui::pages::rules::{is_down_key, is_up_key};

verus! {

/// The log page's own state.
#[derive(Debug, Clone)]
pub struct LogsPage {
    /// First row shown; `usize::MAX` means "at the bottom".
    pub scroll: usize,
    pub auto_scroll: bool,
    /// How many entries the last render showed.
    pub prev_count: usize,
    /// Only entries of this level are shown, when set.
    pub filter_level: Option<String>,
}

/// The filter a key selects, if it selects one: `e` error, `w` warning,
/// `i` info.
pub open spec fn filter_of(key: KeyEvent) -> Option<Seq<char>> {
    if key.code == KeyCode::Char('e') {
        Some("error"@)
    } else if key.code == KeyCode::Char('w') {
        Some("warning"@)
    } else if key.code == KeyCode::Char('i') {
        Some("info"@)
    } else {
        None
    }
}

impl LogsPage {
    /// Following the bottom, at the top, no filter.
    pub fn new() -> (r: Self)
        ensures
            r.scroll == 0,
            r.auto_scroll,
            r.prev_count == 0,
            r.filter_level is None,
    {
        LogsPage { scroll: 0, auto_scroll: true, prev_count: 0, filter_level: None }
    }

    /// Down/`j` scrolls down one row; Up/`k` one row up and stops following;
    /// `e`, `w`, `i` filter to error, warning, info; `a` shows all; Home
    /// goes to the top and stops following; End goes to the bottom and
    /// follows again.
    pub fn handle_key(&mut self, key: KeyEvent, state: &AppState) -> (r: Vec<Action>)
        ensures
            logs_key_spec(*old(self), *final(self), key, r@),
    {
        if is_down_key(key) {
            self.scroll = self.scroll.saturating_add(1);
        } else if is_up_key(key) {
            self.scroll = self.scroll.saturating_sub(1);
            self.auto_scroll = false;
        } else if key.code == KeyCode::Char('e') {
            self.filter_level = Some(owned("error"));
        } else if key.code == KeyCode::Char('w') {
            self.filter_level = Some(owned("warning"));
        } else if key.code == KeyCode::Char('i') {
            self.filter_level = Some(owned("info"));
        } else if key.code == KeyCode::Char('a') {
            self.filter_level = None;
        } else if key.code == KeyCode::Home {
            self.scroll = 0;
            self.auto_scroll = false;
        } else if key.code == KeyCode::End {
            self.scroll = usize::MAX;
            self.auto_scroll = true;
        }
        Vec::new()
    }

    /// Nothing happens on a tick.
    pub fn tick(&mut self) -> (r: Vec<Action>)
        ensures
            r@.len() == 0,
            *final(self) == *old(self),
    {
        Vec::new()
    }

    /// Entering the page follows the bottom again.
    pub fn on_enter(&mut self)
        ensures
            final(self).auto_scroll,
            final(self).scroll == usize::MAX,
            final(self).prev_count == old(self).prev_count,
            final(self).filter_level == old(self).filter_level,
    {
        self.auto_scroll = true;
        self.scroll = usize::MAX;
    }

    /// Before drawing `count` entries: jump to the bottom when the count
    /// changed or the page follows the bottom; remember the count.
    pub fn sync_scroll(&mut self, count: usize)
        ensures
            final(self).scroll == (if count != old(self).prev_count || old(self).auto_scroll {
                usize::MAX as int
            } else {
                old(self).scroll as int
            }),
            final(self).prev_count == count,
            final(self).auto_scroll == old(self).auto_scroll,
            final(self).filter_level == old(self).filter_level,
    {
        if count != self.prev_count || self.auto_scroll {
            self.scroll = usize::MAX;
        }
        self.prev_count = count;
    }

    /// The positions of the entries shown: all, or those whose level equals
    /// the filter up to ASCII case; in order.
    pub fn visible_logs(&self, state: &AppState) -> (r: Vec<usize>)
        ensures
            forall|i: int, j: int| 0 <= i < j < r@.len() ==> #[trigger] r@[i] < #[trigger] r@[j],
            forall|i: int| 0 <= i < r@.len() ==> #[trigger] r@[i] < state.logs@.len(),
            forall|k: int|
                0 <= k < state.logs@.len() ==> (shown(self.filter_level, state.logs@[k].level@) <==> exists|i: int|
                    0 <= i < r@.len() && #[trigger] r@[i] == k),
    {
        let filter = match &self.filter_level {
            Some(f) => Some(chars_of(f.as_str())),
            None => None,
        };
        let mut r: Vec<usize> = Vec::new();
        let mut k: usize = 0;
        while k < state.logs.len()
            invariant
                0 <= k <= state.logs@.len(),
                filter is Some <==> self.filter_level is Some,
                filter is Some ==> filter->0@ == self.filter_level->0@,
                forall|i: int, j: int| 0 <= i < j < r@.len() ==> #[trigger] r@[i] < #[trigger] r@[j],
                forall|i: int| 0 <= i < r@.len() ==> #[trigger] r@[i] < k,
                forall|x: int|
                    0 <= x < k ==> (shown(self.filter_level, state.logs@[x].level@) <==> exists|i: int|
                        0 <= i < r@.len() && #[trigger] r@[i] == x),
            decreases state.logs.len() - k,
        {
            let keep = match &filter {
                Some(f) => {
                    let lvl = chars_of(state.logs[k].level.as_str());
                    chars_eq_ignore_ascii_case(lvl.as_slice(), f.as_slice())
                },
                None => true,
            };
            let ghost old_r = r@;
            if keep {
                r.push(k);
            }
            proof {
                assert forall|x: int|
                    0 <= x < k + 1 implies (shown(self.filter_level, state.logs@[x].level@) <==> exists|i: int|
                        0 <= i < r@.len() && #[trigger] r@[i] == x) by {
                    if x < k {
                        if exists|i: int| 0 <= i < r@.len() && #[trigger] r@[i] == x {
                            let i = choose|i: int| 0 <= i < r@.len() && #[trigger] r@[i] == x;
                            if i < old_r.len() {
                                assert(old_r[i] == x);
                            }
                        }
                        if exists|i: int| 0 <= i < old_r.len() && #[trigger] old_r[i] == x {
                            let i = choose|i: int| 0 <= i < old_r.len() && #[trigger] old_r[i] == x;
                            assert(r@[i] == x);
                        }
                    } else {
                        if keep {
                            assert(r@[r@.len() - 1] == x);
                        }
                    }
                }
            }
            k = k + 1;
        }
        r
    }

    /// The log page's identity.
    pub fn page_id(&self) -> (r: crate::ui::pages::PageId)
        ensures
            r == crate::ui::pages::PageId::Logs,
    {
        crate::ui::pages::PageId::Logs
    }
}

/// Whether an entry of the given level is shown under the filter.
pub open spec fn shown(filter: Option<String>, level: Seq<char>) -> bool {
    match filter {
        Some(f) => eq_ignore_ascii_case(level, f@),
        None => true,
    }
}

/// What a key does to the logs page: Down/`j` scrolls on, Up/`k` back
/// (leaving follow mode); `e`/`w`/`i` filter by level, `a` shows all; Home
/// jumps to the top, End to the bottom (following again). No actions.
pub open spec fn logs_key_spec(old: LogsPage, new: LogsPage, key: KeyEvent, r: Seq<Action>) -> bool {
    &&& r.len() == 0
    &&& is_down(key) ==> new.scroll == (if old.scroll < usize::MAX {
        old.scroll + 1
    } else {
        usize::MAX as int
    }) && new.auto_scroll == old.auto_scroll && new.filter_level == old.filter_level
    &&& !is_down(key) && is_up(key) ==> new.scroll == (if old.scroll > 0 {
        old.scroll - 1
    } else {
        0
    }) && !new.auto_scroll && new.filter_level == old.filter_level
    &&& filter_of(key) is Some ==> new.filter_level is Some && new.filter_level->0@ == filter_of(
        key,
    )->0 && new.scroll == old.scroll && new.auto_scroll == old.auto_scroll
    &&& key.code == KeyCode::Char('a') ==> new.filter_level is None && new.scroll == old.scroll
        && new.auto_scroll == old.auto_scroll
    &&& key.code == KeyCode::Home ==> new.scroll == 0 && !new.auto_scroll && new.filter_level
        == old.filter_level
    &&& key.code == KeyCode::End ==> new.scroll == usize::MAX && new.auto_scroll
        && new.filter_level == old.filter_level
    &&& !is_down(key) && !is_up(key) && filter_of(key) is None && key.code != KeyCode::Char('a')
        && key.code != KeyCode::Home && key.code != KeyCode::End ==> new.scroll == old.scroll
        && new.auto_scroll == old.auto_scroll && new.filter_level == old.filter_level
    &&& new.prev_count == old.prev_count
}


/// The prefix of a log line: the level in upper case in brackets, then a
/// space.
pub fn log_prefix(level: &str) -> (r: String)
    ensures
        r@ == "["@ + uppercase(level@) + "] "@,
{
    let u = to_uppercase(level);
    let mut v = chars_of("[");
    push_str(&mut v, u.as_str());
    push_str(&mut v, "] ");
    string_from_chars(v.as_slice())
}

/// The colour of a log level, compared in lower case: error, warning (or
/// warn), info, debug (the offline latency colour); others the text
/// colour.
pub fn level_color(level: &str, theme: &Theme) -> (r: Color)
    ensures
        r == (if lowercase(level@) == "error"@ {
            theme.error
        } else if lowercase(level@) == "warning"@ || lowercase(level@) == "warn"@ {
            theme.warning
        } else if lowercase(level@) == "info"@ {
            theme.info
        } else if lowercase(level@) == "debug"@ {
            theme.latency_offline
        } else {
            theme.fg
        }),
{
    let l = to_lowercase(level);
    let c = chars_of(l.as_str());
    let c = c.as_slice();
    if chars_eq_str(c, "error") {
        theme.error
    } else if chars_eq_str(c, "warning") || chars_eq_str(c, "warn") {
        theme.warning
    } else if chars_eq_str(c, "info") {
        theme.info
    } else if chars_eq_str(c, "debug") {
        theme.latency_offline
    } else {
        theme.fg
    }
}

/// The title of the log list: ` Mihomo Logs (<n>)`, the filter as
/// ` (filter: <level>) ` when there is one, then ` [auto]` or ` [manual]`
/// and ` (from mihomo.log) `.
pub fn logs_title(count: usize, filter: &Option<String>, auto_scroll: bool) -> (r: String)
    ensures
        r@ == " Mihomo Logs ("@ + crate::text::dec(count as nat) + ")"@ + (match filter {
            Some(f) => " (filter: "@ + f@ + ") "@,
            None => Seq::empty(),
        }) + " "@ + (if auto_scroll {
            "[auto]"@
        } else {
            "[manual]"@
        }) + " (from mihomo.log) "@,
{
    let mut v = chars_of(" Mihomo Logs (");
    let n = crate::text::u64_to_dec(count as u64);
    crate::text::push_chars(&mut v, n.as_slice());
    push_str(&mut v, ")");
    match filter {
        Some(f) => {
            push_str(&mut v, " (filter: ");
            push_str(&mut v, f.as_str());
            push_str(&mut v, ") ");
        },
        None => {},
    }
    push_str(&mut v, " ");
    if auto_scroll {
        push_str(&mut v, "[auto]");
    } else {
        push_str(&mut v, "[manual]");
    }
    push_str(&mut v, " (from mihomo.log) ");
    string_from_chars(v.as_slice())
}

} // verus!
