//! The rules page: the routing rules mihomo applies.
use vstd::prelude::*;

use crate::event::action::Action;
use crate::event::keymap::{KeyEvent};
use crate::state::store::AppState;
use crate::clash::types::Rule;
use crate::text::{chars_eq_str, chars_of, text_or, text_or_spec};
use crate::ui::theme::{Color, Theme};
use crate::ui::pages::proxies::{is_down, is_up, row_down, step_down};

verus! {

/// The rules page's own state: the selected row.
#[derive(Debug, Clone, Copy)]
pub struct RulesPage {
    pub selected: usize,
}

impl RulesPage {
    pub fn new() -> (r: Self)
        ensures
            r.selected == 0,
    {
        RulesPage { selected: 0 }
    }

    /// Down/`j` and Up/`k` move the selection within the rules.
    pub fn handle_key(&mut self, key: KeyEvent, state: &AppState) -> (r: Vec<Action>)
        ensures
            rules_key_spec(*old(self), *final(self), key, state.rules@, r@),
    {
        if is_down_key(key) {
            self.selected = row_down(self.selected, state.rules.len());
        } else if is_up_key(key) {
            self.selected = self.selected.saturating_sub(1);
        }
        Vec::new()
    }

    /// The rules page's identity.
    pub fn page_id(&self) -> (r: crate::ui::pages::PageId)
        ensures
            r == crate::ui::pages::PageId::Rules,
    {
        crate::ui::pages::PageId::Rules
    }
}

/// Whether the key is Down or `j`.
pub fn is_down_key(key: KeyEvent) -> (r: bool)
    ensures
        r == is_down(key),
{
    key.code == crate::event::keymap::KeyCode::Down || key.code == crate::event::keymap::KeyCode::Char('j')
}

/// Whether the key is Up or `k`.
pub fn is_up_key(key: KeyEvent) -> (r: bool)
    ensures
        r == is_up(key),
{
    key.code == crate::event::keymap::KeyCode::Up || key.code == crate::event::keymap::KeyCode::Char('k')
}

/// What a key does to the rules page: Down/`j` and Up/`k` move the
/// selection; no actions.
pub open spec fn rules_key_spec(
    old: RulesPage,
    new: RulesPage,
    key: KeyEvent,
    rules: Seq<Rule>,
    r: Seq<Action>,
) -> bool {
    &&& r.len() == 0
    &&& is_down(key) ==> new.selected == step_down(old.selected as int, rules.len() as int)
    &&& !is_down(key) && is_up(key) ==> new.selected == (if old.selected > 0 {
        old.selected - 1
    } else {
        0
    })
    &&& !is_down(key) && !is_up(key) ==> new.selected == old.selected
}


/// The cells of a rule's row: type, payload (or `-`), proxy (or `-`).
pub fn rule_row(rule: &Rule) -> (r: Vec<String>)
    ensures
        r@.len() == 3,
        r@[0] == rule.rule_type,
        r@[1]@ == text_or_spec(rule.payload, "-"@),
        r@[2]@ == text_or_spec(rule.proxy, "-"@),
{
    let mut r: Vec<String> = Vec::new();
    r.push(rule.rule_type.clone());
    r.push(text_or(&rule.payload, "-"));
    r.push(text_or(&rule.proxy, "-"));
    r
}

/// The colour of a rule type: DOMAIN info, DOMAIN-SUFFIX success,
/// DOMAIN-KEYWORD warning, IP-CIDR and IP-CIDR6 accent, GEOIP the middle
/// latency colour, MATCH error, others the text colour.
pub fn rule_type_color(rule_type: &str, theme: &Theme) -> (r: Color)
    ensures
        r == (if rule_type@ == "DOMAIN"@ {
            theme.info
        } else if rule_type@ == "DOMAIN-SUFFIX"@ {
            theme.success
        } else if rule_type@ == "DOMAIN-KEYWORD"@ {
            theme.warning
        } else if rule_type@ == "IP-CIDR"@ || rule_type@ == "IP-CIDR6"@ {
            theme.accent
        } else if rule_type@ == "GEOIP"@ {
            theme.latency_mid
        } else if rule_type@ == "MATCH"@ {
            theme.error
        } else {
            theme.fg
        }),
{
    let t = chars_of(rule_type);
    let t = t.as_slice();
    if chars_eq_str(t, "DOMAIN") {
        theme.info
    } else if chars_eq_str(t, "DOMAIN-SUFFIX") {
        theme.success
    } else if chars_eq_str(t, "DOMAIN-KEYWORD") {
        theme.warning
    } else if chars_eq_str(t, "IP-CIDR") || chars_eq_str(t, "IP-CIDR6") {
        theme.accent
    } else if chars_eq_str(t, "GEOIP") {
        theme.latency_mid
    } else if chars_eq_str(t, "MATCH") {
        theme.error
    } else {
        theme.fg
    }
}

} // verus!
