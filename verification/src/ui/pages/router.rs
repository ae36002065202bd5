//! The page router: one state per page and the page that is shown.
use vstd::prelude::*;

use crate::event::action::Action;
use crate::event::keymap::{KeyCode, KeyEvent};
use crate::state::store::AppState;
use crate::ui::pages::connections::{connections_key_spec, ConnectionsPage};
use crate::ui::pages::dashboard::{dashboard_key_spec, DashboardPage};
use crate::ui::pages::logs::{logs_key_spec, LogsPage};
use crate::ui::pages::proxies::{is_group_listing, proxies_key_spec, ProxiesPage};
use crate::ui::pages::rules::{rules_key_spec, RulesPage};
use crate::ui::pages::settings::{settings_key_spec, SettingsPage};
use crate::ui::pages::subscriptions::{subscriptions_key_spec, InputMode, SubscriptionsPage};
use crate::ui::pages::{page_after, page_before, PageId};

verus! {

/// Every page's state, and which page is shown.
#[derive(Debug)]
pub struct PageRouter {
    pub dashboard: DashboardPage,
    pub proxies: ProxiesPage,
    pub connections: ConnectionsPage,
    pub logs: LogsPage,
    pub rules: RulesPage,
    pub settings: SettingsPage,
    pub subscriptions: SubscriptionsPage,
    pub active: PageId,
}

/// Entering the logs page follows the bottom again.
pub open spec fn logs_entered(old: LogsPage, new: LogsPage) -> bool {
    &&& new.auto_scroll
    &&& new.scroll == usize::MAX
    &&& new.prev_count == old.prev_count
    &&& new.filter_level == old.filter_level
}

/// The pages other than `id` are as in `old`.
pub open spec fn others_same(old: PageRouter, new: PageRouter, id: PageId) -> bool {
    &&& id != PageId::Dashboard ==> new.dashboard == old.dashboard
    &&& id != PageId::Proxies ==> new.proxies == old.proxies
    &&& id != PageId::Connections ==> new.connections == old.connections
    &&& id != PageId::Logs ==> new.logs == old.logs
    &&& id != PageId::Rules ==> new.rules == old.rules
    &&& id != PageId::Settings ==> new.settings == old.settings
    &&& id != PageId::Subscriptions ==> new.subscriptions == old.subscriptions
}

/// Switching to `id`: nothing happens when it is shown already; otherwise
/// it is shown and entered (only the logs page reacts to that).
pub open spec fn switched(old: PageRouter, new: PageRouter, id: PageId) -> bool {
    if id == old.active {
        new == old
    } else {
        &&& new.active == id
        &&& others_same(old, new, PageId::Logs)
        &&& if id == PageId::Logs {
            logs_entered(old.logs, new.logs)
        } else {
            new.logs == old.logs
        }
    }
}

/// What a key does: the shown page handles it, as its own `handle_key`
/// says; the other pages and the choice of page stay.
pub open spec fn router_key_spec(
    old: PageRouter,
    new: PageRouter,
    key: KeyEvent,
    state: AppState,
    r: Seq<Action>,
) -> bool {
    &&& new.active == old.active
    &&& others_same(old, new, old.active)
    &&& match old.active {
        PageId::Dashboard => dashboard_key_spec(key, state.clash_mode@, r),
        PageId::Proxies => forall|s|
            is_group_listing(state.proxy_groups@, s) ==> proxies_key_spec(
                old.proxies,
                new.proxies,
                key,
                s,
                r,
            ),
        PageId::Connections => connections_key_spec(
            old.connections,
            new.connections,
            key,
            state.connections@,
            r,
        ),
        PageId::Logs => logs_key_spec(old.logs, new.logs, key, r),
        PageId::Rules => rules_key_spec(old.rules, new.rules, key, state.rules@, r),
        PageId::Settings => r == settings_key_spec(key),
        PageId::Subscriptions => subscriptions_key_spec(
            old.subscriptions,
            new.subscriptions,
            key,
            state.subscriptions@,
            r,
        ),
    }
}

impl PageRouter {
    /// All pages new, the dashboard shown.
    pub fn new() -> (r: Self)
        ensures
            r.active == PageId::Dashboard,
            r.proxies.group_index == 0 && r.proxies.proxy_index == 0,
            r.connections.selected == 0,
            r.logs.scroll == 0 && r.logs.auto_scroll && r.logs.prev_count == 0,
            r.logs.filter_level is None,
            r.rules.selected == 0,
            r.subscriptions.selected == 0,
            r.subscriptions.input_mode == InputMode::Browse,
            r.subscriptions.input_text@.len() == 0,
    {
        PageRouter {
            dashboard: DashboardPage::new(),
            proxies: ProxiesPage::new(),
            connections: ConnectionsPage::new(),
            logs: LogsPage::new(),
            rules: RulesPage::new(),
            settings: SettingsPage::new(),
            subscriptions: SubscriptionsPage::new(),
            active: PageId::Dashboard,
        }
    }

    /// The page shown.
    pub fn active_id(&self) -> (r: PageId)
        ensures
            r == self.active,
    {
        self.active
    }

    /// Shows page `id` (see `switched`).
    pub fn switch_to(&mut self, id: PageId)
        ensures
            switched(*old(self), *final(self), id),
    {
        if id != self.active {
            self.active = id;
            if id == PageId::Logs {
                self.logs.on_enter();
            }
        }
    }

    /// Shows the next page in tab order.
    pub fn next_page(&mut self)
        ensures
            switched(*old(self), *final(self), page_after(old(self).active)),
    {
        let next = self.active.next();
        self.switch_to(next);
    }

    /// Shows the previous page in tab order.
    pub fn prev_page(&mut self)
        ensures
            switched(*old(self), *final(self), page_before(old(self).active)),
    {
        let prev = self.active.prev();
        self.switch_to(prev);
    }

    /// The shown page takes every key: the subscriptions page while its
    /// input is open.
    pub open spec fn modal(&self) -> bool {
        self.active == PageId::Subscriptions && self.subscriptions.input_mode != InputMode::Browse
    }

    /// Whether the shown page takes every key (see `modal`).
    pub fn is_modal(&self) -> (r: bool)
        ensures
            r == self.modal(),
    {
        match self.active {
            PageId::Subscriptions => self.subscriptions.is_modal(),
            _ => false,
        }
    }

    /// The shown page has its own use for a key that is also bound
    /// globally: Left and Right on the proxies page (back to the groups,
    /// into the proxy list), `T` on the settings page (cycle the theme).
    pub open spec fn page_binds(&self, key: KeyEvent) -> bool {
        ||| self.active == PageId::Proxies && (key.code == KeyCode::Left || key.code
            == KeyCode::Right)
        ||| self.active == PageId::Settings && key.code == KeyCode::Char('T')
    }

    /// Whether the shown page has its own use for `key` (see `page_binds`).
    pub fn binds_key(&self, key: KeyEvent) -> (r: bool)
        ensures
            r == self.page_binds(key),
    {
        match self.active {
            PageId::Proxies => key.code == KeyCode::Left || key.code == KeyCode::Right,
            PageId::Settings => key.code == KeyCode::Char('T'),
            _ => false,
        }
    }

    /// Hands the key to the shown page (see `router_key_spec`).
    pub fn handle_key(&mut self, key: KeyEvent, state: &AppState) -> (r: Vec<Action>)
        ensures
            router_key_spec(*old(self), *final(self), key, *state, r@),
    {
        match self.active {
            PageId::Dashboard => self.dashboard.handle_key(key, state),
            PageId::Proxies => self.proxies.handle_key(key, state),
            PageId::Connections => self.connections.handle_key(key, state),
            PageId::Logs => self.logs.handle_key(key, state),
            PageId::Rules => self.rules.handle_key(key, state),
            PageId::Settings => self.settings.handle_key(key, state),
            PageId::Subscriptions => self.subscriptions.handle_key(key, state),
        }
    }

    /// The shown page's periodic work: none of the pages has any.
    pub fn tick(&mut self) -> (r: Vec<Action>)
        ensures
            r@.len() == 0,
            *final(self) == *old(self),
    {
        match self.active {
            PageId::Logs => self.logs.tick(),
            _ => Vec::new(),
        }
    }
}

} // verus!
