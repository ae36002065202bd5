//! The data model of the Clash API and what one refresh brings back.
pub mod client;
pub mod json;
pub mod groups;
pub mod types;

use vstd::prelude::*;

use crate::clash::groups::ProxyGroupMap;
use crate::clash::types::{ClashConfigs, Connection, LogEntry, Rule, Traffic, VersionInfo};

verus! {

/// Everything one refresh of the API brings back.
#[derive(Debug)]
pub struct RefreshData {
    pub proxy_groups: ProxyGroupMap,
    pub memory: u64,
    pub mode: String,
    /// Cumulative bytes sent, as /traffic reports them.
    pub upload_speed: u64,
    /// Cumulative bytes received, as /traffic reports them.
    pub download_speed: u64,
    pub active_conn_count: usize,
    pub core_version: String,
    pub connections: Vec<Connection>,
    pub logs: Vec<LogEntry>,
    pub rules: Vec<Rule>,
    pub api_reachable: bool,
    pub tun_enabled: bool,
}

impl RefreshData {
    /// Nothing known: no groups, zero counters, empty texts and lists, not
    /// reachable, TUN off.
    pub open spec fn is_empty_refresh(&self) -> bool {
        &&& self.proxy_groups@ == Map::<Seq<char>, crate::clash::types::ProxyGroupView>::empty()
        &&& self.memory == 0
        &&& self.mode@ == Seq::<char>::empty()
        &&& self.upload_speed == 0
        &&& self.download_speed == 0
        &&& self.active_conn_count == 0
        &&& self.core_version@ == Seq::<char>::empty()
        &&& self.connections@.len() == 0
        &&& self.logs@.len() == 0
        &&& self.rules@.len() == 0
        &&& !self.api_reachable
        &&& !self.tun_enabled
    }

    /// Combines the answers of one round of API requests, each `None` where
    /// its request failed: a failed request contributes its default (no
    /// groups, zero traffic and memory, mode `rule`, empty version and
    /// lists). The API counts as reachable when a version came back
    /// non-empty; TUN is on when /configs says so.
    pub fn from_responses(
        proxies: Option<ProxyGroupMap>,
        traffic: Option<Traffic>,
        memory: Option<u64>,
        configs: Option<ClashConfigs>,
        version: Option<VersionInfo>,
        connections: Option<Vec<Connection>>,
        logs: Option<Vec<LogEntry>>,
        rules: Option<Vec<Rule>>,
    ) -> (r: RefreshData)
        ensures
            proxies matches Some(p) ==> r.proxy_groups@ == p@,
            proxies is None ==> r.proxy_groups@ == Map::<
                Seq<char>,
                crate::clash::types::ProxyGroupView,
            >::empty(),
            r.upload_speed == (match traffic {
                Some(t) => t.up,
                None => 0,
            }),
            r.download_speed == (match traffic {
                Some(t) => t.down,
                None => 0,
            }),
            r.memory == (match memory {
                Some(m) => m,
                None => 0,
            }),
            r.mode@ == (match configs {
                Some(c) => match c.mode {
                    Some(m) => m@,
                    None => "rule"@,
                },
                None => "rule"@,
            }),
            r.tun_enabled == (match configs {
                Some(c) => match c.tun {
                    Some(t) => t.enable == Some(true),
                    None => false,
                },
                None => false,
            }),
            r.core_version@ == (match version {
                Some(v) => v.version@,
                None => Seq::<char>::empty(),
            }),
            r.api_reachable == (r.core_version@.len() > 0),
            r.connections@ == (match connections {
                Some(c) => c@,
                None => Seq::<Connection>::empty(),
            }),
            r.active_conn_count == r.connections@.len(),
            r.logs@ == (match logs {
                Some(l) => l@,
                None => Seq::<LogEntry>::empty(),
            }),
            r.rules@ == (match rules {
                Some(l) => l@,
                None => Seq::<Rule>::empty(),
            }),
    {
        let proxy_groups = match proxies {
            Some(p) => p,
            None => ProxyGroupMap::new(),
        };
        let traffic = match traffic {
            Some(t) => t,
            None => Traffic { up: 0, down: 0 },
        };
        let memory = match memory {
            Some(m) => m,
            None => 0,
        };
        let (mode, tun_enabled) = match configs {
            Some(c) => (
                match c.mode {
                    Some(m) => m,
                    None => crate::text::owned("rule"),
                },
                match c.tun {
                    Some(t) => match t.enable {
                        Some(e) => e,
                        None => false,
                    },
                    None => false,
                },
            ),
            None => (crate::text::owned("rule"), false),
        };
        let core_version = match version {
            Some(v) => v.version,
            None => String::new(),
        };
        let connections = match connections {
            Some(c) => c,
            None => Vec::new(),
        };
        let active_conn_count = connections.len();
        let logs = match logs {
            Some(l) => l,
            None => Vec::new(),
        };
        let rules = match rules {
            Some(l) => l,
            None => Vec::new(),
        };
        let api_reachable = !core_version.as_str().is_empty();
        RefreshData {
            proxy_groups,
            memory,
            mode,
            upload_speed: traffic.up,
            download_speed: traffic.down,
            active_conn_count,
            core_version,
            connections,
            logs,
            rules,
            api_reachable,
            tun_enabled,
        }
    }

    /// Marks the data reachable exactly when it carries a core version (the
    /// daemon client's rule).
    pub fn mark_reachability(&mut self)
        ensures
            final(self).api_reachable == (old(self).core_version@.len() > 0),
            final(self).core_version == old(self).core_version,
            final(self).proxy_groups == old(self).proxy_groups,
            final(self).memory == old(self).memory,
            final(self).mode == old(self).mode,
            final(self).upload_speed == old(self).upload_speed,
            final(self).download_speed == old(self).download_speed,
            final(self).active_conn_count == old(self).active_conn_count,
            final(self).connections == old(self).connections,
            final(self).logs == old(self).logs,
            final(self).rules == old(self).rules,
            final(self).tun_enabled == old(self).tun_enabled,
    {
        self.api_reachable = !self.core_version.as_str().is_empty();
    }
}

impl Default for RefreshData {
    fn default() -> (r: Self)
        ensures
            r.is_empty_refresh(),
    {
        RefreshData {
            proxy_groups: ProxyGroupMap::new(),
            memory: 0,
            mode: String::new(),
            upload_speed: 0,
            download_speed: 0,
            active_conn_count: 0,
            core_version: String::new(),
            connections: Vec::new(),
            logs: Vec::new(),
            rules: Vec::new(),
            api_reachable: false,
            tun_enabled: false,
        }
    }
}

} // verus!
