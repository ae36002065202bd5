//! Data exchanged with the mihomo (Clash) REST API.
use vstd::prelude::*;

verus! {

/// Response from GET /proxies.
#[derive(Debug)]
pub struct ProxiesResponse {
    pub proxies: crate::clash::groups::ProxyGroupMap,
}

/// A proxy group or an individual proxy node: mihomo's /proxies response
/// gives groups (Selector, URLTest, ...) and nodes (ss, vmess, ...) the same
/// shape.
#[derive(Debug, Clone)]
pub struct ProxyGroup {
    pub name: String,
    pub group_type: String,
    pub now: Option<String>,
    pub all: Vec<String>,
    pub udp: bool,
    pub history: Option<Vec<LatencyRecord>>,
    pub hidden: bool,
}

/// What a proxy group holds, its lists taken as sequences.
pub ghost struct ProxyGroupView {
    pub name: String,
    pub group_type: String,
    pub now: Option<String>,
    pub all: Seq<String>,
    pub udp: bool,
    pub history: Option<Seq<LatencyRecord>>,
    pub hidden: bool,
}

impl View for ProxyGroup {
    type V = ProxyGroupView;

    open spec fn view(&self) -> ProxyGroupView {
        ProxyGroupView {
            name: self.name,
            group_type: self.group_type,
            now: self.now,
            all: self.all@,
            udp: self.udp,
            history: match self.history {
                Some(h) => Some(h@),
                None => None,
            },
            hidden: self.hidden,
        }
    }
}

/// A single proxy node.
#[derive(Debug, Clone)]
pub struct Proxy {
    pub name: String,
    pub proxy_type: String,
    pub udp: bool,
    pub history: Option<Vec<LatencyRecord>>,
    pub hidden: bool,
}

/// One entry of a proxy's latency history.
#[derive(Debug, Clone)]
pub struct LatencyRecord {
    pub time: String,
    pub delay: u64,
}

/// Response from GET /traffic.
#[derive(Debug, Clone, Copy, PartialEq, Eq)]
pub struct Traffic {
    pub up: u64,
    pub down: u64,
}

/// Response from GET /version.
#[derive(Debug, Clone)]
pub struct VersionInfo {
    pub version: String,
    pub meta: Option<bool>,
}

/// Response from GET /configs.
#[derive(Debug, Clone)]
pub struct ClashConfigs {
    pub mode: Option<String>,
    pub port: Option<u16>,
    pub socks_port: Option<u16>,
    pub mixed_port: Option<u16>,
    pub allow_lan: Option<bool>,
    pub log_level: Option<String>,
    pub tun: Option<TunConfig>,
}

/// The TUN part of /configs.
#[derive(Debug, Clone, Copy, PartialEq, Eq)]
pub struct TunConfig {
    pub enable: Option<bool>,
}

/// Response from GET /proxies/{name}/delay.
#[derive(Debug, Clone, Copy, PartialEq, Eq)]
pub struct LatencyResult {
    pub delay: u64,
}

/// Response from GET /connections.
#[derive(Debug, Clone)]
pub struct ConnectionsResponse {
    pub connections: Option<Vec<Connection>>,
    pub download_total: Option<u64>,
    pub upload_total: Option<u64>,
}

/// One active connection.
#[derive(Debug, Clone)]
pub struct Connection {
    pub id: String,
    pub metadata: Option<ConnectionMetadata>,
    pub upload: Option<u64>,
    pub download: Option<u64>,
    pub start: Option<String>,
    pub chains: Option<Vec<String>>,
    pub rule: Option<String>,
    pub rule_payload: Option<String>,
    pub host: Option<String>,
}

/// Where a connection goes and comes from.
#[derive(Debug, Clone)]
pub struct ConnectionMetadata {
    pub network: Option<String>,
    pub meta_type: Option<String>,
    pub source_ip: Option<String>,
    pub source_port: Option<String>,
    pub destination_ip: Option<String>,
    pub destination_port: Option<String>,
    pub host: Option<String>,
    pub dns_mode: Option<String>,
    pub process: Option<String>,
}

/// One log line of mihomo.
#[derive(Debug, Clone)]
pub struct LogEntry {
    pub level: String,
    pub payload: Option<String>,
}

/// Response from GET /rules.
#[derive(Debug, Clone)]
pub struct RulesResponse {
    pub rules: Option<Vec<Rule>>,
}

/// One routing rule.
#[derive(Debug, Clone)]
pub struct Rule {
    pub rule_type: String,
    pub payload: Option<String>,
    pub proxy: Option<String>,
}

/// A copy of an optional string.
pub fn clone_opt_string(s: &Option<String>) -> (r: Option<String>)
    ensures
        r == *s,
{
    match s {
        Some(v) => Some(v.clone()),
        None => None,
    }
}

/// A copy of a list of strings.
pub fn clone_strings(v: &Vec<String>) -> (r: Vec<String>)
    ensures
        r@ == v@,
{
    let mut r: Vec<String> = Vec::new();
    let mut i: usize = 0;
    while i < v.len()
        invariant
            0 <= i <= v@.len(),
            r@ == v@.subrange(0, i as int),
        decreases v.len() - i,
    {
        r.push(v[i].clone());
        i = i + 1;
        assert(r@ =~= v@.subrange(0, i as int));
    }
    assert(v@.subrange(0, v@.len() as int) =~= v@);
    r
}

impl LatencyRecord {
    /// A copy of the record.
    pub fn clone_record(&self) -> (r: LatencyRecord)
        ensures
            r == *self,
    {
        LatencyRecord { time: self.time.clone(), delay: self.delay }
    }
}

/// A copy of an optional latency history.
pub fn clone_history(h: &Option<Vec<LatencyRecord>>) -> (r: Option<Vec<LatencyRecord>>)
    ensures
        r is Some <==> h is Some,
        r is Some ==> r->0@ == h->0@,
{
    match h {
        None => None,
        Some(v) => {
            let mut r: Vec<LatencyRecord> = Vec::new();
            let mut i: usize = 0;
            while i < v.len()
                invariant
                    0 <= i <= v@.len(),
                    r@ == v@.subrange(0, i as int),
                decreases v.len() - i,
            {
                r.push(v[i].clone_record());
                i = i + 1;
                assert(r@ =~= v@.subrange(0, i as int));
            }
            assert(v@.subrange(0, v@.len() as int) =~= v@);
            assert(r@ == v@);
            Some(r)
        },
    }
}

} // verus!
