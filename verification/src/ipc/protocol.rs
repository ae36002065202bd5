//! The messages between client and daemon, and the API calls a request
//! names.
use vstd::prelude::*;

use crate::text::{chars_of, chars_eq_str, owned, push_str, string_from_chars};

verus! {

/// A JSON value, carried through as it is.
#[verifier::external_type_specification]
#[verifier::external_body]
pub struct ExJsonValue(serde_json::Value);

/// What the daemon reads of a request's `params` object: each string field
/// (and the `timeout` number) when present with that type.
#[derive(Debug, Clone)]
pub struct RequestParams {
    pub group: Option<String>,
    pub proxy: Option<String>,
    pub url: Option<String>,
    pub timeout: Option<u64>,
    pub id: Option<String>,
    pub mode: Option<String>,
    pub path: Option<String>,
}

/// A request: its number, the method it names and its parameters.
#[derive(Debug, Clone)]
pub struct IpcRequest {
    pub id: u64,
    pub method: String,
    pub params: RequestParams,
}

/// A response: the request's number and either the result or an error.
#[derive(Debug)]
pub struct IpcResponse {
    pub id: u64,
    pub ok: Option<serde_json::Value>,
    pub error: Option<String>,
}

/// The parameters as plain values.
pub struct ParamsView {
    pub group: Option<Seq<char>>,
    pub proxy: Option<Seq<char>>,
    pub url: Option<Seq<char>>,
    pub timeout: Option<u64>,
    pub id: Option<Seq<char>>,
    pub mode: Option<Seq<char>>,
    pub path: Option<Seq<char>>,
}

/// The characters of an optional string.
pub open spec fn opt_view(s: Option<String>) -> Option<Seq<char>> {
    match s {
        Some(v) => Some(v@),
        None => None,
    }
}

impl View for RequestParams {
    type V = ParamsView;

    open spec fn view(&self) -> ParamsView {
        ParamsView {
            group: opt_view(self.group),
            proxy: opt_view(self.proxy),
            url: opt_view(self.url),
            timeout: self.timeout,
            id: opt_view(self.id),
            mode: opt_view(self.mode),
            path: opt_view(self.path),
        }
    }
}

/// The API calls the daemon makes for its clients.
#[derive(Debug, Clone)]
pub enum IpcCall {
    GetProxies,
    SwitchProxy { group: String, proxy: String },
    GetTraffic,
    GetMemory,
    GetVersion,
    GetConfigs,
    TestLatency { proxy: String, url: String, timeout: u16 },
    GetConnections,
    CloseConnection(String),
    CloseAllConnections,
    GetLogs,
    GetRules,
    SetConfigMode(String),
    ReloadConfig(String),
    RefreshAll,
}

/// A call as plain values.
pub enum CallView {
    GetProxies,
    SwitchProxy { group: Seq<char>, proxy: Seq<char> },
    GetTraffic,
    GetMemory,
    GetVersion,
    GetConfigs,
    TestLatency { proxy: Seq<char>, url: Seq<char>, timeout: u16 },
    GetConnections,
    CloseConnection(Seq<char>),
    CloseAllConnections,
    GetLogs,
    GetRules,
    SetConfigMode(Seq<char>),
    ReloadConfig(Seq<char>),
    RefreshAll,
}

impl View for IpcCall {
    type V = CallView;

    open spec fn view(&self) -> CallView {
        match self {
            IpcCall::GetProxies => CallView::GetProxies,
            IpcCall::SwitchProxy { group, proxy } => CallView::SwitchProxy {
                group: group@,
                proxy: proxy@,
            },
            IpcCall::GetTraffic => CallView::GetTraffic,
            IpcCall::GetMemory => CallView::GetMemory,
            IpcCall::GetVersion => CallView::GetVersion,
            IpcCall::GetConfigs => CallView::GetConfigs,
            IpcCall::TestLatency { proxy, url, timeout } => CallView::TestLatency {
                proxy: proxy@,
                url: url@,
                timeout: *timeout,
            },
            IpcCall::GetConnections => CallView::GetConnections,
            IpcCall::CloseConnection(id) => CallView::CloseConnection(id@),
            IpcCall::CloseAllConnections => CallView::CloseAllConnections,
            IpcCall::GetLogs => CallView::GetLogs,
            IpcCall::GetRules => CallView::GetRules,
            IpcCall::SetConfigMode(m) => CallView::SetConfigMode(m@),
            IpcCall::ReloadConfig(p) => CallView::ReloadConfig(p@),
            IpcCall::RefreshAll => CallView::RefreshAll,
        }
    }
}

/// No parameters.
pub open spec fn no_params() -> ParamsView {
    ParamsView {
        group: None,
        proxy: None,
        url: None,
        timeout: None,
        id: None,
        mode: None,
        path: None,
    }
}

/// The method a call is sent under.
pub open spec fn method_of(c: CallView) -> Seq<char> {
    match c {
        CallView::GetProxies => "get_proxies"@,
        CallView::SwitchProxy { .. } => "switch_proxy"@,
        CallView::GetTraffic => "get_traffic"@,
        CallView::GetMemory => "get_memory"@,
        CallView::GetVersion => "get_version"@,
        CallView::GetConfigs => "get_configs"@,
        CallView::TestLatency { .. } => "test_latency"@,
        CallView::GetConnections => "get_connections"@,
        CallView::CloseConnection(_) => "close_connection"@,
        CallView::CloseAllConnections => "close_all_connections"@,
        CallView::GetLogs => "get_logs"@,
        CallView::GetRules => "get_rules"@,
        CallView::SetConfigMode(_) => "set_config_mode"@,
        CallView::ReloadConfig(_) => "reload_config"@,
        CallView::RefreshAll => "refresh_all"@,
    }
}

/// The parameters a call is sent with.
pub open spec fn params_of(c: CallView) -> ParamsView {
    match c {
        CallView::SwitchProxy { group, proxy } => ParamsView {
            group: Some(group),
            proxy: Some(proxy),
            ..no_params()
        },
        CallView::TestLatency { proxy, url, timeout } => ParamsView {
            proxy: Some(proxy),
            url: Some(url),
            timeout: Some(timeout as u64),
            ..no_params()
        },
        CallView::CloseConnection(id) => ParamsView { id: Some(id), ..no_params() },
        CallView::SetConfigMode(mode) => ParamsView { mode: Some(mode), ..no_params() },
        CallView::ReloadConfig(path) => ParamsView { path: Some(path), ..no_params() },
        _ => no_params(),
    }
}

/// An optional string, or `d` when it is missing.
pub open spec fn or_default(s: Option<Seq<char>>, d: Seq<char>) -> Seq<char> {
    match s {
        Some(v) => v,
        None => d,
    }
}

/// The call a method names, with its parameters read as the daemon reads
/// them: a missing string is "" (the mode `rule`, the URL
/// `https://www.gstatic.com/generate_204`), a missing timeout 5000, and a
/// timeout is cut to 16 bits (`as u16`). `None` for an unknown method.
pub open spec fn call_of(method: Seq<char>, p: ParamsView) -> Option<CallView> {
    if method == "get_proxies"@ {
        Some(CallView::GetProxies)
    } else if method == "switch_proxy"@ {
        Some(
            CallView::SwitchProxy {
                group: or_default(p.group, Seq::empty()),
                proxy: or_default(p.proxy, Seq::empty()),
            },
        )
    } else if method == "get_traffic"@ {
        Some(CallView::GetTraffic)
    } else if method == "get_memory"@ {
        Some(CallView::GetMemory)
    } else if method == "get_version"@ {
        Some(CallView::GetVersion)
    } else if method == "get_configs"@ {
        Some(CallView::GetConfigs)
    } else if method == "test_latency"@ {
        Some(
            CallView::TestLatency {
                proxy: or_default(p.proxy, Seq::empty()),
                url: or_default(p.url, "https://www.gstatic.com/generate_204"@),
                timeout: match p.timeout {
                    Some(t) => t as u16,
                    None => 5000,
                },
            },
        )
    } else if method == "get_connections"@ {
        Some(CallView::GetConnections)
    } else if method == "close_connection"@ {
        Some(CallView::CloseConnection(or_default(p.id, Seq::empty())))
    } else if method == "close_all_connections"@ {
        Some(CallView::CloseAllConnections)
    } else if method == "get_logs"@ {
        Some(CallView::GetLogs)
    } else if method == "get_rules"@ {
        Some(CallView::GetRules)
    } else if method == "set_config_mode"@ {
        Some(CallView::SetConfigMode(or_default(p.mode, "rule"@)))
    } else if method == "reload_config"@ {
        Some(CallView::ReloadConfig(or_default(p.path, Seq::empty())))
    } else if method == "refresh_all"@ {
        Some(CallView::RefreshAll)
    } else {
        None
    }
}

/// A string parameter, or `d` when it is missing.
fn param_or(s: Option<String>, d: &str) -> (r: String)
    ensures
        r@ == or_default(opt_view(s), d@),
{
    match s {
        Some(v) => v,
        None => owned(d),
    }
}

impl IpcResponse {
    /// A response carrying a result.
    pub fn success(id: u64, ok: serde_json::Value) -> (r: Self)
        ensures
            r.id == id,
            r.ok == Some(ok),
            r.error is None,
    {
        IpcResponse { id, ok: Some(ok), error: None }
    }

    /// A response carrying an error.
    pub fn failure(id: u64, error: String) -> (r: Self)
        ensures
            r.id == id,
            r.ok is None,
            r.error == Some(error),
    {
        IpcResponse { id, ok: None, error: Some(error) }
    }
}

impl IpcCall {
    /// The method this call is sent under.
    pub fn method(&self) -> (r: String)
        ensures
            r@ == method_of(self@),
    {
        match self {
            IpcCall::GetProxies => owned("get_proxies"),
            IpcCall::SwitchProxy { .. } => owned("switch_proxy"),
            IpcCall::GetTraffic => owned("get_traffic"),
            IpcCall::GetMemory => owned("get_memory"),
            IpcCall::GetVersion => owned("get_version"),
            IpcCall::GetConfigs => owned("get_configs"),
            IpcCall::TestLatency { .. } => owned("test_latency"),
            IpcCall::GetConnections => owned("get_connections"),
            IpcCall::CloseConnection(_) => owned("close_connection"),
            IpcCall::CloseAllConnections => owned("close_all_connections"),
            IpcCall::GetLogs => owned("get_logs"),
            IpcCall::GetRules => owned("get_rules"),
            IpcCall::SetConfigMode(_) => owned("set_config_mode"),
            IpcCall::ReloadConfig(_) => owned("reload_config"),
            IpcCall::RefreshAll => owned("refresh_all"),
        }
    }

    /// The parameters this call is sent with.
    pub fn params(&self) -> (r: RequestParams)
        ensures
            r@ == params_of(self@),
    {
        let none = RequestParams {
            group: None,
            proxy: None,
            url: None,
            timeout: None,
            id: None,
            mode: None,
            path: None,
        };
        match self {
            IpcCall::SwitchProxy { group, proxy } => RequestParams {
                group: Some(group.clone()),
                proxy: Some(proxy.clone()),
                ..none
            },
            IpcCall::TestLatency { proxy, url, timeout } => RequestParams {
                proxy: Some(proxy.clone()),
                url: Some(url.clone()),
                timeout: Some(*timeout as u64),
                ..none
            },
            IpcCall::CloseConnection(id) => RequestParams { id: Some(id.clone()), ..none },
            IpcCall::SetConfigMode(mode) => RequestParams { mode: Some(mode.clone()), ..none },
            IpcCall::ReloadConfig(path) => RequestParams { path: Some(path.clone()), ..none },
            _ => none,
        }
    }

    /// The request for this call under number `id`.
    pub fn request(&self, id: u64) -> (r: IpcRequest)
        ensures
            r.id == id,
            r.method@ == method_of(self@),
            r.params@ == params_of(self@),
    {
        IpcRequest { id, method: self.method(), params: self.params() }
    }
}

/// The call a request names (see `call_of`); an unknown method is the
/// error `Unknown method: <method>`.
pub fn decode_request(request: IpcRequest) -> (r: Result<IpcCall, String>)
    ensures
        call_of(request.method@, request.params@) matches Some(c) ==> (r matches Ok(k) && k@ == c),
        call_of(request.method@, request.params@) is None ==> (r matches Err(e) && e@
            == "Unknown method: "@ + request.method@),
{
    proof {
        lemma_methods_distinct();
        reveal_strlit("");
        assert(""@ =~= Seq::<char>::empty());
        reveal_strlit("get_proxies");
        reveal_strlit("switch_proxy");
        reveal_strlit("get_traffic");
        reveal_strlit("get_memory");
        reveal_strlit("get_version");
        reveal_strlit("get_configs");
        reveal_strlit("test_latency");
        reveal_strlit("get_connections");
        reveal_strlit("close_connection");
        reveal_strlit("close_all_connections");
        reveal_strlit("get_logs");
        reveal_strlit("get_rules");
        reveal_strlit("set_config_mode");
        reveal_strlit("reload_config");
        reveal_strlit("refresh_all");
    }
    let m = chars_of(request.method.as_str());
    let m = m.as_slice();
    let p = request.params;
    if chars_eq_str(m, "get_proxies") {
        Ok(IpcCall::GetProxies)
    } else if chars_eq_str(m, "switch_proxy") {
        Ok(IpcCall::SwitchProxy { group: param_or(p.group, ""), proxy: param_or(p.proxy, "") })
    } else if chars_eq_str(m, "get_traffic") {
        Ok(IpcCall::GetTraffic)
    } else if chars_eq_str(m, "get_memory") {
        Ok(IpcCall::GetMemory)
    } else if chars_eq_str(m, "get_version") {
        Ok(IpcCall::GetVersion)
    } else if chars_eq_str(m, "get_configs") {
        Ok(IpcCall::GetConfigs)
    } else if chars_eq_str(m, "test_latency") {
        let timeout: u16 = match p.timeout {
            Some(t) => #[verifier::truncate] (t as u16),
            None => 5000,
        };
        Ok(
            IpcCall::TestLatency {
                proxy: param_or(p.proxy, ""),
                url: param_or(p.url, "https://www.gstatic.com/generate_204"),
                timeout,
            },
        )
    } else if chars_eq_str(m, "get_connections") {
        Ok(IpcCall::GetConnections)
    } else if chars_eq_str(m, "close_connection") {
        Ok(IpcCall::CloseConnection(param_or(p.id, "")))
    } else if chars_eq_str(m, "close_all_connections") {
        Ok(IpcCall::CloseAllConnections)
    } else if chars_eq_str(m, "get_logs") {
        Ok(IpcCall::GetLogs)
    } else if chars_eq_str(m, "get_rules") {
        Ok(IpcCall::GetRules)
    } else if chars_eq_str(m, "set_config_mode") {
        Ok(IpcCall::SetConfigMode(param_or(p.mode, "rule")))
    } else if chars_eq_str(m, "reload_config") {
        Ok(IpcCall::ReloadConfig(param_or(p.path, "")))
    } else if chars_eq_str(m, "refresh_all") {
        Ok(IpcCall::RefreshAll)
    } else {
        let mut v: Vec<char> = Vec::new();
        push_str(&mut v, "Unknown method: ");
        push_str(&mut v, request.method.as_str());
        Err(string_from_chars(v.as_slice()))
    }
}

/// The method names differ from one another.
#[verifier::rlimit(40)]
proof fn lemma_methods_distinct()
    ensures
        "get_proxies"@ != "switch_proxy"@,
        "get_proxies"@ != "get_traffic"@,
        "get_proxies"@ != "get_memory"@,
        "get_proxies"@ != "get_version"@,
        "get_proxies"@ != "get_configs"@,
        "get_proxies"@ != "test_latency"@,
        "get_proxies"@ != "get_connections"@,
        "get_proxies"@ != "close_connection"@,
        "get_proxies"@ != "close_all_connections"@,
        "get_proxies"@ != "get_logs"@,
        "get_proxies"@ != "get_rules"@,
        "get_proxies"@ != "set_config_mode"@,
        "get_proxies"@ != "reload_config"@,
        "get_proxies"@ != "refresh_all"@,
        "switch_proxy"@ != "get_traffic"@,
        "switch_proxy"@ != "get_memory"@,
        "switch_proxy"@ != "get_version"@,
        "switch_proxy"@ != "get_configs"@,
        "switch_proxy"@ != "test_latency"@,
        "switch_proxy"@ != "get_connections"@,
        "switch_proxy"@ != "close_connection"@,
        "switch_proxy"@ != "close_all_connections"@,
        "switch_proxy"@ != "get_logs"@,
        "switch_proxy"@ != "get_rules"@,
        "switch_proxy"@ != "set_config_mode"@,
        "switch_proxy"@ != "reload_config"@,
        "switch_proxy"@ != "refresh_all"@,
        "get_traffic"@ != "get_memory"@,
        "get_traffic"@ != "get_version"@,
        "get_traffic"@ != "get_configs"@,
        "get_traffic"@ != "test_latency"@,
        "get_traffic"@ != "get_connections"@,
        "get_traffic"@ != "close_connection"@,
        "get_traffic"@ != "close_all_connections"@,
        "get_traffic"@ != "get_logs"@,
        "get_traffic"@ != "get_rules"@,
        "get_traffic"@ != "set_config_mode"@,
        "get_traffic"@ != "reload_config"@,
        "get_traffic"@ != "refresh_all"@,
        "get_memory"@ != "get_version"@,
        "get_memory"@ != "get_configs"@,
        "get_memory"@ != "test_latency"@,
        "get_memory"@ != "get_connections"@,
        "get_memory"@ != "close_connection"@,
        "get_memory"@ != "close_all_connections"@,
        "get_memory"@ != "get_logs"@,
        "get_memory"@ != "get_rules"@,
        "get_memory"@ != "set_config_mode"@,
        "get_memory"@ != "reload_config"@,
        "get_memory"@ != "refresh_all"@,
        "get_version"@ != "get_configs"@,
        "get_version"@ != "test_latency"@,
        "get_version"@ != "get_connections"@,
        "get_version"@ != "close_connection"@,
        "get_version"@ != "close_all_connections"@,
        "get_version"@ != "get_logs"@,
        "get_version"@ != "get_rules"@,
        "get_version"@ != "set_config_mode"@,
        "get_version"@ != "reload_config"@,
        "get_version"@ != "refresh_all"@,
        "get_configs"@ != "test_latency"@,
        "get_configs"@ != "get_connections"@,
        "get_configs"@ != "close_connection"@,
        "get_configs"@ != "close_all_connections"@,
        "get_configs"@ != "get_logs"@,
        "get_configs"@ != "get_rules"@,
        "get_configs"@ != "set_config_mode"@,
        "get_configs"@ != "reload_config"@,
        "get_configs"@ != "refresh_all"@,
        "test_latency"@ != "get_connections"@,
        "test_latency"@ != "close_connection"@,
        "test_latency"@ != "close_all_connections"@,
        "test_latency"@ != "get_logs"@,
        "test_latency"@ != "get_rules"@,
        "test_latency"@ != "set_config_mode"@,
        "test_latency"@ != "reload_config"@,
        "test_latency"@ != "refresh_all"@,
        "get_connections"@ != "close_connection"@,
        "get_connections"@ != "close_all_connections"@,
        "get_connections"@ != "get_logs"@,
        "get_connections"@ != "get_rules"@,
        "get_connections"@ != "set_config_mode"@,
        "get_connections"@ != "reload_config"@,
        "get_connections"@ != "refresh_all"@,
        "close_connection"@ != "close_all_connections"@,
        "close_connection"@ != "get_logs"@,
        "close_connection"@ != "get_rules"@,
        "close_connection"@ != "set_config_mode"@,
        "close_connection"@ != "reload_config"@,
        "close_connection"@ != "refresh_all"@,
        "close_all_connections"@ != "get_logs"@,
        "close_all_connections"@ != "get_rules"@,
        "close_all_connections"@ != "set_config_mode"@,
        "close_all_connections"@ != "reload_config"@,
        "close_all_connections"@ != "refresh_all"@,
        "get_logs"@ != "get_rules"@,
        "get_logs"@ != "set_config_mode"@,
        "get_logs"@ != "reload_config"@,
        "get_logs"@ != "refresh_all"@,
        "get_rules"@ != "set_config_mode"@,
        "get_rules"@ != "reload_config"@,
        "get_rules"@ != "refresh_all"@,
        "set_config_mode"@ != "reload_config"@,
        "set_config_mode"@ != "refresh_all"@,
        "reload_config"@ != "refresh_all"@,
{
    reveal_strlit("get_proxies");
    reveal_strlit("switch_proxy");
    reveal_strlit("get_traffic");
    reveal_strlit("get_memory");
    reveal_strlit("get_version");
    reveal_strlit("get_configs");
    reveal_strlit("test_latency");
    reveal_strlit("get_connections");
    reveal_strlit("close_connection");
    reveal_strlit("close_all_connections");
    reveal_strlit("get_logs");
    reveal_strlit("get_rules");
    reveal_strlit("set_config_mode");
    reveal_strlit("reload_config");
    reveal_strlit("refresh_all");
    assert("get_proxies"@.len() == 11);
    assert("switch_proxy"@.len() == 12);
    assert("get_traffic"@.len() == 11);
    assert("get_memory"@.len() == 10);
    assert("get_version"@.len() == 11);
    assert("get_configs"@.len() == 11);
    assert("test_latency"@.len() == 12);
    assert("get_connections"@.len() == 15);
    assert("close_connection"@.len() == 16);
    assert("close_all_connections"@.len() == 21);
    assert("get_logs"@.len() == 8);
    assert("get_rules"@.len() == 9);
    assert("set_config_mode"@.len() == 15);
    assert("reload_config"@.len() == 13);
    assert("refresh_all"@.len() == 11);
    assert("get_proxies"@[4] != "get_traffic"@[4]);
    assert("get_proxies"@[4] != "get_version"@[4]);
    assert("get_proxies"@[4] != "get_configs"@[4]);
    assert("get_proxies"@[0] != "refresh_all"@[0]);
    assert("switch_proxy"@[0] != "test_latency"@[0]);
    assert("get_traffic"@[4] != "get_version"@[4]);
    assert("get_traffic"@[4] != "get_configs"@[4]);
    assert("get_traffic"@[0] != "refresh_all"@[0]);
    assert("get_version"@[4] != "get_configs"@[4]);
    assert("get_version"@[0] != "refresh_all"@[0]);
    assert("get_configs"@[0] != "refresh_all"@[0]);
    assert("get_connections"@[0] != "set_config_mode"@[0]);
}

/// What the client sends, the daemon reads back as the same call.
pub proof fn law_decode_encode(c: CallView)
    ensures
        call_of(method_of(c), params_of(c)) == Some(c),
{
    lemma_methods_distinct();
    reveal_strlit("get_proxies");
    reveal_strlit("switch_proxy");
    reveal_strlit("get_traffic");
    reveal_strlit("get_memory");
    reveal_strlit("get_version");
    reveal_strlit("get_configs");
    reveal_strlit("test_latency");
    reveal_strlit("get_connections");
    reveal_strlit("close_connection");
    reveal_strlit("close_all_connections");
    reveal_strlit("get_logs");
    reveal_strlit("get_rules");
    reveal_strlit("set_config_mode");
    reveal_strlit("reload_config");
    reveal_strlit("refresh_all");
    match c {
        CallView::TestLatency { proxy, url, timeout } => {
            assert((timeout as u64) as u16 == timeout);
        },
        _ => {},
    }
}

} // verus!
