//! System proxy: what the operating system is told, and the state the
//! client keeps of it. Windows keeps it in the registry (Internet Settings);
//! elsewhere a shell file of `export` lines is written for the user to
//! source. Reading and writing those is done by the caller.
use vstd::prelude::*;

use crate::text::{
    chars_of, copy_range, dec, last_index_of, owned, parse_u16, parse_u16_spec, push_chars, push_str,
    rfind_char, string_from_chars, strip_prefix_all, strip_prefix_all_str, u64_to_dec,
};

verus! {

/// The system proxy as the client sees it.
#[derive(Debug, Clone)]
pub struct ProxyState {
    pub enabled: bool,
    pub host: String,
    pub port: u16,
    pub bypass: String,
}

/// What `set_system_proxy` is asked to write.
#[derive(Debug, Clone)]
pub struct SystemProxySettings {
    pub enable: bool,
    pub host: String,
    pub port: u16,
    pub bypass: String,
}

/// The registry values (`ProxyEnable`, `ProxyServer`, `ProxyOverride`) as
/// read, each already defaulted to 0 or "" when missing.
#[derive(Debug, Clone)]
pub struct RegistryProxyValues {
    pub enable: u32,
    pub server: String,
    pub bypass: String,
}

/// `host:port`.
pub open spec fn address_of(host: Seq<char>, port: u16) -> Seq<char> {
    host + seq![':'] + dec(port as nat)
}

/// The host and port a proxy server string names: an empty string means
/// `127.0.0.1:7890`; leading `http://` and then `https://` prefixes are
/// dropped; the part after the last `:` is the port (7890 when it does
/// not parse); without `:` the whole string is the host.
pub open spec fn host_port_of(server: Seq<char>) -> (Seq<char>, u16) {
    if server.len() == 0 {
        (seq!['1', '2', '7', '.', '0', '.', '0', '.', '1'], 7890)
    } else {
        let s = strip_prefix_all(strip_prefix_all(server, "http://"@), "https://"@);
        match last_index_of(s, ':') {
            Some(c) => (
                s.subrange(0, c),
                match parse_u16_spec(s.subrange(c + 1, s.len() as int)) {
                    Some(p) => p,
                    None => 7890,
                },
            ),
            None => (s, 7890),
        }
    }
}

/// Parses `host:port` or `host` from a proxy server string.
pub fn parse_host_port(server: &str) -> (r: (String, u16))
    ensures
        (r.0@, r.1) == host_port_of(server@),
{
    proof {
        reveal_strlit("127.0.0.1");
    }
    let sc = chars_of(server);
    if sc.len() == 0 {
        return (owned("127.0.0.1"), 7890);
    }
    let a = strip_prefix_all_str(sc.as_slice(), "http://");
    let s = strip_prefix_all_str(a.as_slice(), "https://");
    match rfind_char(s.as_slice(), ':') {
        Some(c) => {
            assert(c < s@.len());
            let host = copy_range(s.as_slice(), 0, c);
            let rest = copy_range(s.as_slice(), c + 1, s.len());
            let port = match parse_u16(rest.as_slice()) {
                Some(p) => p,
                None => 7890,
            };
            (string_from_chars(host.as_slice()), port)
        },
        None => (string_from_chars(s.as_slice()), 7890),
    }
}

/// The content of the shell file written in place of a system proxy where
/// there is no registry: `export` lines for `http://host:port`, or `unset`
/// lines.
pub open spec fn proxy_env_script_spec(enable: bool, host: Seq<char>, port: u16) -> Seq<char> {
    let addr = "http://"@ + address_of(host, port);
    if enable {
        "export HTTP_PROXY="@ + addr + "\nexport HTTPS_PROXY="@ + addr + "\nexport ALL_PROXY="@
            + addr + "\n"@
    } else {
        "unset HTTP_PROXY\nunset HTTPS_PROXY\nunset ALL_PROXY\n"@
    }
}

/// The address `host:port` as characters.
fn address_chars(host: &str, port: u16) -> (r: Vec<char>)
    ensures
        r@ == address_of(host@, port),
{
    let mut v = chars_of(host);
    v.push(':');
    let d = u64_to_dec(port as u64);
    push_chars(&mut v, d.as_slice());
    v
}

/// The shell file that stands for the system proxy off Windows.
pub fn proxy_env_script(settings: &SystemProxySettings) -> (r: String)
    ensures
        r@ == proxy_env_script_spec(settings.enable, settings.host@, settings.port),
{
    if settings.enable {
        let mut addr = chars_of("http://");
        let a = address_chars(settings.host.as_str(), settings.port);
        push_chars(&mut addr, a.as_slice());
        let mut v = chars_of("export HTTP_PROXY=");
        push_chars(&mut v, addr.as_slice());
        push_str(&mut v, "\nexport HTTPS_PROXY=");
        push_chars(&mut v, addr.as_slice());
        push_str(&mut v, "\nexport ALL_PROXY=");
        push_chars(&mut v, addr.as_slice());
        push_str(&mut v, "\n");
        string_from_chars(v.as_slice())
    } else {
        owned("unset HTTP_PROXY\nunset HTTPS_PROXY\nunset ALL_PROXY\n")
    }
}

/// The registry's `ProxyServer` value for the given settings: `host:port`.
pub fn proxy_server_value(settings: &SystemProxySettings) -> (r: String)
    ensures
        r@ == address_of(settings.host@, settings.port),
{
    let v = address_chars(settings.host.as_str(), settings.port);
    string_from_chars(v.as_slice())
}

/// The state that registry values describe.
pub open spec fn from_registry_spec(values: RegistryProxyValues) -> (bool, Seq<char>, u16, String) {
    (values.enable != 0, host_port_of(values.server@).0, host_port_of(values.server@).1, values.bypass)
}

/// The system proxy as the registry describes it, or the default where there
/// is no registry (`values` is `None`).
pub fn get_system_proxy(values: Option<RegistryProxyValues>) -> (r: ProxyState)
    ensures
        values is None ==> r.is_default(),
        values matches Some(v) ==> (r.enabled, r.host@, r.port, r.bypass) == from_registry_spec(v),
{
    match values {
        None => ProxyState::default(),
        Some(v) => {
            let (host, port) = parse_host_port(v.server.as_str());
            ProxyState { enabled: v.enable != 0, host, port, bypass: v.bypass }
        },
    }
}

impl ProxyState {
    /// Disabled, `127.0.0.1:7890`, bypassing `<local>`.
    pub open spec fn is_default(&self) -> bool {
        &&& !self.enabled
        &&& self.host@ == "127.0.0.1"@
        &&& self.port == 7890
        &&& self.bypass@ == "<local>"@
    }

    /// The proxy address, `host:port`.
    pub fn address(&self) -> (r: String)
        ensures
            r@ == address_of(self.host@, self.port),
    {
        let v = address_chars(self.host.as_str(), self.port);
        string_from_chars(v.as_slice())
    }

    /// What to write to turn the system proxy on at this address.
    pub fn enable(&self) -> (r: SystemProxySettings)
        ensures
            r.enable,
            r.host == self.host,
            r.port == self.port,
            r.bypass == self.bypass,
    {
        SystemProxySettings {
            enable: true,
            host: self.host.clone(),
            port: self.port,
            bypass: self.bypass.clone(),
        }
    }

    /// What to write to turn the system proxy off.
    pub fn disable(&self) -> (r: SystemProxySettings)
        ensures
            !r.enable,
            r.host@ == Seq::<char>::empty(),
            r.port == 0,
            r.bypass@ == Seq::<char>::empty(),
    {
        SystemProxySettings { enable: false, host: String::new(), port: 0, bypass: String::new() }
    }

    /// What a toggle writes: `disable()` when on, `enable()` when off.
    pub fn toggle_request(&self) -> (r: SystemProxySettings)
        ensures
            r.enable == !self.enabled,
            r.enable ==> r.host == self.host && r.port == self.port && r.bypass == self.bypass,
            !r.enable ==> r.host@ == Seq::<char>::empty() && r.port == 0 && r.bypass@
                == Seq::<char>::empty(),
    {
        if self.enabled {
            self.disable()
        } else {
            self.enable()
        }
    }

    /// Completes a toggle once `toggle_request()` was written with `outcome`:
    /// the state flips exactly when the write succeeded; the outcome is
    /// handed back.
    pub fn toggle(&mut self, outcome: Result<(), String>) -> (r: Result<(), String>)
        ensures
            r == outcome,
            final(self).enabled == (if outcome is Ok {
                !old(self).enabled
            } else {
                old(self).enabled
            }),
            final(self).host == old(self).host,
            final(self).port == old(self).port,
            final(self).bypass == old(self).bypass,
    {
        if outcome.is_ok() {
            self.enabled = !self.enabled;
        }
        outcome
    }

    /// The current system proxy: see `get_system_proxy`.
    pub fn detect(values: Option<RegistryProxyValues>) -> (r: ProxyState)
        ensures
            values is None ==> r.is_default(),
            values matches Some(v) ==> (r.enabled, r.host@, r.port, r.bypass)
                == from_registry_spec(v),
    {
        get_system_proxy(values)
    }
}

impl Default for ProxyState {
    fn default() -> (r: Self)
        ensures
            r.is_default(),
    {
        ProxyState {
            enabled: false,
            host: owned("127.0.0.1"),
            port: 7890,
            bypass: owned("<local>"),
        }
    }
}

} // verus!
