//! Subscriptions: the profiles the user follows, the body a download brings,
//! and the proxy entries a downloaded Clash config lists.
use base64::Engine;
use vstd::prelude::*;
use vstd::utf8::{decode_utf8, valid_utf8};

use crate::text::{chars_of, contains_seq, contains_str, is_whitespace, is_ws, string_from_chars};
use crate::yaml::{
    read_yaml, value_get, value_seq, value_str, value_u64, yaml_get, yaml_seq, yaml_str, yaml_u64,
    yaml_value_of, YamlValue,
};

verus! {

/// A subscription profile.
#[derive(Debug, Clone)]
pub struct Subscription {
    pub name: String,
    pub url: String,
    pub enabled: bool,
    pub last_updated: Option<String>,
}

/// A proxy entry parsed from a subscription config.
#[derive(Debug, Clone)]
pub struct ProxyEntry {
    pub name: String,
    pub proxy_type: String,
    pub server: String,
    pub port: u16,
}

/// One item of a config's proxy list, as the YAML reader found it: each
/// field is present when the item is a mapping holding that key with a
/// string (for `port`, an unsigned integer) value.
#[derive(Debug, Clone)]
pub struct YamlProxy {
    pub name: Option<String>,
    pub proxy_type: Option<String>,
    pub server: Option<String>,
    pub port: Option<u64>,
}

/// What a Clash config holds that the entry parser reads: its `proxies`
/// list and its legacy `Proxy` list, each present when it is a sequence.
#[derive(Debug, Clone)]
pub struct SubscriptionDocument {
    pub proxies: Option<Vec<YamlProxy>>,
    pub legacy_proxy: Option<Vec<YamlProxy>>,
}

/// The string under `key` in the YAML mapping `v`.
pub open spec fn str_at(v: YamlValue, key: Seq<char>) -> Option<String> {
    match value_get(v, key) {
        Some(x) => value_str(x),
        None => None,
    }
}

/// What the entry parser reads of one YAML proxy item.
pub open spec fn proxy_of(v: YamlValue) -> YamlProxy {
    YamlProxy {
        name: str_at(v, "name"@),
        proxy_type: str_at(v, "type"@),
        server: str_at(v, "server"@),
        port: match value_get(v, "port"@) {
            Some(x) => value_u64(x),
            None => None,
        },
    }
}

/// The items of the list under `key` in a YAML config, when it is a
/// sequence.
pub open spec fn proxy_list(doc: YamlValue, key: Seq<char>) -> Option<Seq<YamlProxy>> {
    match value_get(doc, key) {
        Some(x) => match value_seq(x) {
            Some(items) => Some(items.map_values(|i: YamlValue| proxy_of(i))),
            None => None,
        },
        None => None,
    }
}

/// The entries of a list that may be missing.
pub open spec fn list_entries(l: Option<Seq<YamlProxy>>) -> Seq<(Seq<char>, Seq<char>, Seq<char>, u16)> {
    match l {
        Some(items) => entries_of(items),
        None => Seq::empty(),
    }
}

/// The entries of a YAML Clash config: those of `proxies`, then those of
/// `Proxy`.
pub open spec fn yaml_entries(doc: YamlValue) -> Seq<(Seq<char>, Seq<char>, Seq<char>, u16)> {
    list_entries(proxy_list(doc, "proxies"@)) + list_entries(proxy_list(doc, "Proxy"@))
}

/// Subscription manager: downloading and storing Clash configs.
pub struct SubscriptionManager;

/// The entry an item gives: none without a name; type `unknown`, server
/// "" and port 0 where missing; a port beyond `u16` wraps (`as u16`).
pub open spec fn parse_proxy_spec(p: YamlProxy) -> Option<(Seq<char>, Seq<char>, Seq<char>, u16)> {
    match p.name {
        None => None,
        Some(n) => Some(
            (
                n@,
                match p.proxy_type {
                    Some(t) => t@,
                    None => "unknown"@,
                },
                match p.server {
                    Some(s) => s@,
                    None => ""@,
                },
                match p.port {
                    Some(v) => (v % 65536) as u16,
                    None => 0u16,
                },
            ),
        ),
    }
}

/// The entry as a tuple of its fields' views.
pub open spec fn entry_view(e: ProxyEntry) -> (Seq<char>, Seq<char>, Seq<char>, u16) {
    (e.name@, e.proxy_type@, e.server@, e.port)
}

/// The entries of a list, in order, skipping items without a name.
pub open spec fn entries_of(items: Seq<YamlProxy>) -> Seq<(Seq<char>, Seq<char>, Seq<char>, u16)>
    decreases items.len(),
{
    if items.len() == 0 {
        Seq::empty()
    } else {
        let rest = entries_of(items.drop_last());
        match parse_proxy_spec(items.last()) {
            Some(e) => rest.push(e),
            None => rest,
        }
    }
}

/// The entries of a config: those of `proxies`, then those of `Proxy`.
pub open spec fn document_entries(doc: SubscriptionDocument) -> Seq<(Seq<char>, Seq<char>, Seq<char>, u16)> {
    (match doc.proxies {
        Some(l) => entries_of(l@),
        None => Seq::empty(),
    }) + (match doc.legacy_proxy {
        Some(l) => entries_of(l@),
        None => Seq::empty(),
    })
}

/// `input` with all white space removed.
pub open spec fn without_ws(input: Seq<char>) -> Seq<char> {
    input.filter(|c: char| !is_ws(c))
}

/// What base64's STANDARD engine (`Engine::decode`, padded alphabet)
/// decodes the given characters to, or `None` where it rejects them.
pub uninterp spec fn base64_standard_decoded(input: Seq<char>) -> Option<Seq<u8>>;

/// base64 0.22 `general_purpose::STANDARD.decode`: the bytes the input
/// encodes, or `None` on a decode error. The decoding is named
/// `base64_standard_decoded` and not spelled out.
#[verifier::external_body]
fn base64_standard_decode(input: &[char]) -> (r: Option<Vec<u8>>)
    ensures
        r is Some <==> base64_standard_decoded(input@) is Some,
        r matches Some(b) ==> b@ == base64_standard_decoded(input@)->0,
{
    let s: String = input.iter().collect();
    base64::engine::general_purpose::STANDARD.decode(s.as_bytes()).ok()
}

/// `String::from_utf8`: the text the bytes encode when they are valid
/// UTF-8, else `None`.
#[verifier::external_body]
fn utf8_string(bytes: Vec<u8>) -> (r: Option<String>)
    ensures
        r is Some <==> valid_utf8(bytes@),
        r matches Some(s) ==> s@ == decode_utf8(bytes@),
{
    String::from_utf8(bytes).ok()
}

/// What `base64_decode` gives for `input`.
pub open spec fn base64_decode_spec(input: Seq<char>) -> Option<Seq<char>> {
    match base64_standard_decoded(without_ws(input)) {
        Some(b) => if valid_utf8(b) {
            Some(decode_utf8(b))
        } else {
            None
        },
        None => None,
    }
}

/// Base64-decodes `input` after dropping all white space; `None` when it is
/// not base64 or not UTF-8 text.
pub fn base64_decode(input: &str) -> (r: Option<String>)
    ensures
        r is Some <==> base64_decode_spec(input@) is Some,
        r matches Some(s) ==> s@ == base64_decode_spec(input@)->0,
{
    let c = chars_of(input);
    let mut cleaned: Vec<char> = Vec::new();
    let mut i: usize = 0;
    while i < c.len()
        invariant
            0 <= i <= c@.len(),
            cleaned@ == without_ws(c@.subrange(0, i as int)),
        decreases c.len() - i,
    {
        proof {
            let pre = c@.subrange(0, i as int);
            let post = c@.subrange(0, i + 1);
            assert(post =~= pre.push(c@[i as int]));
            pre.lemma_filter_push(c@[i as int], |ch: char| !is_ws(ch));
        }
        if !is_whitespace(c[i]) {
            cleaned.push(c[i]);
        }
        i = i + 1;
    }
    assert(c@.subrange(0, c@.len() as int) =~= c@);
    match base64_standard_decode(cleaned.as_slice()) {
        Some(bytes) => utf8_string(bytes),
        None => None,
    }
}

/// What a downloaded body becomes: its base64 decoding when that decodes
/// and mentions `proxies:` or `Proxy:`, else the body itself.
pub open spec fn subscription_body_spec(body: Seq<char>) -> Seq<char> {
    match base64_decode_spec(body) {
        Some(d) => if contains_seq(d, "proxies:"@) || contains_seq(d, "Proxy:"@) {
            d
        } else {
            body
        },
        None => body,
    }
}

impl SubscriptionManager {
    /// The proxy entries of a Clash config in YAML: those listed under
    /// `proxies`, then those under `Proxy`; the parse error's message when
    /// the text is not YAML.
    pub fn parse_config(yaml: &str) -> (r: Result<Vec<ProxyEntry>, String>)
        ensures
            yaml_value_of(yaml@) matches Err(e) ==> r == Err::<Vec<ProxyEntry>, String>(e),
            yaml_value_of(yaml@) matches Ok(d) ==> (r matches Ok(v) && v@.map_values(
                |e: ProxyEntry| entry_view(e),
            ) == yaml_entries(d)),
    {
        match read_yaml(yaml) {
            Ok(doc) => Ok(Self::entries_from_document(&Self::yaml_document(&doc))),
            Err(e) => Err(e),
        }
    }

    /// What the entry parser reads of a YAML config (see `proxy_list`).
    pub fn yaml_document(doc: &YamlValue) -> (r: SubscriptionDocument)
        ensures
            document_entries(r) == yaml_entries(*doc),
            match proxy_list(*doc, "proxies"@) {
                Some(l) => r.proxies matches Some(v) && v@ == l,
                None => r.proxies is None,
            },
            match proxy_list(*doc, "Proxy"@) {
                Some(l) => r.legacy_proxy matches Some(v) && v@ == l,
                None => r.legacy_proxy is None,
            },
    {
        let proxies = Self::yaml_list(doc, "proxies");
        let legacy_proxy = Self::yaml_list(doc, "Proxy");
        SubscriptionDocument { proxies, legacy_proxy }
    }

    /// The items of the list under `key`, when it is a sequence.
    fn yaml_list(doc: &YamlValue, key: &str) -> (r: Option<Vec<YamlProxy>>)
        ensures
            match proxy_list(*doc, key@) {
                Some(l) => r matches Some(v) && v@ == l,
                None => r is None,
            },
    {
        match yaml_get(doc, key) {
            Some(x) => match yaml_seq(x) {
                Some(items) => {
                    let mut out: Vec<YamlProxy> = Vec::new();
                    let mut i: usize = 0;
                    while i < items.len()
                        invariant
                            0 <= i <= items@.len(),
                            out@ =~= items@.subrange(0, i as int).map_values(
                                |v: YamlValue| proxy_of(v),
                            ),
                        decreases items.len() - i,
                    {
                        out.push(Self::yaml_proxy(&items[i]));
                        i = i + 1;
                    }
                    assert(items@.subrange(0, items@.len() as int) =~= items@);
                    Some(out)
                },
                None => None,
            },
            None => None,
        }
    }

    /// What the entry parser reads of one YAML proxy item (see `proxy_of`).
    pub fn yaml_proxy(v: &YamlValue) -> (r: YamlProxy)
        ensures
            r == proxy_of(*v),
    {
        let name = match yaml_get(v, "name") {
            Some(x) => yaml_str(x),
            None => None,
        };
        let proxy_type = match yaml_get(v, "type") {
            Some(x) => yaml_str(x),
            None => None,
        };
        let server = match yaml_get(v, "server") {
            Some(x) => yaml_str(x),
            None => None,
        };
        let port = match yaml_get(v, "port") {
            Some(x) => yaml_u64(x),
            None => None,
        };
        YamlProxy { name, proxy_type, server, port }
    }

    /// The entry an item gives (see `parse_proxy_spec`).
    pub fn parse_proxy(proxy: &YamlProxy) -> (r: Option<ProxyEntry>)
        ensures
            r is Some <==> parse_proxy_spec(*proxy) is Some,
            r matches Some(e) ==> entry_view(e) == parse_proxy_spec(*proxy)->0,
    {
        match &proxy.name {
            None => None,
            Some(n) => {
                let proxy_type = match &proxy.proxy_type {
                    Some(t) => t.clone(),
                    None => crate::text::owned("unknown"),
                };
                let server = match &proxy.server {
                    Some(s) => s.clone(),
                    None => crate::text::owned(""),
                };
                let port: u16 = match proxy.port {
                    Some(v) => (v % 65536) as u16,
                    None => 0,
                };
                Some(ProxyEntry { name: n.clone(), proxy_type, server, port })
            },
        }
    }

    /// Appends the entries of `items` to `out`.
    fn push_entries(out: &mut Vec<ProxyEntry>, items: &Vec<YamlProxy>)
        ensures
            final(out)@.map_values(|e: ProxyEntry| entry_view(e)) == old(out)@.map_values(
                |e: ProxyEntry| entry_view(e),
            ) + entries_of(items@),
    {
        let ghost base = out@.map_values(|e: ProxyEntry| entry_view(e));
        let mut i: usize = 0;
        assert(items@.subrange(0, 0) =~= Seq::<YamlProxy>::empty());
        assert(base + entries_of(Seq::<YamlProxy>::empty()) =~= base);
        while i < items.len()
            invariant
                0 <= i <= items@.len(),
                out@.map_values(|e: ProxyEntry| entry_view(e)) == base + entries_of(
                    items@.subrange(0, i as int),
                ),
            decreases items.len() - i,
        {
            let ghost pre = items@.subrange(0, i as int);
            let ghost post = items@.subrange(0, i + 1);
            assert(post.drop_last() =~= pre);
            let ghost before = out@;
            match Self::parse_proxy(&items[i]) {
                Some(e) => {
                    out.push(e);
                    assert(out@.map_values(|e: ProxyEntry| entry_view(e)) =~= before.map_values(
                        |e: ProxyEntry| entry_view(e),
                    ).push(entry_view(e)));
                },
                None => {},
            }
            i = i + 1;
        }
        assert(items@.subrange(0, items@.len() as int) =~= items@);
    }

    /// The proxy entries of a Clash config: those listed under `proxies`,
    /// then those under `Proxy`, skipping items without a name.
    pub fn entries_from_document(doc: &SubscriptionDocument) -> (r: Vec<ProxyEntry>)
        ensures
            r@.map_values(|e: ProxyEntry| entry_view(e)) == document_entries(*doc),
    {
        let mut out: Vec<ProxyEntry> = Vec::new();
        assert(out@.map_values(|e: ProxyEntry| entry_view(e)) =~= Seq::empty());
        match &doc.proxies {
            Some(l) => Self::push_entries(&mut out, l),
            None => {},
        }
        match &doc.legacy_proxy {
            Some(l) => Self::push_entries(&mut out, l),
            None => {},
        }
        assert(out@.map_values(|e: ProxyEntry| entry_view(e)) =~= document_entries(*doc));
        out
    }

    /// The config text a downloaded body stands for (see
    /// `subscription_body_spec`).
    pub fn decode_body(body: String) -> (r: String)
        ensures
            r@ == subscription_body_spec(body@),
    {
        match base64_decode(body.as_str()) {
            Some(decoded) => {
                let d = chars_of(decoded.as_str());
                if contains_str(d.as_slice(), "proxies:") || contains_str(d.as_slice(), "Proxy:") {
                    decoded
                } else {
                    body
                }
            },
            None => body,
        }
    }
}

} // verus!
