use clash_tui::subscription::{base64_decode, SubscriptionDocument, SubscriptionManager, YamlProxy};

fn item(name: Option<&str>, t: Option<&str>, server: Option<&str>, port: Option<u64>) -> YamlProxy {
    YamlProxy {
        name: name.map(str::to_string),
        proxy_type: t.map(str::to_string),
        server: server.map(str::to_string),
        port,
    }
}

#[test]
fn base64_bodies_decode_ignoring_blanks() {
    // "proxies: []" in base64, broken across lines
    assert_eq!(base64_decode("cHJveGllczog\nW10=\n"), Some("proxies: []".to_string()));
    assert_eq!(base64_decode("not base64!"), None);
    // 0xff is not UTF-8
    assert_eq!(base64_decode("/w=="), None);
    assert_eq!(base64_decode(""), Some(String::new()));
}

#[test]
fn decode_body_keeps_plain_yaml() {
    let encoded = "cHJveGllczogW10=".to_string();
    assert_eq!(SubscriptionManager::decode_body(encoded), "proxies: []");
    let plain = "proxies:\n  - name: a\n".to_string();
    assert_eq!(SubscriptionManager::decode_body(plain.clone()), plain);
    // decodes, but to something that is no proxy list
    let other = "aGVsbG8=".to_string();
    assert_eq!(SubscriptionManager::decode_body(other.clone()), other);
}

#[test]
fn proxy_items_become_entries() {
    let e = SubscriptionManager::parse_proxy(&item(Some("HK"), None, None, Some(70_000))).unwrap();
    assert_eq!(e.name, "HK");
    assert_eq!(e.proxy_type, "unknown");
    assert_eq!(e.server, "");
    assert_eq!(e.port, 70_000u64 as u16);
    assert!(SubscriptionManager::parse_proxy(&item(None, Some("ss"), None, None)).is_none());
}

#[test]
fn document_lists_proxies_then_legacy() {
    let doc = SubscriptionDocument {
        proxies: Some(vec![item(Some("a"), Some("ss"), Some("s1"), Some(1)), item(None, None, None, None)]),
        legacy_proxy: Some(vec![item(Some("b"), Some("vmess"), Some("s2"), Some(2))]),
    };
    let names: Vec<String> =
        SubscriptionManager::entries_from_document(&doc).into_iter().map(|e| e.name).collect();
    assert_eq!(names, vec!["a", "b"]);
}

#[test]
fn parse_config_reads_both_proxy_lists() {
    let yaml = "proxies:\n  - name: hk\n    type: ss\n    server: 1.2.3.4\n    port: 8388\n  - type: vmess\n  - name: jp\n    port: 70000\nProxy:\n  - {name: old, type: trojan, server: x.io, port: 443}\n";
    let entries = SubscriptionManager::parse_config(yaml).unwrap();
    let got: Vec<(String, String, String, u16)> =
        entries.into_iter().map(|e| (e.name, e.proxy_type, e.server, e.port)).collect();
    assert_eq!(
        got,
        vec![
            ("hk".to_string(), "ss".to_string(), "1.2.3.4".to_string(), 8388),
            ("jp".to_string(), "unknown".to_string(), String::new(), 70000u32 as u16),
            ("old".to_string(), "trojan".to_string(), "x.io".to_string(), 443),
        ]
    );
}

#[test]
fn parse_config_edge_cases() {
    assert!(SubscriptionManager::parse_config("proxies: [unclosed").is_err());
    assert!(SubscriptionManager::parse_config("proxies: 3\n").unwrap().is_empty());
    assert!(SubscriptionManager::parse_config("- a\n- b\n").unwrap().is_empty());
    let tagged = SubscriptionManager::parse_config("proxies:\n  - !ss {name: t, port: -1}\n").unwrap();
    assert_eq!(tagged.len(), 1);
    assert_eq!(tagged[0].name, "t");
    assert_eq!(tagged[0].port, 0);
}
