use clash_tui::proxy::{
    get_system_proxy, parse_host_port, proxy_env_script, ProxyState, RegistryProxyValues,
};

#[test]
fn test_parse_host_port() {
    assert_eq!(parse_host_port("127.0.0.1:7890"), ("127.0.0.1".to_string(), 7890));
    assert_eq!(parse_host_port("localhost:8080"), ("localhost".to_string(), 8080));
    assert_eq!(
        parse_host_port("http://127.0.0.1:7890"),
        ("127.0.0.1".to_string(), 7890)
    );
    assert_eq!(parse_host_port(""), ("127.0.0.1".to_string(), 7890));
    assert_eq!(parse_host_port("192.168.1.1"), ("192.168.1.1".to_string(), 7890));
}

#[test]
fn parse_host_port_falls_back_on_bad_ports() {
    assert_eq!(parse_host_port("h:99999"), ("h".to_string(), 7890));
    assert_eq!(parse_host_port("h:"), ("h".to_string(), 7890));
    assert_eq!(parse_host_port("https://h:1"), ("h".to_string(), 1));
    assert_eq!(parse_host_port("[::1]:8080"), ("[::1]".to_string(), 8080));
}

#[test]
fn proxy_state_defaults_and_address() {
    let p = ProxyState::default();
    assert!(!p.enabled);
    assert_eq!(p.address(), "127.0.0.1:7890");
    assert_eq!(p.bypass, "<local>");
}

#[test]
fn toggle_flips_only_on_success() {
    let mut p = ProxyState::default();
    let req = p.toggle_request();
    assert!(req.enable);
    assert_eq!(p.toggle(Ok(())), Ok(()));
    assert!(p.enabled);
    let req = p.toggle_request();
    assert!(!req.enable);
    assert_eq!(req.host, "");
    assert_eq!(p.toggle(Err("denied".to_string())), Err("denied".to_string()));
    assert!(p.enabled);
}

#[test]
fn registry_values_give_the_system_proxy() {
    let v = RegistryProxyValues {
        enable: 1,
        server: "10.0.0.2:3128".to_string(),
        bypass: "*.local".to_string(),
    };
    let p = get_system_proxy(Some(v));
    assert!(p.enabled);
    assert_eq!(p.host, "10.0.0.2");
    assert_eq!(p.port, 3128);
    assert_eq!(p.bypass, "*.local");
    let d = ProxyState::detect(None);
    assert_eq!(d.host, "127.0.0.1");
}

#[test]
fn env_script_exports_the_address() {
    let p = ProxyState::default();
    let s = proxy_env_script(&p.enable());
    assert!(s.contains("127.0.0.1:7890"));
}
