use clash_tui::core_manager::{sanitize_name, CoreManager};

fn pair(a: &str, b: &str) -> (String, String) {
    (a.to_string(), b.to_string())
}

#[test]
fn sanitize_keeps_alphanumerics() {
    assert_eq!(sanitize_name("My Sub/1"), "My_Sub_1");
    assert_eq!(sanitize_name("节点-a_b.c"), "节点-a_b_c");
    assert_eq!(CoreManager::subscription_file_name("a b"), "sub_a_b.yaml");
}

#[test]
fn core_paths() {
    let dir = CoreManager::core_dir("/home/u/.config/clash-tui");
    assert_eq!(dir, "/home/u/.config/clash-tui/core");
    assert_eq!(CoreManager::core_binary_path("/c", false), "/c/core/mihomo");
    assert_eq!(CoreManager::core_binary_path("/c", true), "/c/core/mihomo.exe");
    assert_eq!(CoreManager::default_core_path(None, false), "");
    assert_eq!(CoreManager::default_core_path(Some("/c"), false), "/c/core/mihomo");
}

#[test]
fn only_sub_yaml_files_are_subscriptions() {
    let files = vec![
        pair("config.yaml", "/d/config.yaml"),
        pair("sub_a.yaml", "/d/sub_a.yaml"),
        pair("sub_sub_b.yaml", "/d/sub_sub_b.yaml"),
        pair("sub_c.yml", "/d/sub_c.yml"),
        pair("mihomo.log", "/d/mihomo.log"),
    ];
    let subs = CoreManager::subscription_entries(&files);
    assert_eq!(subs, vec![pair("a", "/d/sub_a.yaml"), pair("b", "/d/sub_sub_b.yaml")]);
}

#[test]
fn no_subscriptions_give_the_minimal_config() {
    assert_eq!(
        CoreManager::build_main_config(&vec![], None),
        "mixed-port: 7890\nallow-lan: true\nmode: rule\nlog-level: info\n"
    );
}

#[test]
fn a_single_full_config_is_used_cleaned() {
    let content = "mixed-port: 7890\nauthentication:\n  - \"u:p\"\nrules:\n  - GEOIP,CN,DIRECT\n  - MATCH,PROXY\n";
    let out = CoreManager::build_main_config(&vec![pair("a", "/d/sub_a.yaml")], Some(content));
    assert_eq!(out, "mixed-port: 7890\n  - \"u:p\"\nrules:\n  - MATCH,PROXY");
}

#[test]
fn several_subscriptions_are_merged_as_providers() {
    let out = CoreManager::build_main_config(
        &vec![pair("a", "/d/sub_a.yaml"), pair("b", "/d/sub_b.yaml")],
        None,
    );
    assert!(out.starts_with("mixed-port: 7890\nallow-lan: true\nmode: rule\nlog-level: info\n\nproxy-providers:\n  a:\n    type: file\n    path: /d/sub_a.yaml\n"));
    assert!(out.contains("proxy-groups:\n  - name: PROXY\n    type: select\n    proxies:\n      - a\n      - b\n      - DIRECT\n"));
    assert!(out.ends_with("\nrules:\n  - MATCH,PROXY\n"));
    let single_partial = CoreManager::build_main_config(&vec![pair("a", "/p")], Some("proxies: []\n"));
    assert!(single_partial.contains("proxy-providers:\n  a:\n"));
}

#[test]
fn api_controller_is_set_once() {
    let out = CoreManager::with_api_controller("mode: rule\nexternal-controller: 0.0.0.0:1\n", "127.0.0.1", 9090);
    assert_eq!(out, "mode: rule\nexternal-controller: 127.0.0.1:9090\n");
}
