use clash_tui::clash::client::{
    api_error_message, auth_header, base_url, connection_path, encode_uri_component, join_url,
    latency_path, parse_memory, switch_proxy_path,
};

#[test]
fn test_encode_uri_component() {
    assert_eq!(encode_uri_component("hello"), "hello");
    assert_eq!(encode_uri_component("hello world"), "hello%20world");
    assert_eq!(encode_uri_component("HK-01"), "HK-01");
}

#[test]
fn encode_uri_component_escapes_utf8_bytes() {
    assert_eq!(encode_uri_component("香港"), "%E9%A6%99%E6%B8%AF");
    assert_eq!(encode_uri_component("a/b?c=d&e"), "a%2Fb%3Fc%3Dd%26e");
    assert_eq!(encode_uri_component("-_.~!*"), "-_.~%21%2A");
    assert_eq!(encode_uri_component(""), "");
}

#[test]
fn api_paths_are_built_from_their_parts() {
    assert_eq!(base_url("127.0.0.1", 9090), "http://127.0.0.1:9090");
    assert_eq!(join_url("http://h:1", "/version"), "http://h:1/version");
    assert_eq!(switch_proxy_path("节点 选择"), "/proxies/%E8%8A%82%E7%82%B9%20%E9%80%89%E6%8B%A9");
    assert_eq!(connection_path("abc"), "/connections/abc");
    assert!(latency_path("HK 1", "https://x/y", 5000).starts_with("/proxies/HK%201/delay?"));
}

#[test]
fn auth_header_is_bearer_of_the_secret() {
    assert_eq!(auth_header(&Some("tok".to_string())), Some("Bearer tok".to_string()));
    assert_eq!(auth_header(&None), None);
}

#[test]
fn api_error_names_status_and_path() {
    let m = api_error_message(404, "/proxies", "not found");
    assert!(m.contains("404"));
    assert!(m.contains("/proxies"));
}

#[test]
fn memory_replies() {
    assert_eq!(parse_memory("12345"), Ok(12345));
    assert_eq!(parse_memory("{\"inuse\": 7, \"memory\": 99}"), Ok(99));
    assert_eq!(parse_memory("{\"inuse\": 7}"), Ok(0));
    assert_eq!(parse_memory("-5"), Ok(0));
    assert_eq!(parse_memory("{\"memory\": \"99\"}"), Ok(0));
    assert!(parse_memory("not json").is_err());
}
