use clash_tui::ipc::client::{rand_id, reply_value};
use clash_tui::ipc::protocol::{decode_request, IpcCall, IpcRequest, IpcResponse, RequestParams};
use clash_tui::ipc::server::respond;

fn no_params() -> RequestParams {
    RequestParams { group: None, proxy: None, url: None, timeout: None, id: None, mode: None, path: None }
}

fn roundtrip(c: IpcCall) -> IpcCall {
    decode_request(c.request(7)).unwrap()
}

#[test]
fn every_call_reads_back_as_sent() {
    let calls = vec![
        IpcCall::GetProxies,
        IpcCall::SwitchProxy { group: "G".to_string(), proxy: "P".to_string() },
        IpcCall::GetTraffic,
        IpcCall::GetMemory,
        IpcCall::GetVersion,
        IpcCall::GetConfigs,
        IpcCall::TestLatency { proxy: "HK".to_string(), url: "http://t".to_string(), timeout: 3000 },
        IpcCall::GetConnections,
        IpcCall::CloseConnection("id-1".to_string()),
        IpcCall::CloseAllConnections,
        IpcCall::GetLogs,
        IpcCall::GetRules,
        IpcCall::SetConfigMode("global".to_string()),
        IpcCall::ReloadConfig("/tmp/c.yaml".to_string()),
        IpcCall::RefreshAll,
    ];
    for c in calls {
        let text = format!("{:?}", c);
        assert_eq!(format!("{:?}", roundtrip(c)), text);
    }
}

#[test]
fn missing_params_take_the_daemon_defaults() {
    let req = |m: &str| IpcRequest { id: 1, method: m.to_string(), params: no_params() };
    match decode_request(req("test_latency")).unwrap() {
        IpcCall::TestLatency { proxy, url, timeout } => {
            assert_eq!(proxy, "");
            assert_eq!(url, "https://www.gstatic.com/generate_204");
            assert_eq!(timeout, 5000);
        }
        other => panic!("unexpected {:?}", other),
    }
    assert!(matches!(decode_request(req("set_config_mode")).unwrap(), IpcCall::SetConfigMode(m) if m == "rule"));
    assert!(matches!(decode_request(req("switch_proxy")).unwrap(), IpcCall::SwitchProxy { group, proxy } if group.is_empty() && proxy.is_empty()));
}

#[test]
fn large_timeouts_are_cut_to_sixteen_bits() {
    let mut p = no_params();
    p.timeout = Some(70_000);
    let r = decode_request(IpcRequest { id: 1, method: "test_latency".to_string(), params: p });
    assert!(matches!(r.unwrap(), IpcCall::TestLatency { timeout, .. } if timeout == 70_000u64 as u16));
}

#[test]
fn unknown_method_is_an_error() {
    let r = decode_request(IpcRequest { id: 1, method: "set_tun".to_string(), params: no_params() });
    assert_eq!(r.unwrap_err(), "Unknown method: set_tun");
}

#[test]
fn request_ids_count_up_and_wrap() {
    let mut c = 1u64;
    assert_eq!(rand_id(&mut c), 1);
    assert_eq!(rand_id(&mut c), 2);
    let mut m = u64::MAX;
    assert_eq!(rand_id(&mut m), u64::MAX);
    assert_eq!(m, 0);
}

#[test]
fn responses_carry_result_or_error() {
    let ok = respond(3, Ok(serde_json::Value::from(5)));
    assert_eq!(ok.id, 3);
    assert_eq!(ok.error, None);
    assert_eq!(reply_value(ok).unwrap(), Some(serde_json::Value::from(5)));
    let bad = respond(4, Err("Unknown method: x".to_string()));
    assert_eq!(bad.ok, None);
    assert_eq!(reply_value(bad).unwrap_err(), "Daemon error: Unknown method: x");
    let empty = IpcResponse::success(9, serde_json::Value::Null);
    assert_eq!(empty.ok, Some(serde_json::Value::Null));
    let f = IpcResponse::failure(9, "e".to_string());
    assert_eq!(f.error.as_deref(), Some("e"));
}
