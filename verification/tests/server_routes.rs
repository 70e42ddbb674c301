use devpod_desktop::server::{
    delivered_signal, parse_signal_message, proxy_path_and_query, route, Route,
    SendSignalMessage, CONTROL_SERVER_PORT,
};

#[test]
fn fixed_routes_dispatch() {
    assert!(matches!(route("GET", "/ws"), Route::Ws));
    assert!(matches!(route("GET", "/releases"), Route::Releases));
    assert!(matches!(route("POST", "/child-process/signal"), Route::Signal));
    assert!(matches!(route("POST", "/ws"), Route::NotFound));
    assert!(matches!(route("GET", "/child-process/signal"), Route::NotFound));
    assert!(matches!(route("GET", "/nope"), Route::NotFound));
    assert_eq!(CONTROL_SERVER_PORT, 25842);
}

#[test]
fn daemon_routes_extract_the_instance() {
    match route("GET", "/daemon/host1/status") {
        Route::DaemonStatus { pro_id } => assert_eq!(pro_id, "host1".to_string()),
        _ => panic!("expected the status route"),
    }
    match route("GET", "/daemon/host1/restart") {
        Route::DaemonRestart { pro_id } => assert_eq!(pro_id, "host1".to_string()),
        _ => panic!("expected the restart route"),
    }
    assert!(matches!(route("GET", "/daemon/host1/other"), Route::NotFound));
    assert!(matches!(route("GET", "/daemon//status"), Route::NotFound));
    assert!(matches!(route("POST", "/daemon/host1/status"), Route::NotFound));
}

#[test]
fn proxy_route_keeps_the_remainder() {
    match route("POST", "/daemon-proxy/host1/workspaces/list") {
        Route::DaemonProxy { pro_id, rest } => {
            assert_eq!(pro_id, "host1".to_string());
            assert_eq!(rest, "workspaces/list".to_string());
        },
        _ => panic!("expected the proxy route"),
    }
    assert!(matches!(route("GET", "/daemon-proxy/host1/"), Route::NotFound));
    assert!(matches!(route("GET", "/daemon-proxy/host1"), Route::NotFound));
}

// The forwarded path keeps the remainder and the query untouched.
#[test]
fn proxied_path_preserves_query() {
    assert_eq!(
        proxy_path_and_query("workspaces", Some("x=1")),
        "/workspaces?x=1".to_string()
    );
    assert_eq!(proxy_path_and_query("workspaces", None), "/workspaces".to_string());
}

#[test]
fn signal_payload_parses() {
    let msg = parse_signal_message("{\"processId\": 4711, \"signal\": 15}").unwrap();
    assert_eq!(msg, SendSignalMessage { process_id: 4711, signal: 15 });
    assert_eq!(delivered_signal(&msg), 2);
}

#[test]
fn signal_payload_requires_both_fields() {
    assert!(parse_signal_message("{\"processId\": 4711}").is_none());
    assert!(parse_signal_message("{\"signal\": 15}").is_none());
    assert!(parse_signal_message("{\"processId\": \"x\", \"signal\": 15}").is_none());
    assert!(parse_signal_message("{\"processId\": 4294967296000000, \"signal\": 15}").is_none());
    let ok = parse_signal_message("{\"processId\": -1, \"signal\": 9, \"why\": \"cleanup\"}");
    assert_eq!(ok.unwrap().process_id, -1);
}
