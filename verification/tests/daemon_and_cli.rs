use signal_cli_api::cli::{serve_mode, ServeMode, ServeModeError, BODY_LIMIT_BYTES, DEFAULT_LISTEN};
use signal_cli_api::daemon::{
    daemon_address, daemon_args, early_exit_message, heartbeat_ping, signal_cli_path,
    startup_step, startup_timeout_message, trim, StartupAction, NOT_FOUND_MESSAGE, RETRY_MS,
    STARTUP_DEADLINE_SECS,
};
use signal_cli_api::json::Json;
use signal_cli_api::rpc::{response_id, rpc_outcome, rpc_request, RpcOutcome};

#[test]
fn test_trim_matches_std() {
    for s in ["", "  ", "abc", "  abc  ", "\t\n a b \r\n", "\u{a0}x\u{3000}", "\u{200b}x", "x\u{85}"] {
        assert_eq!(trim(s), s.trim(), "trim of {:?}", s);
    }
}

#[test]
fn test_signal_cli_path() {
    assert_eq!(signal_cli_path("/usr/local/bin/signal-cli\n"), "/usr/local/bin/signal-cli");
}

#[test]
fn test_daemon_address_and_args() {
    assert_eq!(daemon_address(45123), "127.0.0.1:45123");
    assert_eq!(daemon_address(0), "127.0.0.1:0");
    assert_eq!(daemon_args("127.0.0.1:45123"), vec!["daemon", "--tcp", "127.0.0.1:45123"]);
}

#[test]
fn test_daemon_messages() {
    assert_eq!(
        startup_timeout_message(Some("boom")),
        "signal-cli daemon failed to start within 30s. stderr: boom"
    );
    assert_eq!(startup_timeout_message(Some("")), "signal-cli daemon failed to start within 30s. stderr: ");
    assert_eq!(startup_timeout_message(None), "signal-cli daemon failed to start within 30 seconds");
    assert_eq!(early_exit_message("exit status: 1", ""), "signal-cli exited with exit status: 1");
    assert_eq!(
        early_exit_message("exit status: 1", "\nError: config missing\n"),
        "signal-cli exited with exit status: 1: Error: config missing"
    );
    // Output made only of white space still adds the separator.
    assert_eq!(early_exit_message("exit status: 2", " \n"), "signal-cli exited with exit status: 2: ");
    assert!(NOT_FOUND_MESSAGE.starts_with("signal-cli not found on $PATH."));
}

#[test]
fn test_serve_mode() {
    match serve_mode(Some("cert.pem".to_string()), Some("key.pem".to_string())) {
        Ok(ServeMode::Tls { cert, key }) => {
            assert_eq!(cert, "cert.pem");
            assert_eq!(key, "key.pem");
        }
        _ => panic!("expected TLS"),
    }
    assert!(matches!(serve_mode(None, None), Ok(ServeMode::Plain)));
    let err = match serve_mode(Some("cert.pem".to_string()), None) {
        Err(e) => e,
        Ok(_) => panic!("expected an error"),
    };
    assert_eq!(err, ServeModeError::IncompleteTlsPair);
    assert_eq!(err.message(), "Both --tls-cert and --tls-key must be provided together");
    assert!(serve_mode(None, Some("key.pem".to_string())).is_err());
}

#[test]
fn test_cli_defaults() {
    assert_eq!(DEFAULT_LISTEN, "127.0.0.1:8080");
    assert_eq!(BODY_LIMIT_BYTES, 300 * 1024 * 1024);
}

#[test]
fn test_startup_step_timeout() {
    match startup_step(true, Some("java: not found"), None, "", false) {
        StartupAction::Fail(m) => assert_eq!(m, "signal-cli daemon failed to start within 30s. stderr: java: not found"),
        other => panic!("expected a failure, got {:?}", other),
    }
    match startup_step(true, None, None, "", true) {
        StartupAction::Fail(m) => assert_eq!(m, "signal-cli daemon failed to start within 30 seconds"),
        other => panic!("expected a failure, got {:?}", other),
    }
}

#[test]
fn test_startup_step_early_exit() {
    match startup_step(false, None, Some("exit status: 1"), "  config missing\n", false) {
        StartupAction::Fail(m) => assert_eq!(m, "signal-cli exited with exit status: 1: config missing"),
        other => panic!("expected a failure, got {:?}", other),
    }
}

#[test]
fn test_startup_step_ready_and_retry() {
    assert!(matches!(startup_step(false, None, None, "", true), StartupAction::Ready));
    assert!(matches!(startup_step(false, None, None, "", false), StartupAction::Retry));
    assert_eq!(STARTUP_DEADLINE_SECS, 30);
    assert_eq!(RETRY_MS, 200);
}

#[test]
fn test_heartbeat_pings_only_after_success() {
    assert!(heartbeat_ping(true));
    assert!(!heartbeat_ping(false));
}

#[test]
fn test_rpc_request_shape() {
    let mut params = Json::empty_object();
    params.set("account", Json::text("+123"));
    let r = rpc_request("send", params, 7);
    match r {
        Json::Object(entries) => {
            let keys: Vec<&str> = entries.iter().map(|(k, _)| k.as_str()).collect();
            assert_eq!(keys, vec!["jsonrpc", "method", "params", "id"]);
            assert!(matches!(&entries[0].1, Json::Str(v) if v == "2.0"));
            assert!(matches!(&entries[1].1, Json::Str(v) if v == "send"));
            assert!(matches!(&entries[3].1, Json::Int(7)));
        }
        other => panic!("not an object: {:?}", other),
    }
}

fn object(members: Vec<(&str, Json)>) -> Json {
    let mut j = Json::empty_object();
    for (k, v) in members {
        j.set(k, v);
    }
    j
}

#[test]
fn test_response_id() {
    assert_eq!(response_id(&object(vec![("id", Json::Int(42)), ("result", Json::Null)])), Some(42));
    assert_eq!(response_id(&object(vec![("method", Json::text("receive"))])), None);
    assert_eq!(response_id(&object(vec![("id", Json::Int(-1))])), None);
    assert_eq!(response_id(&object(vec![("id", Json::text("42"))])), None);
    assert_eq!(response_id(&Json::Null), None);
}

#[test]
fn test_rpc_outcome() {
    let ok = object(vec![("id", Json::Int(1)), ("result", object(vec![("timestamp", Json::Int(5))]))]);
    assert!(matches!(rpc_outcome(ok), RpcOutcome::Result(Json::Object(_))));
    let no_result = object(vec![("id", Json::Int(1))]);
    assert!(matches!(rpc_outcome(no_result), RpcOutcome::Result(Json::Null)));
    let err = object(vec![("error", object(vec![("code", Json::Int(-1)), ("message", Json::text("Failed"))]))]);
    match rpc_outcome(err) {
        RpcOutcome::Error(m) => assert_eq!(m, "Failed"),
        other => panic!("expected an error message, got {:?}", other),
    }
    let bare = object(vec![("error", object(vec![("code", Json::Int(-32601))]))]);
    assert!(matches!(rpc_outcome(bare), RpcOutcome::ErrorValue(Json::Object(_))));
}
