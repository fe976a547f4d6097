use signal_cli_api::json::Json;
use signal_cli_api::routes::messages::{send_v1_step, send_v2_step};
use signal_cli_api::routes::{finish_call, start_call, Answer, Reply, Step};
use signal_cli_api::spill::{
    apply_spill, attachment_file_path, avatar_file_path, decode_avatar, plan_spill, SpillError,
    SPILL_DIR,
};
use signal_cli_api::state::{rpc_error_status, Metrics, WebhookConfig, RPC_TIMEOUT_ERROR};
use signal_cli_api::text::{decimal_string, split_nonempty};

fn obj(members: Vec<(&str, Json)>) -> Json {
    let mut j = Json::empty_object();
    for (k, v) in members {
        j.set(k, v);
    }
    j
}

fn texts(j: &Json) -> Vec<String> {
    match j {
        Json::Array(items) => items
            .iter()
            .map(|i| match i {
                Json::Str(s) => s.clone(),
                other => format!("<{:?}>", other),
            })
            .collect(),
        other => panic!("not an array: {:?}", other),
    }
}

const EXPECTED_ZERO: &str = "# HELP signal_messages_sent_total Total messages sent\n\
# TYPE signal_messages_sent_total counter\n\
signal_messages_sent_total 0\n\
# HELP signal_messages_received_total Total messages received\n\
# TYPE signal_messages_received_total counter\n\
signal_messages_received_total 0\n\
# HELP signal_rpc_calls_total Total JSON-RPC calls to signal-cli\n\
# TYPE signal_rpc_calls_total counter\n\
signal_rpc_calls_total 0\n\
# HELP signal_rpc_errors_total Total JSON-RPC errors\n\
# TYPE signal_rpc_errors_total counter\n\
signal_rpc_errors_total 0\n\
# HELP signal_ws_clients_active Active WebSocket clients\n\
# TYPE signal_ws_clients_active gauge\n\
signal_ws_clients_active 0\n";

#[test]
fn test_metrics_zero_on_startup() {
    let m = Metrics::new();
    assert_eq!(m.messages_sent, 0);
    assert_eq!(m.messages_received, 0);
    assert_eq!(m.rpc_calls, 0);
    assert_eq!(m.rpc_errors, 0);
    assert_eq!(m.ws_clients, 0);
    assert_eq!(m.to_prometheus(), EXPECTED_ZERO);
    assert_eq!(Metrics::default(), m);
}

#[test]
fn test_metrics() {
    let body = Metrics::new().to_prometheus();
    assert!(body.contains("signal_messages_sent_total"));
    assert!(body.contains("signal_messages_received_total"));
    assert!(body.contains("signal_rpc_calls_total"));
    assert!(body.contains("signal_rpc_errors_total"));
    assert!(body.contains("signal_ws_clients_active"));
}

#[test]
fn test_metrics_prometheus_format() {
    let body = Metrics::new().to_prometheus();
    assert!(body.contains("# HELP signal_messages_sent_total"));
    assert!(body.contains("# TYPE signal_messages_sent_total counter"));
    assert!(body.contains("# TYPE signal_ws_clients_active gauge"));
}

#[test]
fn test_metrics_readme_example_values() {
    let m = Metrics { messages_sent: 42, messages_received: 108, rpc_calls: 312, rpc_errors: 0, ws_clients: 2 };
    let body = m.to_prometheus();
    assert!(body.contains("\nsignal_messages_sent_total 42\n"));
    assert!(body.contains("\nsignal_messages_received_total 108\n"));
    assert!(body.contains("\nsignal_rpc_calls_total 312\n"));
    assert!(body.contains("\nsignal_rpc_errors_total 0\n"));
    assert!(body.ends_with("\nsignal_ws_clients_active 2\n"));
}

fn timestamp_result() -> Json {
    obj(vec![("timestamp", Json::Int(1234567890))])
}

fn body_text(a: &Answer, key: &str) -> Option<String> {
    match &a.body {
        Some(Json::Object(entries)) => entries
            .iter()
            .rev()
            .find(|(k, _)| k == key)
            .and_then(|(_, v)| match v {
                Json::Str(s) => Some(s.clone()),
                _ => None,
            }),
        _ => None,
    }
}

fn send_body(number: &str) -> Json {
    obj(vec![
        ("message", Json::text("test")),
        ("number", Json::text(number)),
        ("recipients", Json::one_text("+999")),
    ])
}

/// POST /v2/send end to end: the step, then the call's outcome as signal-cli gives it.
fn v2_send(m: &mut Metrics, body: Json, outcome: Result<Json, String>) -> Answer {
    let plan = plan_spill(&body);
    match send_v2_step(body, plan, Ok(Vec::new())) {
        Step::Call(call) => {
            assert!(call.counts_send);
            start_call(m);
            finish_call(m, call.reply, call.counts_send, outcome)
        }
        Step::Refuse { .. } => panic!("a body without data URIs is not refused"),
    }
}

/// POST /v1/send end to end.
fn v1_send(m: &mut Metrics, body: Json, outcome: Result<Json, String>) -> Answer {
    let plan = plan_spill(&body);
    match send_v1_step(body, plan, Ok(Vec::new())) {
        Step::Call(call) => {
            assert!(!call.counts_send);
            start_call(m);
            finish_call(m, call.reply, call.counts_send, outcome)
        }
        Step::Refuse { .. } => panic!("a body without data URIs is not refused"),
    }
}

#[test]
fn test_metrics_increment_after_send() {
    let mut m = Metrics::new();
    let a = v2_send(&mut m, send_body("+123"), Ok(timestamp_result()));
    assert_eq!(a.status, 201);
    assert_eq!(m.messages_sent, 1);
    assert_eq!(m.rpc_calls, 1);
    assert_eq!(m.rpc_errors, 0);
}

#[test]
fn test_metrics_error_not_counted_as_sent() {
    let mut m = Metrics::new();
    let a = v2_send(&mut m, send_body("+ERROR"), Err("Failed to send message".to_string()));
    assert_eq!(a.status, 400);
    assert_eq!(body_text(&a, "error").as_deref(), Some("Failed to send message"));
    assert_eq!(m.messages_sent, 0);
    assert_eq!(m.rpc_calls, 1);
    assert_eq!(m.rpc_errors, 1);
}

#[test]
fn test_metrics_rpc_error_counter() {
    let mut m = Metrics::new();
    v2_send(&mut m, send_body("+ERROR"), Err("Failed to send message".to_string()));
    assert!(m.rpc_errors > 0);
}

#[test]
fn test_metrics_sent_not_incremented_on_v1_send() {
    let mut m = Metrics::new();
    let body = obj(vec![
        ("message", Json::text("hello")),
        ("number", Json::text("+1234567890")),
        ("recipients", Json::one_text("+9999")),
    ]);
    let a = v1_send(&mut m, body, Ok(timestamp_result()));
    assert_eq!(a.status, 201);
    match &a.body {
        Some(Json::Object(entries)) => assert!(matches!(entries[0], (ref k, Json::Int(1234567890)) if k == "timestamp")),
        other => panic!("unexpected body {:?}", other),
    }
    assert_eq!(m.messages_sent, 0);
    assert_eq!(m.rpc_calls, 1);
}

#[test]
fn test_send_and_verify_exact_metrics() {
    let mut m = Metrics::new();
    for _ in 0..5 {
        v2_send(&mut m, send_body("+123"), Ok(timestamp_result()));
    }
    for _ in 0..3 {
        v1_send(&mut m, send_body("+123"), Ok(timestamp_result()));
    }
    assert_eq!(m.messages_sent, 5);
    assert_eq!(m.rpc_calls, 8);
    assert_eq!(m.rpc_errors, 0);
}

#[test]
fn test_rpc_timeout_answer_is_504() {
    let mut m = Metrics::new();
    start_call(&mut m);
    let a = finish_call(&mut m, Reply::Success, false, Err(RPC_TIMEOUT_ERROR.to_string()));
    assert_eq!(a.status, 504);
    assert_eq!(body_text(&a, "error").as_deref(), Some("RPC_TIMEOUT"));
    assert_eq!(m.rpc_errors, 1);
}

#[test]
fn test_no_content_answer_has_no_body() {
    let mut m = Metrics::new();
    start_call(&mut m);
    let a = finish_call(&mut m, Reply::NoContent, false, Ok(Json::Null));
    assert_eq!(a.status, 204);
    assert!(a.body.is_none());
    assert_eq!(m.rpc_calls, 1);
}

#[test]
fn test_send_v2_invalid_data_uri_refused_with_500() {
    let body = obj(vec![
        ("number", Json::text("+123")),
        ("attachment", Json::one_text("data:image/png;base64,!!!not-base64!!!")),
    ]);
    let plan = plan_spill(&body);
    assert!(plan.is_err());
    match send_v2_step(body, plan, Ok(Vec::new())) {
        Step::Refuse { status, error } => {
            assert_eq!(status, 500);
            assert!(!error.is_empty());
        }
        Step::Call(_) => panic!("an undecodable data URI makes no call"),
    }
}

#[test]
fn test_send_v1_write_failure_refused_with_500() {
    let body = obj(vec![("attachment", Json::one_text("data:text/plain;base64,aGVsbG8="))]);
    let plan = plan_spill(&body);
    match send_v1_step(body, plan, Err("disk full".to_string())) {
        Step::Refuse { status, error } => {
            assert_eq!(status, 500);
            assert_eq!(error, "disk full");
        }
        Step::Call(_) => panic!("a file that could not be written makes no call"),
    }
}

#[test]
fn test_multiple_errors_in_sequence() {
    let mut m = Metrics::new();
    for _ in 0..5 {
        m.inc_rpc();
        m.inc_rpc_error();
    }
    assert_eq!(m.rpc_errors, 5);
    assert_eq!(m.rpc_calls, 5);
    assert_eq!(m.messages_sent, 0);
}

#[test]
fn test_ws_client_counter_increments_and_decrements() {
    let mut m = Metrics::new();
    m.ws_client_connected();
    m.ws_client_connected();
    assert_eq!(m.ws_clients, 2);
    m.ws_client_disconnected();
    assert_eq!(m.ws_clients, 1);
    m.inc_received();
    assert_eq!(m.messages_received, 1);
    assert!(m.to_prometheus().ends_with("signal_ws_clients_active 1\n"));
}

#[test]
fn test_metrics_counters_wrap() {
    let mut m = Metrics { messages_sent: u64::MAX, messages_received: 0, rpc_calls: 0, rpc_errors: 0, ws_clients: 0 };
    m.inc_sent();
    assert_eq!(m.messages_sent, 0);
    m.ws_client_disconnected();
    assert_eq!(m.ws_clients, u64::MAX);
    assert!(m.to_prometheus().ends_with("signal_ws_clients_active 18446744073709551615\n"));
}

#[test]
fn test_decimal_string() {
    assert_eq!(decimal_string(0), "0");
    assert_eq!(decimal_string(7), "7");
    assert_eq!(decimal_string(10), "10");
    assert_eq!(decimal_string(1234567890), "1234567890");
    assert_eq!(decimal_string(u64::MAX), u64::MAX.to_string());
}

#[test]
fn test_rpc_timeout_returns_504() {
    assert_eq!(rpc_error_status(RPC_TIMEOUT_ERROR), 504);
    assert_eq!(rpc_error_status("RPC_TIMEOUT"), 504);
}

#[test]
fn test_rpc_error_statuses() {
    assert_eq!(rpc_error_status("simulated signal-cli error"), 400);
    assert_eq!(rpc_error_status(""), 400);
    assert_eq!(rpc_error_status("rpc_timeout"), 400);
    assert_eq!(rpc_error_status("RPC_TIMEOUT "), 400);
}

#[test]
fn test_webhook_config_fields() {
    let w = WebhookConfig { id: "1".to_string(), url: "https://example.com/hook".to_string(), events: vec![] };
    let c = w.clone();
    assert_eq!(c.url, "https://example.com/hook");
    assert!(c.events.is_empty());
}

#[test]
fn test_split_nonempty() {
    assert_eq!(split_nonempty("a,b,,c,", ','), vec!["a", "b", "c"]);
    assert!(split_nonempty("", ',').is_empty());
    assert!(split_nonempty(",,,", ',').is_empty());
    assert_eq!(split_nonempty("é,ü", ','), vec!["é", "ü"]);
}

#[test]
fn test_spill_paths() {
    assert_eq!(SPILL_DIR, "outgoing-attachments");
    assert_eq!(attachment_file_path(4242, 7, "png"), "outgoing-attachments/4242-7.png");
    assert_eq!(attachment_file_path(1, 0, ""), "outgoing-attachments/1-0.");
    assert_eq!(avatar_file_path(4242, 7), "outgoing-attachments/avatar-4242-7.jpg");
}

#[test]
fn test_decode_avatar() {
    assert_eq!(decode_avatar("aGVsbG8=").unwrap(), b"hello".to_vec());
    assert_eq!(decode_avatar("").unwrap(), Vec::<u8>::new());
    match decode_avatar("not base64!") {
        Err(SpillError::InvalidBase64(_)) => {}
        other => panic!("expected a decode error, got {:?}", other),
    }
}

#[test]
fn test_send_passthrough_attachment_field_is_spilled_not_base64_attachments() {
    // Only `attachment` is looked at: `base64_attachments` stays as it came.
    let body = obj(vec![
        ("account", Json::text("+1")),
        ("base64_attachments", Json::one_text("aGVsbG8=")),
    ]);
    let plan = plan_spill(&body).unwrap();
    assert!(!plan.has_attachment_list);
    assert!(plan.files.is_empty());
}

#[test]
fn test_send_v2_with_data_uri_attachments() {
    let list = Json::Array(vec![
        Json::text("data:image/png;filename=pic.png;base64,aGVsbG8="),
        Json::text("/already/on/disk.jpg"),
        Json::Int(5),
        Json::text("data:text/plain;base64,d29ybGQ="),
        Json::text("data:application/x;filename=archive.tar.gz;base64,"),
        Json::text("data:no-marker-here"),
    ]);
    let mut body = obj(vec![("account", Json::text("+1")), ("attachment", list), ("message", Json::text("hi"))]);
    let plan = plan_spill(&body).unwrap();
    assert!(plan.has_attachment_list);
    let got: Vec<(usize, String, Vec<u8>)> =
        plan.files.iter().map(|f| (f.index, f.extension.clone(), f.bytes.clone())).collect();
    assert_eq!(
        got,
        vec![
            (0, "png".to_string(), b"hello".to_vec()),
            (3, "bin".to_string(), b"world".to_vec()),
            (4, "gz".to_string(), vec![]),
        ]
    );
    let paths: Vec<String> = plan
        .files
        .iter()
        .enumerate()
        .map(|(n, f)| attachment_file_path(99, n as u64, &f.extension))
        .collect();
    apply_spill(&mut body, &plan.files, &paths);
    let list = body.get("attachment").unwrap();
    assert_eq!(
        texts(list),
        vec![
            "outgoing-attachments/99-0.png".to_string(),
            "/already/on/disk.jpg".to_string(),
            "<Int(5)>".to_string(),
            "outgoing-attachments/99-1.bin".to_string(),
            "outgoing-attachments/99-2.gz".to_string(),
            "data:no-marker-here".to_string(),
        ]
    );
    match body.get("message") {
        Some(Json::Str(m)) => assert_eq!(m, "hi"),
        other => panic!("message lost: {:?}", other),
    }
    match body.get("account") {
        Some(Json::Str(a)) => assert_eq!(a, "+1"),
        other => panic!("account lost: {:?}", other),
    }
}

#[test]
fn test_spill_filename_rules() {
    let list = Json::Array(vec![
        Json::text("data:a;filename=noext;base64,"),
        Json::text("data:a;x=1;filename=first.txt;filename=second.jpg;base64,"),
        Json::text("data:;filename=.hidden;base64,"),
        Json::text("data:;base64,QQ=="),
    ]);
    let body = obj(vec![("attachment", list)]);
    let plan = plan_spill(&body).unwrap();
    let exts: Vec<String> = plan.files.iter().map(|f| f.extension.clone()).collect();
    assert_eq!(exts, vec!["bin", "txt", "bin", "bin"]);
    // The payload starts after the first `;base64,`.
    assert!(plan_spill(&obj(vec![("attachment", Json::Array(vec![Json::text("data:;base64,;base64,QQ==")]))])).is_err());
}

#[test]
fn test_spill_invalid_base64_is_an_error() {
    let list = Json::Array(vec![
        Json::text("data:image/png;base64,aGVsbG8="),
        Json::text("data:image/png;base64,@@@"),
    ]);
    let body = obj(vec![("attachment", list)]);
    match plan_spill(&body) {
        Err(SpillError::InvalidBase64(_)) => {}
        other => panic!("expected a decode error, got {:?}", other),
    }
}

#[test]
fn test_spill_without_data_uris_changes_nothing() {
    let list = Json::Array(vec![Json::text("/a/b.png")]);
    let body = obj(vec![("attachment", list)]);
    let plan = plan_spill(&body).unwrap();
    assert!(plan.has_attachment_list);
    assert!(plan.files.is_empty());
    assert!(!plan_spill(&Json::Null).unwrap().has_attachment_list);
    assert!(!plan_spill(&obj(vec![("attachment", Json::text("x"))])).unwrap().has_attachment_list);
}

#[test]
fn test_spill_paths_are_distinct() {
    let a = attachment_file_path(1, 23, "png");
    let b = attachment_file_path(12, 3, "png");
    let c = attachment_file_path(1, 2, "3.png");
    assert_ne!(a, b);
    assert_ne!(a, c);
    assert_ne!(avatar_file_path(1, 23), avatar_file_path(12, 3));
    let mut seen = std::collections::HashSet::new();
    for unique in 0..200u64 {
        assert!(seen.insert(attachment_file_path(7, unique, "bin")));
        assert!(seen.insert(avatar_file_path(7, unique)));
    }
}

fn webhook(events: &[&str]) -> WebhookConfig {
    WebhookConfig {
        id: "w1".to_string(),
        url: "http://127.0.0.1:1/hook".to_string(),
        events: events.iter().map(|e| e.to_string()).collect(),
    }
}

#[test]
fn test_webhook_empty_events_receives_everything() {
    let w = webhook(&[]);
    assert!(w.accepts_event("message"));
    assert!(w.accepts_event("receipt"));
    assert!(w.accepts_event(""));
}

#[test]
fn test_webhook_event_filter_allows_matching_events() {
    assert!(webhook(&["message"]).accepts_event("message"));
}

#[test]
fn test_webhook_event_filter_blocks_non_matching_events() {
    assert!(!webhook(&["receipt"]).accepts_event("message"));
    assert!(!webhook(&["message"]).accepts_event("messages"));
}

#[test]
fn test_webhook_receipt_event_type() {
    assert!(webhook(&["message", "receipt"]).accepts_event("receipt"));
}

#[test]
fn test_webhook_typing_event_type() {
    assert!(webhook(&["typing"]).accepts_event("typing"));
    assert!(!webhook(&["typing"]).accepts_event("receipt"));
}

#[test]
fn test_send_v2() {
    let mut m = Metrics::new();
    let body = obj(vec![
        ("message", Json::text("hello")),
        ("number", Json::text("+1234567890")),
        ("recipients", Json::one_text("+9999")),
    ]);
    let a = v2_send(&mut m, body, Ok(timestamp_result()));
    assert_eq!(a.status, 201);
    assert!(matches!(&a.body, Some(Json::Object(e)) if matches!(e[0], (ref k, Json::Int(1234567890)) if k == "timestamp")));
}

#[test]
fn test_send_v2_rpc_error() {
    let mut m = Metrics::new();
    let a = v2_send(&mut m, send_body("+ERROR"), Err("Invalid account".to_string()));
    assert_eq!(a.status, 400);
    assert_eq!(body_text(&a, "error").as_deref(), Some("Invalid account"));
}

#[test]
fn test_send_v1_rpc_error() {
    let mut m = Metrics::new();
    let a = v1_send(&mut m, send_body("+ERROR"), Err("Invalid account".to_string()));
    assert_eq!(a.status, 400);
    assert_eq!(body_text(&a, "error").as_deref(), Some("Invalid account"));
    assert_eq!((m.rpc_calls, m.rpc_errors, m.messages_sent), (1, 1, 0));
}

#[test]
fn test_call_counted_before_its_outcome() {
    let mut m = Metrics::new();
    start_call(&mut m);
    assert_eq!((m.rpc_calls, m.rpc_errors, m.messages_sent), (1, 0, 0));
    finish_call(&mut m, Reply::Created, true, Ok(Json::Null));
    assert_eq!((m.rpc_calls, m.rpc_errors, m.messages_sent), (1, 0, 1));
    start_call(&mut m);
    finish_call(&mut m, Reply::Created, true, Err("boom".to_string()));
    assert_eq!((m.rpc_calls, m.rpc_errors, m.messages_sent), (2, 1, 1));
}
