use cheapforge::{
    capture_all, classify, classify_parsed, encode_call, finish, BridgeError, Call, Capture, Event,
    Outcome,
};

fn run(events: Vec<Event>) -> Outcome {
    finish(&capture_all(events))
}

fn json(text: &str) -> serde_json::Value {
    serde_json::from_str(text).unwrap()
}

#[test]
fn clean_reply_is_success() {
    let out = run(vec![
        Event::Stdout(b"{\"result\": 7}".to_vec()),
        Event::Terminated(Some(0)),
    ]);
    match out {
        Outcome::Success { payload } => assert_eq!(json(&payload), json("{\"result\": 7}")),
        _ => panic!("expected a success"),
    }
}

#[test]
fn reported_error_is_worker_error() {
    let out = classify(
        "{\"error\": \"bad input\", \"traceback\": \"Traceback: line 3\"}",
        "",
    );
    match out {
        Outcome::WorkerError { message, traceback } => {
            assert!(message.contains("bad input"));
            assert_eq!(message, "\"bad input\"");
            assert_eq!(traceback, "Traceback: line 3");
        }
        _ => panic!("expected a worker error"),
    }
}

#[test]
fn reported_error_without_traceback() {
    match classify("{\"error\": 3}", "warning") {
        Outcome::WorkerError { message, traceback } => {
            assert_eq!(message, "3");
            assert_eq!(traceback, "");
        }
        _ => panic!("expected a worker error"),
    }
}

#[test]
fn silent_crash_is_worker_failure() {
    let out = run(vec![Event::Stderr(b"boom".to_vec()), Event::Terminated(Some(1))]);
    match out {
        Outcome::WorkerFailure { diagnostic } => assert_eq!(diagnostic, "boom"),
        _ => panic!("expected a worker failure"),
    }
}

#[test]
fn garbled_reply_is_protocol_error() {
    let out = run(vec![Event::Stdout(b"not json".to_vec()), Event::Terminated(Some(0))]);
    match out {
        Outcome::ProtocolError { parse_error, stdout } => {
            assert_eq!(stdout, "not json");
            assert!(!parse_error.is_empty());
        }
        _ => panic!("expected a protocol error"),
    }
}

#[test]
fn no_output_at_all_is_protocol_error() {
    assert!(matches!(classify("", ""), Outcome::ProtocolError { .. }));
}

#[test]
fn output_beside_diagnostics_is_parsed() {
    match classify("[1, 2]", "a warning") {
        Outcome::Success { payload } => assert_eq!(payload, "[1, 2]"),
        _ => panic!("expected a success"),
    }
}

#[test]
fn trailing_text_is_protocol_error() {
    assert!(matches!(
        classify("{\"result\": 1}\nextra", ""),
        Outcome::ProtocolError { .. }
    ));
}

#[test]
fn classify_parsed_picks_by_error_member() {
    match classify_parsed("{}", None, Some("tb".to_string())) {
        Outcome::Success { payload } => assert_eq!(payload, "{}"),
        _ => panic!("expected a success"),
    }
    match classify_parsed("{}", Some("\"e\"".to_string()), None) {
        Outcome::WorkerError { message, traceback } => {
            assert_eq!(message, "\"e\"");
            assert_eq!(traceback, "");
        }
        _ => panic!("expected a worker error"),
    }
}

#[test]
fn malformed_bytes_are_replaced() {
    match run(vec![Event::Stderr(vec![b'x', 0xff]), Event::Terminated(None)]) {
        Outcome::WorkerFailure { diagnostic } => assert_eq!(diagnostic, "x\u{FFFD}"),
        _ => panic!("expected a worker failure"),
    }
}

#[test]
fn chunks_are_joined_in_order_and_frozen_after_termination() {
    let cap = capture_all(vec![
        Event::Stdout(b"{\"res".to_vec()),
        Event::Stderr(b"w1".to_vec()),
        Event::Other,
        Event::Stdout(b"ult\": 2}".to_vec()),
        Event::Stderr(b"w2".to_vec()),
        Event::Terminated(Some(0)),
        Event::Stdout(b"late".to_vec()),
    ]);
    assert_eq!(cap.stdout, b"{\"result\": 2}".to_vec());
    assert_eq!(cap.stderr, b"w1w2".to_vec());
    assert!(cap.terminated);
}

#[test]
fn on_event_reports_termination() {
    let mut cap = Capture::new();
    assert!(!cap.on_event(Event::Stdout(b"1".to_vec())));
    assert!(cap.on_event(Event::Terminated(Some(0))));
    assert!(cap.on_event(Event::Stderr(b"x".to_vec())));
    assert!(cap.stderr.is_empty());
}

#[test]
fn request_line_is_exact() {
    let call = Call { method: "m".to_string(), params: "{\"a\":1}".to_string() };
    assert_eq!(encode_call(&call), "{\"method\":\"m\",\"params\":{\"a\":1}}\n");
}

#[test]
fn method_name_is_escaped() {
    let call = Call { method: "a\"b".to_string(), params: "null".to_string() };
    assert_eq!(encode_call(&call), "{\"method\":\"a\\\"b\",\"params\":null}\n");
}

#[test]
fn params_round_trip_through_echo_worker() {
    let params = "{\"a\": 1, \"nested\": [1,2,3]}";
    let call = Call { method: "echo".to_string(), params: params.to_string() };
    let line = encode_call(&call);
    assert!(line.ends_with('\n'));
    assert_eq!(line.matches('\n').count(), 1);
    let request = json(line.trim_end());
    assert_eq!(request["method"], json("\"echo\""));
    let echoed = request["params"].to_string();
    let out = run(vec![Event::Stdout(echoed.into_bytes()), Event::Terminated(Some(0))]);
    match out {
        Outcome::Success { payload } => assert_eq!(json(&payload), json(params)),
        _ => panic!("expected a success"),
    }
}

#[test]
fn concurrent_calls_do_not_cross() {
    let rt = tokio::runtime::Builder::new_current_thread().build().unwrap();
    rt.block_on(async {
        let call = |marker: &'static str| async move {
            let mut cap = Capture::new();
            let events = vec![
                Event::Stdout(b"{\"marker\": ".to_vec()),
                Event::Stderr(marker.as_bytes().to_vec()),
                Event::Stdout(format!("\"{}\"}}", marker).into_bytes()),
                Event::Terminated(Some(0)),
            ];
            for ev in events {
                if cap.on_event(ev) {
                    break;
                }
                tokio::task::yield_now().await;
            }
            finish(&cap)
        };
        let a = tokio::spawn(call("left"));
        let b = tokio::spawn(call("right"));
        let (a, b) = (a.await.unwrap(), b.await.unwrap());
        match (a, b) {
            (Outcome::Success { payload: pa }, Outcome::Success { payload: pb }) => {
                assert_eq!(json(&pa), json("{\"marker\": \"left\"}"));
                assert_eq!(json(&pb), json("{\"marker\": \"right\"}"));
            }
            _ => panic!("expected two successes"),
        }
    });
}

#[test]
fn reissued_call_is_not_cached() {
    let call = Call { method: "rand".to_string(), params: "{}".to_string() };
    assert_eq!(encode_call(&call), encode_call(&call));
    let first = run(vec![Event::Stdout(b"1".to_vec()), Event::Terminated(Some(0))]);
    let second = run(vec![Event::Stdout(b"2".to_vec()), Event::Terminated(Some(0))]);
    match (first, second) {
        (Outcome::Success { payload: a }, Outcome::Success { payload: b }) => assert_ne!(a, b),
        _ => panic!("expected two successes"),
    }
}

#[test]
fn outcomes_map_to_errors() {
    assert!(matches!(
        Outcome::Success { payload: "1".to_string() }.into_result(),
        Ok(p) if p == "1"
    ));
    let e = Outcome::WorkerFailure { diagnostic: "boom".to_string() }.into_result().unwrap_err();
    assert_eq!(e.message(), "Sidecar error: boom");
    let e = Outcome::ProtocolError { parse_error: "bad".to_string(), stdout: "x".to_string() }
        .into_result()
        .unwrap_err();
    assert_eq!(e.message(), "Failed to parse response: bad - stdout: x");
    let e = Outcome::WorkerError { message: "\"m\"".to_string(), traceback: "tb".to_string() }
        .into_result()
        .unwrap_err();
    assert_eq!(e.message(), "Python error: \"m\" \ntb");
}

#[test]
fn error_messages_are_exact() {
    let d = || "why".to_string();
    assert_eq!(BridgeError::Setup { detail: d() }.message(), "Failed to create sidecar command: why");
    assert_eq!(BridgeError::Spawn { detail: d() }.message(), "Failed to spawn sidecar: why");
    assert_eq!(BridgeError::Write { detail: d() }.message(), "Failed to write to stdin: why");
    assert_eq!(BridgeError::MissingField { field: "path".to_string() }.message(), "No path in response");
}

#[test]
fn request_is_one_line_even_with_control_characters_in_method() {
    let call = Call { method: "x\ny\r\u{8}\u{c}".to_string(), params: "[]".to_string() };
    let line = encode_call(&call);
    assert_eq!(line, "{\"method\":\"x\\ny\\r\\b\\f\",\"params\":[]}\n");
    assert_eq!(line.matches('\n').count(), 1);
}
