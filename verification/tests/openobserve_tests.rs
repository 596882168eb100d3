use o2_lambda_extension::config::Config;
use o2_lambda_extension::openobserve::{
    count_top_level_separators, create_test_event, estimate_events, send_batch_to_openobserve,
    status_is_retryable, status_is_success, AttemptOutcome, SendError, SendProgress, SendStep,
};

fn retry_config(max_retries: u32, initial: u64, max: u64) -> Config {
    Config {
        max_retries,
        initial_retry_delay_ms: initial,
        max_retry_delay_ms: max,
        ..Default::default()
    }
}

fn answer(status: u16, body: &str) -> AttemptOutcome {
    AttemptOutcome::Response { status, body: Some(body.to_string()) }
}

/// Runs a send against a sink that answers as `sink` says for each attempt.
fn run(
    config: &Config,
    batch: &[u8],
    sink: &dyn Fn(u32) -> AttemptOutcome,
) -> (u32, Vec<u64>, Result<u64, SendError>) {
    let mut progress = SendProgress::start(config, batch);
    let mut attempts = 0;
    let mut delays = Vec::new();
    loop {
        let outcome = sink(attempts);
        attempts += 1;
        match send_batch_to_openobserve(config, progress, outcome) {
            SendStep::Sent { events_sent } => return (attempts, delays, Ok(events_sent)),
            SendStep::Failed { error } => return (attempts, delays, Err(error)),
            SendStep::Retry { delay_ms, next } => {
                delays.push(delay_ms);
                progress = next;
            }
        }
    }
}

#[test]
fn a_sink_that_always_fails_is_tried_four_times_with_doubling_delays() {
    let config = retry_config(3, 1000, 8000);
    let (attempts, delays, result) = run(&config, b"[{}]", &|attempt| {
        AttemptOutcome::Response { status: 500, body: Some(format!("failure {attempt}")) }
    });
    assert_eq!(attempts, 4);
    assert_eq!(delays, vec![1000, 2000, 4000]);
    assert_eq!(
        result,
        Err(SendError::Status { status: 500, body: Some("failure 3".to_string()) })
    );
}

#[test]
fn the_delay_is_capped() {
    let config = retry_config(5, 1000, 3000);
    let (attempts, delays, result) =
        run(&config, b"[{}]", &|_| AttemptOutcome::Transport { detail: "refused".to_string() });
    assert_eq!(attempts, 6);
    assert_eq!(delays, vec![1000, 2000, 3000, 3000, 3000]);
    assert_eq!(result, Err(SendError::Transport { detail: "refused".to_string() }));
}

#[test]
fn the_delay_does_not_overflow() {
    let config = retry_config(3, u64::MAX - 1, u64::MAX);
    let (_, delays, _) = run(&config, b"[{}]", &|_| answer(503, ""));
    assert_eq!(delays, vec![u64::MAX - 1, u64::MAX, u64::MAX]);
}

#[test]
fn a_client_error_is_not_retried() {
    let config = retry_config(3, 1000, 8000);
    let (attempts, delays, result) = run(&config, b"[{}]", &|_| answer(400, "bad request"));
    assert_eq!(attempts, 1);
    assert!(delays.is_empty());
    assert_eq!(
        result,
        Err(SendError::Status { status: 400, body: Some("bad request".to_string()) })
    );
    for status in [100, 301, 401, 403, 404, 418, 428, 430, 499, 600] {
        let (attempts, delays, result) = run(&config, b"[{}]", &|_| answer(status, "no"));
        assert_eq!(attempts, 1, "status {status}");
        assert!(delays.is_empty());
        assert_eq!(result, Err(SendError::Status { status, body: Some("no".to_string()) }));
    }
}

#[test]
fn too_many_requests_is_retried() {
    let config = retry_config(2, 10, 100);
    let (attempts, delays, result) = run(&config, b"[{}]", &|_| answer(429, "slow down"));
    assert_eq!(attempts, 3);
    assert_eq!(delays, vec![10, 20]);
    assert_eq!(
        result,
        Err(SendError::Status { status: 429, body: Some("slow down".to_string()) })
    );
}

#[test]
fn success_ends_the_send() {
    let config = retry_config(3, 1000, 8000);
    let (attempts, delays, result) = run(&config, b"[{},{},{}]", &|_| answer(200, "ok"));
    assert_eq!((attempts, delays, result), (1, vec![], Ok(3)));
    let (attempts, delays, result) = run(&config, b"[{},{}]", &|attempt| {
        if attempt < 2 {
            answer(502, "bad gateway")
        } else {
            AttemptOutcome::Response { status: 204, body: None }
        }
    });
    assert_eq!((attempts, delays, result), (3, vec![1000, 2000], Ok(2)));
}

#[test]
fn without_retries_the_first_failure_is_final() {
    let config = retry_config(0, 1000, 8000);
    let (attempts, delays, result) = run(&config, b"[{}]", &|_| answer(500, "down"));
    assert_eq!(attempts, 1);
    assert!(delays.is_empty());
    assert_eq!(result, Err(SendError::Status { status: 500, body: Some("down".to_string()) }));
}

#[test]
fn an_unreadable_body_is_carried_as_none() {
    let config = retry_config(0, 1000, 8000);
    let step = send_batch_to_openobserve(
        &config,
        SendProgress::start(&config, b"[{}]"),
        AttemptOutcome::Response { status: 500, body: None },
    );
    assert_eq!(step, SendStep::Failed { error: SendError::Status { status: 500, body: None } });
}

#[test]
fn one_step_of_the_sender() {
    let config = retry_config(3, 1000, 8000);
    let start = SendProgress::start(&config, b"[1,2]");
    assert_eq!(start, SendProgress { attempt: 0, current_delay: 1000, events_count: 2 });
    let step = send_batch_to_openobserve(&config, start, answer(500, "x"));
    let next = SendProgress { attempt: 1, current_delay: 2000, events_count: 2 };
    assert_eq!(step, SendStep::Retry { delay_ms: 1000, next });
    let last = SendProgress { attempt: 3, current_delay: 8000, events_count: 2 };
    let step = send_batch_to_openobserve(&config, last, answer(500, "x"));
    assert_eq!(
        step,
        SendStep::Failed { error: SendError::Status { status: 500, body: Some("x".to_string()) } }
    );
}

#[test]
fn statuses_are_classified() {
    assert!(status_is_success(200));
    assert!(status_is_success(299));
    assert!(!status_is_success(199));
    assert!(!status_is_success(300));
    assert!(status_is_retryable(500));
    assert!(status_is_retryable(599));
    assert!(status_is_retryable(429));
    assert!(!status_is_retryable(499));
    assert!(!status_is_retryable(600));
    assert!(!status_is_retryable(400));
    assert!(!status_is_retryable(200));
    assert!(SendError::Transport { detail: String::new() }.is_retryable());
    assert!(SendError::Status { status: 503, body: None }.is_retryable());
    assert!(!SendError::Status { status: 404, body: None }.is_retryable());
}

#[test]
fn events_are_estimated_from_top_level_separators() {
    assert_eq!(estimate_events(b"[{}]"), 1);
    assert_eq!(estimate_events(b"[{},{}]"), 2);
    assert_eq!(estimate_events(b"[1,2,3]"), 3);
    assert_eq!(estimate_events(br#"[{"a":1,"b":2},{"c":[1,2,3]}]"#), 2);
    assert_eq!(estimate_events(br#"[{"text":"a,b,c"},{"text":"],["}]"#), 2);
    assert_eq!(estimate_events(br#"[{"text":"quote \" , "},{"text":"\\"},{}]"#), 3);
    assert_eq!(estimate_events(b"[]"), 1);
}

#[test]
fn events_of_what_is_no_array_are_one() {
    assert_eq!(estimate_events(b""), 1);
    assert_eq!(estimate_events(b"{},{}"), 1);
    assert_eq!(estimate_events(b"[1,2"), 1);
    assert_eq!(estimate_events(b"1,2]"), 1);
    assert_eq!(estimate_events(b"x[1,2]"), 1);
    assert_eq!(estimate_events(&[0xff, b'[', b',', b']']), 1);
    assert_eq!(estimate_events(&[b'[', b',', 0xc3, b']']), 1);
}

#[test]
fn the_estimate_looks_at_the_trimmed_text() {
    assert_eq!(estimate_events(b"  [1,2]\n"), 2);
    assert_eq!(estimate_events("\u{2003}[1,2,3]\u{a0}".as_bytes()), 3);
    assert_eq!(estimate_events(b"\t[1]\r\n"), 1);
}

#[test]
fn separators_are_counted_at_depth_one_outside_strings() {
    assert_eq!(count_top_level_separators(b""), 0);
    assert_eq!(count_top_level_separators(b",,,"), 0);
    assert_eq!(count_top_level_separators(b"[,,,]"), 3);
    assert_eq!(count_top_level_separators(b"[[,],{,},\",\"]"), 2);
    assert_eq!(count_top_level_separators(b"{,}"), 1);
    assert_eq!(count_top_level_separators(b"][,]"), 1);
    assert_eq!(count_top_level_separators(b"[\"\\\",\",1]"), 1);
}

#[test]
fn the_test_event_is_an_extension_record() {
    let event = create_test_event(1_700_000_000_000_000);
    assert_eq!(event.time, 1_700_000_000_000_000);
    assert_eq!(event.event_type, "extension");
    assert_eq!(event.record, "\"OpenObserve Lambda Extension health check\"");
    assert_eq!(event.request_id, None);
    let record: serde_json::Value = serde_json::from_str(&event.record).unwrap();
    assert_eq!(
        record,
        serde_json::Value::String("OpenObserve Lambda Extension health check".to_string())
    );
}
