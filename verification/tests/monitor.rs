use healthcheck::Config;
use healthcheck::EndpointState;
use healthcheck::ProbeResult;
use healthcheck::monitor::url_is_valid;

fn config(notify_failures: u64, rereport: u64) -> Config {
    Config::new(
        "token".to_string(),
        42,
        10_000,
        1_000,
        notify_failures,
        rereport,
        vec!["http://example.com".to_string()],
    )
    .unwrap()
}

fn state(url: &str) -> EndpointState {
    EndpointState::new(url.to_string()).unwrap()
}

fn fail() -> ProbeResult {
    ProbeResult::Transport {
        text: "connection refused".to_string(),
    }
}

fn status(code: u16, text: &str) -> ProbeResult {
    ProbeResult::Status {
        code,
        text: text.to_string(),
    }
}

fn ok() -> ProbeResult {
    status(200, "200 OK")
}

#[test]
fn scenario_a_threshold_and_rereport() {
    // notify_failures = 3, rereport = 5; seven failures then a success:
    // alerts fire at failure #3 and #5 and on the recovery, nowhere else.
    let cfg = config(3, 5);
    let mut st = state("http://example.com");
    let expected_notify = [false, false, true, false, true, false, false];
    for (i, &expect) in expected_notify.iter().enumerate() {
        let d = st.step(&cfg, &fail());
        assert!(d.message.is_some(), "failure #{} must produce a message", i + 1);
        assert_eq!(d.notify, expect, "notify wrong at failure #{}", i + 1);
        assert_eq!(st.consecutive_failures, (i + 1) as u64);
    }
    let d = st.step(&cfg, &ok());
    assert!(d.notify, "recovery must be delivered");
    assert_eq!(
        d.message.unwrap(),
        "http://example.com Recovered".to_string()
    );
    assert_eq!(st.consecutive_failures, 0);
    assert_eq!(st.total_failures, 7);
    assert_eq!(st.total_successes, 1);
}

#[test]
fn scenario_b_first_failure_notifies_immediately() {
    let cfg = config(1, 5);
    let mut st = state("http://example.com");
    let d = st.step(&cfg, &fail());
    assert!(d.notify);
    assert_eq!(st.consecutive_failures, 1);
}

#[test]
fn scenario_c_bad_url_starts_no_monitor() {
    assert!(!url_is_valid("not a url"));
    assert!(EndpointState::new("not a url".to_string()).is_none());
    // sibling endpoints are unaffected: a good address still gets its state
    assert!(EndpointState::new("http://example.com".to_string()).is_some());
}

#[test]
fn scenario_d_two_transport_errors_then_recovery() {
    // notify_failures = 2: expect exactly two deliveries, the failure alert
    // at count 2 and the recovery alert.
    let cfg = config(2, 7);
    let mut st = state("http://example.com");
    let mut delivered = 0;
    for outcome in [fail(), fail(), ok()] {
        let d = st.step(&cfg, &outcome);
        if d.notify {
            delivered += 1;
        }
    }
    assert_eq!(delivered, 2);
    assert_eq!(st.consecutive_failures, 0);
    assert_eq!(st.total_failures, 2);
    assert_eq!(st.total_successes, 1);
}

#[test]
fn consecutive_failures_reset_on_success_positive_on_failure() {
    let cfg = config(3, 5);
    let mut st = state("http://example.com");
    for outcome in [fail(), ok(), fail(), fail(), ok(), ok()] {
        let success = matches!(outcome, ProbeResult::Status { code: 200, .. });
        st.step(&cfg, &outcome);
        if success {
            assert_eq!(st.consecutive_failures, 0);
        } else {
            assert!(st.consecutive_failures > 0);
        }
    }
}

#[test]
fn counters_sum_to_completed_probes() {
    let cfg = config(3, 5);
    let mut st = state("http://example.com");
    let outcomes = [fail(), ok(), fail(), fail(), ok(), fail(), ok(), ok()];
    for (i, outcome) in outcomes.iter().enumerate() {
        st.step(&cfg, outcome);
        assert_eq!(st.total_failures + st.total_successes, (i + 1) as u64);
    }
}

#[test]
fn non_ok_status_counts_as_failure() {
    let cfg = config(1, 5);
    let mut st = state("http://example.com");
    let d = st.step(&cfg, &status(503, "503 Service Unavailable"));
    assert!(d.notify);
    assert_eq!(st.consecutive_failures, 1);
    assert_eq!(st.total_failures, 1);
    assert_eq!(st.total_successes, 0);
}

#[test]
fn sleep_cadence_follows_message() {
    let cfg = config(3, 5);
    let mut st = state("http://example.com");
    // plain success: success interval
    let d = st.step(&cfg, &ok());
    assert!(d.message.is_none());
    assert_eq!(d.sleep_ms, 10_000);
    // failure: fail interval
    let d = st.step(&cfg, &fail());
    assert!(d.message.is_some());
    assert_eq!(d.sleep_ms, 1_000);
    // recovery tick produced a message, so the fail interval applies to it too
    let d = st.step(&cfg, &ok());
    assert!(d.message.is_some());
    assert_eq!(d.sleep_ms, 1_000);
}

#[test]
fn url_gate_accepts_well_formed_urls() {
    assert!(url_is_valid("http://example.com"));
    assert!(url_is_valid("https://example.com:8443/health?x=1"));
    assert!(!url_is_valid(""));
    assert!(!url_is_valid("not a url"));
}

#[test]
fn fresh_state_has_zero_counters_and_keeps_url() {
    let st = state("http://example.com");
    assert_eq!(st.url, "http://example.com".to_string());
    assert_eq!(st.consecutive_failures, 0);
    assert_eq!(st.total_failures, 0);
    assert_eq!(st.total_successes, 0);
}
