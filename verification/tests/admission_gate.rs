use rust_iss::middleware::{
    client_identity, counter_key, decide, decide_reply, opens_window, GateDecision, HeaderText,
    RateCounter,
};

#[test]
fn requests_up_to_the_threshold_are_admitted() {
    let mut c = RateCounter::new();
    for k in 0..5u64 {
        assert_eq!(c.screen(5, 1000 + k), GateDecision::Admit);
    }
    assert_eq!(c.count, 5);
    assert_eq!(c.expires_at, Some(1060));
}

#[test]
fn request_over_the_threshold_is_rejected_with_the_threshold() {
    let mut c = RateCounter::new();
    for _ in 0..3 {
        assert_eq!(c.screen(3, 500), GateDecision::Admit);
    }
    assert_eq!(c.screen(3, 559), GateDecision::Reject { limit: 3, retry_after: 60 });
    assert_eq!(c.screen(3, 559), GateDecision::Reject { limit: 3, retry_after: 60 });
    assert_eq!(c.count, 5);
}

#[test]
fn counter_resets_when_the_window_is_over() {
    let mut c = RateCounter::new();
    assert_eq!(c.screen(1, 500), GateDecision::Admit);
    assert_eq!(c.screen(1, 559), GateDecision::Reject { limit: 1, retry_after: 60 });
    assert_eq!(c.screen(1, 560), GateDecision::Admit);
    assert_eq!(c.count, 1);
    assert_eq!(c.expires_at, Some(620));
}

#[test]
fn threshold_of_zero_admits_nothing() {
    let mut c = RateCounter::new();
    assert_eq!(c.screen(0, 10), GateDecision::Reject { limit: 0, retry_after: 60 });
}

#[test]
fn hit_counts_and_saturates() {
    let mut c = RateCounter { count: u32::MAX - 1, expires_at: Some(100) };
    assert_eq!(c.hit(10), u32::MAX);
    assert_eq!(c.hit(11), u32::MAX);
    assert_eq!(c.expires_at, Some(100));
    let mut late = RateCounter::new();
    assert_eq!(late.hit(u64::MAX - 3), 1);
    assert_eq!(late.expires_at, Some(u64::MAX));
}

#[test]
fn decisions_follow_the_count() {
    assert_eq!(decide(60, 60), GateDecision::Admit);
    assert_eq!(decide(61, 60), GateDecision::Reject { limit: 60, retry_after: 60 });
    assert_eq!(decide(0, 0), GateDecision::Admit);
    assert_eq!(decide_reply(None, 0), GateDecision::Admit);
    assert_eq!(decide_reply(Some(2), 1), GateDecision::Reject { limit: 1, retry_after: 60 });
    assert_eq!(decide_reply(Some(1), 1), GateDecision::Admit);
    assert!(opens_window(1));
    assert!(!opens_window(0));
    assert!(!opens_window(2));
}

#[test]
fn identity_prefers_the_forwarding_header() {
    let fwd = HeaderText::Text("10.0.0.1".to_string());
    let real = HeaderText::Text("10.0.0.2".to_string());
    assert_eq!(client_identity(&fwd, &real), "10.0.0.1");
    assert_eq!(client_identity(&HeaderText::Absent, &real), "10.0.0.2");
    assert_eq!(client_identity(&HeaderText::Absent, &HeaderText::Absent), "unknown");
    assert_eq!(client_identity(&HeaderText::Unreadable, &real), "unknown");
    assert_eq!(client_identity(&HeaderText::Absent, &HeaderText::Unreadable), "unknown");
    assert_eq!(counter_key("10.0.0.1"), "rate_limit:10.0.0.1");
    assert_eq!(counter_key("unknown"), "rate_limit:unknown");
}

#[test]
fn identities_are_counted_apart() {
    let mut gate = rust_iss::middleware::AdmissionGate::new(2);
    assert_eq!(gate.screen("a", 10), GateDecision::Admit);
    assert_eq!(gate.screen("a", 11), GateDecision::Admit);
    assert_eq!(gate.screen("b", 12), GateDecision::Admit);
    assert_eq!(gate.screen("a", 13), GateDecision::Reject { limit: 2, retry_after: 60 });
    assert_eq!(gate.screen("b", 14), GateDecision::Admit);
    assert_eq!(gate.screen("b", 15), GateDecision::Reject { limit: 2, retry_after: 60 });
    assert_eq!(gate.screen("A", 16), GateDecision::Admit);
    assert_eq!(gate.screen("a", 70), GateDecision::Admit);
    assert_eq!(gate.screen("b", 71), GateDecision::Reject { limit: 2, retry_after: 60 });
    assert_eq!(gate.screen("b", 72), GateDecision::Admit);
}

#[test]
fn clients_without_headers_share_one_counter() {
    let mut gate = rust_iss::middleware::AdmissionGate::new(1);
    let first = client_identity(&HeaderText::Absent, &HeaderText::Absent);
    let second = client_identity(&HeaderText::Unreadable, &HeaderText::Absent);
    assert_eq!(gate.screen(&first, 5), GateDecision::Admit);
    assert_eq!(gate.screen(&second, 6), GateDecision::Reject { limit: 1, retry_after: 60 });
    assert_eq!(rust_iss::middleware::REJECT_STATUS, 429);
}
