use backend::db::api_keys::{first_usable, key_is_valid, rate_limit_outcome, revocation_outcome, RateLimitOutcome};
use backend::middleware::api_key::{admit_request, api_key_header, gate_request, Admission, Gate};
use backend::models::api_key::ApiKey;
use backend::rate_limit::{decide, record_request, RateDecision, RateWindow, WINDOW_SECONDS};

fn fresh(limit: i32) -> RateWindow {
    RateWindow { requests_per_minute: limit, requests_this_minute: 0, last_request_time: None }
}

fn key(text: &str, limit: i32, active: bool, deleted_at: Option<i64>) -> ApiKey {
    ApiKey {
        id: 1,
        key: text.to_string(),
        name: "test_key".to_string(),
        created_at: 0,
        last_used_at: None,
        is_active: active,
        deleted_at,
        requests_per_minute: limit,
        requests_this_minute: 0,
        last_request_time: None,
    }
}

#[test]
fn budget_of_two_admits_two_then_refuses() {
    let w = fresh(2);
    let (a1, w1) = record_request(&w, 1_000);
    let (a2, w2) = record_request(&w1, 1_001);
    let (a3, w3) = record_request(&w2, 1_002);
    assert!(a1);
    assert!(a2);
    assert!(!a3);
    assert_eq!(w1.requests_this_minute, 1);
    assert_eq!(w2.requests_this_minute, 2);
    assert_eq!(w3.requests_this_minute, 2);
    assert_eq!(w3.last_request_time, Some(1_001));
}

#[test]
fn burst_within_a_minute_admits_exactly_the_budget() {
    let mut w = fresh(5);
    let mut admitted = 0;
    for i in 0..12i64 {
        let (ok, next) = record_request(&w, 5_000 + i * 4);
        assert_eq!(ok, i < 5);
        if ok {
            admitted += 1;
        }
        w = next;
    }
    assert_eq!(admitted, 5);
    assert_eq!(w.requests_this_minute, 5);
}

#[test]
fn window_from_expired_counters_admits_the_budget() {
    let mut w = RateWindow { requests_per_minute: 2, requests_this_minute: 2, last_request_time: Some(0) };
    let mut outcomes = Vec::new();
    for t in [100i64, 101, 150, 159] {
        let (ok, next) = record_request(&w, t);
        if !ok {
            assert_eq!(next.requests_this_minute, w.requests_this_minute);
            assert_eq!(next.last_request_time, w.last_request_time);
        }
        outcomes.push(ok);
        w = next;
    }
    assert_eq!(outcomes, vec![true, true, false, false]);
    assert_eq!(w.requests_this_minute, 2);
    assert_eq!(w.last_request_time, Some(101));
}

#[test]
fn quiet_minute_reopens_the_window() {
    let w = RateWindow { requests_per_minute: 2, requests_this_minute: 2, last_request_time: Some(100) };
    let (ok, _) = record_request(&w, 159);
    assert!(!ok);
    let (ok, after) = record_request(&w, 100 + WINDOW_SECONDS);
    assert!(ok);
    assert_eq!(after.requests_this_minute, 1);
    assert_eq!(after.last_request_time, Some(160));
}

#[test]
fn refusal_leaves_counters_unchanged() {
    let w = RateWindow { requests_per_minute: 3, requests_this_minute: 3, last_request_time: Some(10) };
    assert!(matches!(decide(&w, 20), RateDecision::Refuse));
    let (ok, after) = record_request(&w, 20);
    assert!(!ok);
    assert_eq!(after.requests_this_minute, 3);
    assert_eq!(after.last_request_time, Some(10));
}

#[test]
fn counting_within_window_increments() {
    let w = RateWindow { requests_per_minute: 3, requests_this_minute: 1, last_request_time: Some(10) };
    assert!(matches!(decide(&w, 20), RateDecision::Count));
    let (ok, after) = record_request(&w, 20);
    assert!(ok);
    assert_eq!(after.requests_this_minute, 2);
    assert_eq!(after.last_request_time, Some(20));
    assert!(matches!(decide(&fresh(3), 0), RateDecision::StartWindow));
}

#[test]
fn extreme_times_do_not_overflow() {
    let w = RateWindow { requests_per_minute: 1, requests_this_minute: 1, last_request_time: Some(i64::MIN) };
    let (ok, after) = record_request(&w, i64::MAX);
    assert!(ok);
    assert_eq!(after.requests_this_minute, 1);
    let w = RateWindow { requests_per_minute: 1, requests_this_minute: 1, last_request_time: Some(i64::MAX) };
    let (ok, _) = record_request(&w, i64::MIN);
    assert!(!ok);
}

#[test]
fn usable_keys_are_active_and_not_deleted() {
    let rows = vec![key("k", 60, false, None), key("k", 60, true, Some(5)), key("k", 60, true, None)];
    assert_eq!(first_usable(&rows), Some(2));
    assert!(key_is_valid(&rows));
    let revoked = vec![key("k", 60, true, Some(5))];
    assert_eq!(first_usable(&revoked), None);
    assert!(!key_is_valid(&revoked));
    assert!(!key_is_valid(&Vec::new()));
}

#[test]
fn rate_limit_outcome_of_stored_keys() {
    assert!(matches!(rate_limit_outcome(&Vec::new(), 0), RateLimitOutcome::UnknownKey));
    let rows = vec![key("k", 1, true, None)];
    match rate_limit_outcome(&rows, 50) {
        RateLimitOutcome::Admitted(w) => {
            assert_eq!(w.requests_this_minute, 1);
            assert_eq!(w.last_request_time, Some(50));
        }
        _ => panic!("expected admission"),
    }
    let mut spent = key("k", 1, true, None);
    spent.requests_this_minute = 1;
    spent.last_request_time = Some(40);
    assert!(matches!(rate_limit_outcome(&vec![spent], 50), RateLimitOutcome::Refused));
}

#[test]
fn revoking_a_missing_key_is_not_found() {
    assert!(revocation_outcome(1).is_ok());
    match revocation_outcome(0) {
        Err(e) => {
            assert_eq!(e.status_code(), 404);
            assert_eq!(e.error_body().error, "API key not found");
        }
        Ok(()) => panic!("expected an error"),
    }
}

#[test]
fn requests_without_a_key_are_refused() {
    assert_eq!(api_key_header(), "X-API-Key");
    match gate_request("/nodes", None) {
        Gate::Reject(r) => {
            assert_eq!(r.status, 401);
            assert_eq!(r.message, "Missing API key");
        }
        _ => panic!("expected a refusal"),
    }
    match gate_request("/nodes", Some("abc".to_string())) {
        Gate::Lookup(k) => assert_eq!(k, "abc"),
        _ => panic!("expected a lookup"),
    }
}

#[test]
fn key_management_needs_no_key() {
    assert!(matches!(gate_request("/api-keys", None), Gate::Pass));
    assert!(matches!(gate_request("/api-keys/7", None), Gate::Pass));
    assert!(matches!(gate_request("/api-keysx", None), Gate::Reject(_)));
    assert!(matches!(gate_request("/nodes/api-keys", None), Gate::Reject(_)));
}

#[test]
fn invalid_revoked_and_exhausted_keys_are_refused() {
    match admit_request(&Vec::new(), 0) {
        Admission::Reject(r) => {
            assert_eq!(r.status, 401);
            assert_eq!(r.message, "Invalid API key");
        }
        _ => panic!("expected a refusal"),
    }
    match admit_request(&vec![key("k", 60, true, Some(3))], 0) {
        Admission::Reject(r) => assert_eq!(r.status, 401),
        _ => panic!("expected a refusal"),
    }
    let rows = vec![key("k", 2, true, None)];
    let mut stored = rows[0].clone();
    let mut statuses = Vec::new();
    for t in 0..3i64 {
        match admit_request(&vec![stored.clone()], 1_000 + t) {
            Admission::Admit(w) => {
                statuses.push(200);
                stored.requests_this_minute = w.requests_this_minute;
                stored.last_request_time = w.last_request_time;
            }
            Admission::Reject(r) => {
                assert_eq!(r.message, "Rate limit exceeded");
                statuses.push(r.status);
            }
        }
    }
    assert_eq!(statuses, vec![200, 200, 429]);
}
