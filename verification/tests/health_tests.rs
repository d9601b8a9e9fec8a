use sidecar_supervisor::health::{health_url, is_success_status, HealthCheckResult, ProbeOutcome};

#[test]
fn only_2xx_statuses_are_healthy() {
    assert!(!is_success_status(0));
    assert!(!is_success_status(199));
    assert!(is_success_status(200));
    assert!(is_success_status(204));
    assert!(is_success_status(299));
    assert!(!is_success_status(300));
    assert!(!is_success_status(404));
    assert!(!is_success_status(500));
    assert!(!is_success_status(u16::MAX));
}

#[test]
fn health_url_names_local_host_port_and_path() {
    assert_eq!(health_url(3000, "/api/health"), "http://localhost:3000/api/health");
    assert_eq!(health_url(80, "/healthz"), "http://localhost:80/healthz");
    assert_eq!(health_url(65535, ""), "http://localhost:65535");
}

#[test]
fn healthy_answer_is_recorded_as_success() {
    let r = HealthCheckResult::from_outcome(
        ProbeOutcome::Responded { status: 200 },
        12,
        String::from("2024-01-01T00:00:00+00:00"),
    );
    assert!(r.success);
    assert_eq!(r.response_time_ms, 12);
    assert_eq!(r.status_code, Some(200));
    assert_eq!(r.error, None);
    assert_eq!(r.timestamp, "2024-01-01T00:00:00+00:00");
}

#[test]
fn unhealthy_answer_is_recorded_with_its_status() {
    let r = HealthCheckResult::from_outcome(
        ProbeOutcome::Responded { status: 503 },
        40,
        String::from("t"),
    );
    assert!(!r.success);
    assert_eq!(r.status_code, Some(503));
    assert_eq!(r.error, Some(String::from("HTTP 503")));
    assert_eq!(r.response_time_ms, 40);
}

#[test]
fn transport_error_is_recorded_in_its_own_words() {
    let r = HealthCheckResult::from_outcome(
        ProbeOutcome::TransportError { description: String::from("connection refused") },
        3,
        String::from("t"),
    );
    assert!(!r.success);
    assert_eq!(r.status_code, None);
    assert_eq!(r.error, Some(String::from("connection refused")));
}

#[test]
fn timeout_is_recorded_as_request_timeout() {
    let r = HealthCheckResult::from_outcome(ProbeOutcome::TimedOut, 5000, String::from("t"));
    assert!(!r.success);
    assert_eq!(r.status_code, None);
    assert_eq!(r.error, Some(String::from("Request timeout")));
    assert_eq!(r.response_time_ms, 5000);
    assert_eq!(r.timestamp, "t");
}
