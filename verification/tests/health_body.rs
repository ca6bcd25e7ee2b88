use realtime_gateway::health::{health_now, HealthStatus};
use realtime_gateway::rfc3339::check_rfc3339_utc;

#[test]
fn health_fields_are_fixed() {
    let h = health_now();
    assert_eq!(h.status, "ok");
    assert_eq!(h.service, "realtime-gateway");
}

#[test]
fn health_timestamp_is_rfc3339_utc() {
    let h = health_now();
    assert!(
        check_rfc3339_utc(h.timestamp.as_str()),
        "timestamp not RFC 3339 UTC: {:?}",
        h.timestamp
    );
}

#[test]
fn health_timestamp_is_near_wall_clock() {
    let before = chrono::Utc::now();
    let h = health_now();
    let after = chrono::Utc::now();
    let parsed = chrono::DateTime::parse_from_rfc3339(h.timestamp.as_str())
        .expect("timestamp must parse as RFC 3339")
        .with_timezone(&chrono::Utc);
    assert!(parsed >= before - chrono::Duration::seconds(1));
    assert!(parsed <= after + chrono::Duration::seconds(1));
}

#[test]
fn json_body_exact_for_fixed_timestamp() {
    let h = HealthStatus::new("2018-01-26T18:30:09.453+00:00".to_string());
    assert_eq!(
        h.json_body(),
        "{\"status\":\"ok\",\"service\":\"realtime-gateway\",\"timestamp\":\"2018-01-26T18:30:09.453+00:00\"}"
    );
}

#[test]
fn json_body_of_current_time_frames_the_timestamp() {
    let h = health_now();
    let body = h.json_body();
    let prefix = "{\"status\":\"ok\",\"service\":\"realtime-gateway\",\"timestamp\":\"";
    let suffix = "\"}";
    assert!(body.starts_with(prefix));
    assert!(body.ends_with(suffix));
    let inner = &body[prefix.len()..body.len() - suffix.len()];
    assert_eq!(inner, h.timestamp);
    assert!(check_rfc3339_utc(inner));
}
