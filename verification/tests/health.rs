use dejavu_similarity_api::clock::ClockReading;
use dejavu_similarity_api::health::{
    api_status, check_health, database_status, format_duration, health_report, report_timestamp, timestamp_at, ApiStatus,
    DatabaseStatus, HealthEntity,
};

#[test]
fn durations_by_magnitude() {
    assert_eq!(format_duration(0), "0s");
    assert_eq!(format_duration(42), "42s");
    assert_eq!(format_duration(60), "1m 0s");
    assert_eq!(format_duration(420), "7m 0s");
    assert_eq!(format_duration(3600), "1h 0m 0s");
    assert_eq!(format_duration(2 * 3600 + 3 * 60 + 4), "2h 3m 4s");
    assert_eq!(format_duration(86400 + 5), "1d 0h 0m 5s");
    assert_eq!(format_duration(3 * 86400 + 23 * 3600 + 59 * 60 + 59), "3d 23h 59m 59s");
}

#[test]
fn duration_parts_add_up() {
    for t in [0u64, 59, 61, 3599, 3601, 86399, 86401, 1_000_000, 987_654_321] {
        let text = format_duration(t);
        let mut total = 0u64;
        for part in text.split(' ') {
            let (n, unit) = part.split_at(part.len() - 1);
            let n: u64 = n.parse().unwrap();
            total += n * match unit {
                "d" => 86400,
                "h" => 3600,
                "m" => 60,
                _ => 1,
            };
        }
        assert_eq!(total, t);
    }
}

#[test]
fn constructors_keep_fields() {
    let db = DatabaseStatus::new("connected".to_string(), true, Some(12));
    assert_eq!(db.status, "connected");
    assert!(db.connection);
    assert_eq!(db.response_time_ms, Some(12));
    let api = ApiStatus::new("running".to_string(), "5s".to_string(), "0.1.0".to_string());
    assert_eq!(api.uptime, "5s");
    let entity = HealthEntity::new("healthy".to_string(), "now".to_string(), db, api);
    assert_eq!(entity.status, "healthy");
    assert_eq!(entity.timestamp, "now");
    assert_eq!(entity.api.version, "0.1.0");
}

#[test]
fn database_probe_outcomes() {
    let up = database_status(Some(3));
    assert_eq!(up.status, "connected");
    assert!(up.connection);
    assert_eq!(up.response_time_ms, Some(3));
    let down = database_status(None);
    assert_eq!(down.status, "disconnected");
    assert!(!down.connection);
    assert_eq!(down.response_time_ms, None);
}

#[test]
fn api_uptime() {
    let a = api_status(Some(3661), "1.2.3".to_string());
    assert_eq!(a.status, "running");
    assert_eq!(a.uptime, "1h 1m 1s");
    assert_eq!(a.version, "1.2.3");
    let b = api_status(None, "1.2.3".to_string());
    assert_eq!(b.uptime, "unknown");
}

#[test]
fn overall_status_follows_database() {
    let healthy = health_report("t".to_string(), database_status(Some(1)), api_status(Some(1), "v".to_string()));
    assert_eq!(healthy.status, "healthy");
    let unhealthy = health_report("t".to_string(), database_status(None), api_status(Some(1), "v".to_string()));
    assert_eq!(unhealthy.status, "unhealthy");
    let now = health_report(report_timestamp().unwrap(), database_status(None), api_status(None, "v".to_string()));
    assert_eq!(now.status, "unhealthy");
    assert!(now.timestamp.ends_with("+00:00"));
    assert_eq!(now.timestamp.as_bytes()[10], b'T');
}

#[test]
fn liveness_answer() {
    let (code, body) = check_health();
    assert_eq!(code, 200);
    assert_eq!(body.status, "healthy");
    assert_eq!(body.message, "Dejavu Similarity API is running");
}

#[test]
fn timestamps_of_clock_readings() {
    let at = |r: ClockReading| timestamp_at(&r);
    assert_eq!(at(ClockReading::After { secs: 0, nanos: 0 }).as_deref(), Some("1970-01-01T00:00:00+00:00"));
    assert_eq!(
        at(ClockReading::After { secs: 1_700_000_000, nanos: 123_000_000 }).as_deref(),
        Some("2023-11-14T22:13:20.123+00:00")
    );
    assert_eq!(
        at(ClockReading::After { secs: 1_700_000_000, nanos: 123_400_000 }).as_deref(),
        Some("2023-11-14T22:13:20.123400+00:00")
    );
    assert_eq!(at(ClockReading::After { secs: 1, nanos: 7 }).as_deref(), Some("1970-01-01T00:00:01.000000007+00:00"));
    // Before the epoch the seconds round down and the fraction counts up from them.
    assert_eq!(
        at(ClockReading::Before { secs: 1, nanos: 500_000_000 }).as_deref(),
        Some("1969-12-31T23:59:58.500+00:00")
    );
    assert_eq!(at(ClockReading::Before { secs: 86_400, nanos: 0 }).as_deref(), Some("1969-12-31T00:00:00+00:00"));
    assert_eq!(at(ClockReading::Before { secs: 0, nanos: 0 }).as_deref(), Some("1970-01-01T00:00:00+00:00"));
    // Past the year 9999 the year gets a sign; far beyond, chrono holds no time.
    assert_eq!(
        at(ClockReading::After { secs: 253_402_300_800, nanos: 0 }).as_deref(),
        Some("+10000-01-01T00:00:00+00:00")
    );
    assert_eq!(at(ClockReading::After { secs: u64::MAX, nanos: 0 }), None);
    assert_eq!(at(ClockReading::Before { secs: u64::MAX, nanos: 1 }), None);
}
