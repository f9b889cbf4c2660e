use std::time::{Duration, SystemTime};

use log_sink::clock::reading_of;
use log_sink::reply::health_status;

#[test]
fn a_span_reads_as_its_whole_seconds() {
    assert_eq!(reading_of(Ok(Duration::from_secs(0))), Some(0));
    assert_eq!(reading_of(Ok(Duration::from_millis(999))), Some(0));
    assert_eq!(reading_of(Ok(Duration::from_millis(5999))), Some(5));
    assert_eq!(reading_of(Ok(Duration::from_secs(86_400))), Some(86_400));
    assert_eq!(reading_of(Ok(Duration::new(u64::MAX, 999_999_999))), Some(u64::MAX));
}

#[test]
fn a_failed_comparison_reads_as_none() {
    let now = SystemTime::now();
    let ahead = now + Duration::from_secs(3600);
    let failure = now.duration_since(ahead);
    assert!(failure.is_err());
    assert_eq!(reading_of(failure), None);
}

#[test]
fn a_failed_comparison_reports_no_uptime() {
    let now = SystemTime::now();
    let failure = now.duration_since(now + Duration::from_secs(1));
    let status = health_status(3, reading_of(failure));
    assert_eq!(status.uptime_seconds, 0);
    assert_eq!(status.requests_handled, 3);
}
