use motion_minute::pretty_time::{pretty_seconds, PrettyTime};
use std::time::Duration;

#[test]
fn test_to_pretty_time() {
    assert_eq!(Duration::from_secs(20).to_pretty_time(), "20s");
    assert_eq!(Duration::from_secs(59).to_pretty_time(), "59s");
    assert_eq!(Duration::from_secs(60).to_pretty_time(), "1m");
    assert_eq!(Duration::from_secs(90).to_pretty_time(), "1m");
    assert_eq!(Duration::from_secs(120).to_pretty_time(), "2m");
    assert_eq!(Duration::from_secs(3600).to_pretty_time(), "1:00h");
    assert_eq!(Duration::from_secs(3600 * 2).to_pretty_time(), "2:00h");
    assert_eq!(Duration::from_secs(3600 + 1800).to_pretty_time(), "1:30h");
}

#[test]
fn pretty_seconds_edges() {
    assert_eq!(pretty_seconds(0), "0s");
    assert_eq!(pretty_seconds(3599), "59m");
    assert_eq!(pretty_seconds(3600 + 5 * 60 + 59), "1:05h");
    assert_eq!(pretty_seconds(36000), "10:00h");
    assert_eq!(pretty_seconds(u64::MAX), "5124095576030431:00h");
}
