use log_sink::route::{route, Behavior, Method};

#[test]
fn post_logs_is_ingest() {
    assert_eq!(route(Method::Post, "/logs"), Behavior::Ingest);
}

#[test]
fn get_logs_is_ingest() {
    assert_eq!(route(Method::Get, "/logs"), Behavior::Ingest);
}

#[test]
fn post_below_api_is_ingest() {
    assert_eq!(route(Method::Post, "/api/logs"), Behavior::Ingest);
    assert_eq!(route(Method::Post, "/api/v1/sources/42/events"), Behavior::Ingest);
    assert_eq!(route(Method::Post, "/api/x"), Behavior::Ingest);
}

#[test]
fn get_below_api_is_ingest() {
    assert_eq!(route(Method::Get, "/api/logs"), Behavior::Ingest);
    assert_eq!(route(Method::Get, "/api/a/b/c"), Behavior::Ingest);
}

#[test]
fn get_health_is_health() {
    assert_eq!(route(Method::Get, "/health"), Behavior::Health);
}

#[test]
fn post_health_falls_back() {
    assert_eq!(route(Method::Post, "/health"), Behavior::Fallback);
}

#[test]
fn other_methods_fall_back_everywhere() {
    assert_eq!(route(Method::Other, "/logs"), Behavior::Fallback);
    assert_eq!(route(Method::Other, "/api/logs"), Behavior::Fallback);
    assert_eq!(route(Method::Other, "/health"), Behavior::Fallback);
    assert_eq!(route(Method::Other, "/"), Behavior::Fallback);
}

#[test]
fn bare_api_prefix_falls_back() {
    assert_eq!(route(Method::Post, "/api/"), Behavior::Fallback);
    assert_eq!(route(Method::Get, "/api/"), Behavior::Fallback);
    assert_eq!(route(Method::Post, "/api"), Behavior::Fallback);
    assert_eq!(route(Method::Get, "/api"), Behavior::Fallback);
}

#[test]
fn near_misses_fall_back() {
    assert_eq!(route(Method::Get, "/unknown"), Behavior::Fallback);
    assert_eq!(route(Method::Get, ""), Behavior::Fallback);
    assert_eq!(route(Method::Get, "/"), Behavior::Fallback);
    assert_eq!(route(Method::Get, "/logs/"), Behavior::Fallback);
    assert_eq!(route(Method::Get, "/log"), Behavior::Fallback);
    assert_eq!(route(Method::Get, "/logsx"), Behavior::Fallback);
    assert_eq!(route(Method::Get, "/health/"), Behavior::Fallback);
    assert_eq!(route(Method::Get, "/healt"), Behavior::Fallback);
    assert_eq!(route(Method::Get, "/apix/logs"), Behavior::Fallback);
    assert_eq!(route(Method::Get, "/Logs"), Behavior::Fallback);
    assert_eq!(route(Method::Get, "api/logs"), Behavior::Fallback);
}

#[test]
fn paths_are_compared_by_character() {
    assert_eq!(route(Method::Post, "/api/\u{e9}v\u{e9}nement"), Behavior::Ingest);
    assert_eq!(route(Method::Post, "/api/\u{1f600}"), Behavior::Ingest);
    assert_eq!(route(Method::Get, "/l\u{f6}gs"), Behavior::Fallback);
    assert_eq!(route(Method::Get, "/\u{e9}pi/x"), Behavior::Fallback);
}
