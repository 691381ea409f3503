//! Routing table checks: every documented route maps to its family, and
//! everything else is served the fixed not-found response.

use sysmetrics::model::MetricFamily;
use sysmetrics::routes::not_found_response;
use sysmetrics::routes::route_of;

#[test]
fn test_route_matches_every_endpoint() {
    assert_eq!(route_of("GET", "/cpus"), Some(MetricFamily::Cpus));
    assert_eq!(route_of("GET", "/disks"), Some(MetricFamily::Disks));
    assert_eq!(route_of("GET", "/memory"), Some(MetricFamily::Memory));
    assert_eq!(route_of("GET", "/networks"), Some(MetricFamily::Networks));
    assert_eq!(route_of("GET", "/temperatures"), Some(MetricFamily::Temperatures));
    assert_eq!(route_of("GET", "/users"), Some(MetricFamily::Users));
    assert_eq!(route_of("GET", "/load_average"), Some(MetricFamily::LoadAverage));
    assert_eq!(route_of("GET", "/boot_time"), Some(MetricFamily::BootTime));
    assert_eq!(route_of("GET", "/sysinfo"), Some(MetricFamily::OsInfo));
}

#[test]
fn test_route_rejects_unknown_paths() {
    assert_eq!(route_of("GET", "/nonexistent"), None);
    assert_eq!(route_of("GET", "/memory/"), None);
    assert_eq!(route_of("GET", "/Memory"), None);
    assert_eq!(route_of("GET", ""), None);
    assert_eq!(route_of("GET", "/"), None);
    assert_eq!(route_of("GET", "/cpu"), None);
}

#[test]
fn test_route_is_exact_on_method() {
    assert_eq!(route_of("POST", "/memory"), None);
    assert_eq!(route_of("PUT", "/cpus"), None);
    assert_eq!(route_of("DELETE", "/disks"), None);
    assert_eq!(route_of("get", "/memory"), None);
    assert_eq!(route_of("", "/memory"), None);
}

#[test]
fn test_not_found_response_is_fixed() {
    let r = not_found_response();
    assert_eq!(r.status, 404);
    assert!(!r.content_type_json);
    assert_eq!(r.body, "Not Found");
}
