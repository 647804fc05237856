use f0bot::lease::{
    answer_to_result, is_success_status, lease_request_body, lease_url, leases_from_records,
    parse_router_duration, transport_error, FetchErrorKind, RawLease, Scheme,
};

fn raw(mac: &str, seen: &str) -> RawLease {
    RawLease { mac_address: mac.to_string(), last_seen: seen.to_string() }
}

#[test]
fn durations_in_single_units() {
    assert_eq!(parse_router_duration("2m"), Some(120_000));
    assert_eq!(parse_router_duration("2h"), Some(7_200_000));
    assert_eq!(parse_router_duration("45s"), Some(45_000));
    assert_eq!(parse_router_duration("1d"), Some(86_400_000));
    assert_eq!(parse_router_duration("1w"), Some(604_800_000));
    assert_eq!(parse_router_duration("500ms"), Some(500));
}

#[test]
fn durations_in_several_units() {
    assert_eq!(parse_router_duration("1w2d3h4m5s"), Some(788_645_000));
    assert_eq!(parse_router_duration("3m20s"), Some(200_000));
    assert_eq!(parse_router_duration("1s250ms"), Some(1250));
    assert_eq!(parse_router_duration("0s"), Some(0));
}

#[test]
fn malformed_durations() {
    assert_eq!(parse_router_duration(""), None);
    assert_eq!(parse_router_duration("5"), None);
    assert_eq!(parse_router_duration("m"), None);
    assert_eq!(parse_router_duration("5x"), None);
    assert_eq!(parse_router_duration("5m3"), None);
    assert_eq!(parse_router_duration("never"), None);
}

#[test]
fn duration_overflow_is_rejected() {
    assert_eq!(parse_router_duration("18446744073709551615ms"), Some(u64::MAX));
    assert_eq!(parse_router_duration("18446744073709551616ms"), None);
    assert_eq!(parse_router_duration("18446744073709551615s"), None);
    assert_eq!(parse_router_duration("18446744073709551615ms1ms"), None);
}

#[test]
fn url_per_scheme() {
    assert_eq!(lease_url(Scheme::Https, "10.0.0.1"), "https://10.0.0.1/rest/ip/dhcp-server/lease/print");
    assert_eq!(lease_url(Scheme::Http, "router.lan"), "http://router.lan/rest/ip/dhcp-server/lease/print");
}

#[test]
fn request_body_asks_for_two_fields() {
    assert_eq!(lease_request_body(), r#"{".proplist":["mac-address","last-seen"]}"#);
}

#[test]
fn success_statuses() {
    assert!(is_success_status(200));
    assert!(is_success_status(204));
    assert!(is_success_status(299));
    assert!(!is_success_status(199));
    assert!(!is_success_status(300));
    assert!(!is_success_status(401));
}

#[test]
fn records_become_leases() {
    let v = leases_from_records(&vec![raw("M1", "2m"), raw("M2", "1h")]).unwrap();
    assert_eq!(v.len(), 2);
    assert_eq!(v[0].mac_address, "M1");
    assert_eq!(v[0].last_seen_ms, 120_000);
    assert_eq!(v[1].mac_address, "M2");
    assert_eq!(v[1].last_seen_ms, 3_600_000);
}

#[test]
fn first_bad_record_is_named() {
    assert_eq!(leases_from_records(&vec![raw("M1", "2m"), raw("M2", "x"), raw("M3", "y")]).unwrap_err(), 1);
}

#[test]
fn status_error_ignores_body() {
    let host = "router".to_string();
    let r = answer_to_result(Scheme::Https, &host, 401, Ok(vec![raw("M1", "2m")]));
    let e = r.unwrap_err();
    assert_eq!(e.scheme, Scheme::Https);
    assert_eq!(e.host, "router");
    assert!(matches!(e.kind, FetchErrorKind::Status(401)));
}

#[test]
fn undecodable_body_is_decode_error() {
    let host = "router".to_string();
    let r = answer_to_result(Scheme::Http, &host, 200, Err("expected array".to_string()));
    assert!(matches!(r.unwrap_err().kind, FetchErrorKind::Decode(ref m) if m == "expected array"));
}

#[test]
fn unreadable_duration_is_decode_error() {
    let host = "router".to_string();
    let r = answer_to_result(Scheme::Http, &host, 200, Ok(vec![raw("M1", "2m"), raw("M2", "soon")]));
    assert!(matches!(r.unwrap_err().kind, FetchErrorKind::Decode(ref m) if m == "invalid last-seen value: soon"));
}

#[test]
fn empty_lease_list_is_success() {
    let host = "router".to_string();
    assert!(answer_to_result(Scheme::Http, &host, 200, Ok(vec![])).unwrap().is_empty());
}

#[test]
fn transport_error_keeps_context() {
    let host = "router".to_string();
    let e = transport_error(Scheme::Https, &host, "connection refused".to_string());
    assert_eq!(e.scheme, Scheme::Https);
    assert_eq!(e.host, "router");
    assert!(matches!(e.kind, FetchErrorKind::Transport(ref m) if m == "connection refused"));
}
