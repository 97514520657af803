use sqli_scanner::models::{Baseline, ScanError};
use sqli_scanner::scanner::{build_injection_request, classify, encode_form_payload, host_of_url, SqliScanner};

fn base() -> Option<Baseline> {
    Some(Baseline::new(200, 100, 100))
}

#[test]
fn identical_response_is_not_suspicious() {
    let (suspicious, reason) = classify(base(), 200, 100, 100);
    assert!(!suspicious);
    assert_eq!(reason, None);
}

#[test]
fn status_change_is_suspicious() {
    let (suspicious, reason) = classify(base(), 500, 100, 100);
    assert!(suspicious);
    let reason = reason.unwrap();
    assert_eq!(reason, "Status code changed from 200 to 500");
    assert!(reason.contains("200") && reason.contains("500"));
}

#[test]
fn size_over_twenty_percent_is_suspicious() {
    let (suspicious, reason) = classify(base(), 200, 100, 130);
    assert!(suspicious);
    assert_eq!(reason.unwrap(), "Response size significantly different from baseline");
}

#[test]
fn size_within_twenty_percent_is_not_suspicious() {
    assert!(!classify(base(), 200, 100, 105).0);
    assert!(!classify(base(), 200, 100, 120).0);
    assert!(!classify(base(), 200, 100, 80).0);
    assert!(classify(base(), 200, 100, 79).0);
}

#[test]
fn slow_response_is_suspicious() {
    let (suspicious, reason) = classify(base(), 200, 250, 100);
    assert!(suspicious);
    assert_eq!(reason.unwrap(), "Response time significantly higher than baseline");
}

#[test]
fn moderately_slower_response_is_not_suspicious() {
    assert!(!classify(base(), 200, 150, 100).0);
    assert!(!classify(base(), 200, 200, 100).0);
    assert!(classify(base(), 200, 201, 100).0);
}

#[test]
fn all_reasons_are_joined() {
    let (suspicious, reason) = classify(base(), 404, 1000, 10);
    assert!(suspicious);
    assert_eq!(
        reason.unwrap(),
        "Response time significantly higher than baseline; Response size significantly different from baseline; Status code changed from 200 to 404"
    );
}

#[test]
fn empty_baseline_body() {
    let b = Some(Baseline::new(200, 0, 0));
    assert!(!classify(b, 200, 0, 0).0);
    assert!(classify(b, 200, 0, 1).0);
}

#[test]
fn no_baseline_never_suspicious() {
    assert_eq!(classify(None, 500, 99999, 1), (false, None));
}

#[test]
fn scanner_evaluates_against_its_baseline() {
    let mut scanner = SqliScanner::new();
    let r = scanner.evaluate("X-Test", "p", 500, 10, 10);
    assert!(!r.suspicious);
    let b = scanner.establish_baseline(Baseline::new(200, 10, 10));
    assert_eq!(b, Baseline::new(200, 10, 10));
    assert_eq!(scanner.baseline(), Some(b));
    let r = scanner.evaluate("X-Test", "p", 500, 10, 10);
    assert!(r.suspicious);
    assert_eq!(r.header, "X-Test");
    assert_eq!(r.payload, "p");
    assert_eq!(r.status, 500);
    assert_eq!(r.reason.as_deref(), Some("Status code changed from 200 to 500"));
}

#[test]
fn form_payload_encoding() {
    assert_eq!(encode_form_payload("' OR '1'='1"), "%27+OR+%271%27%3D%271");
    assert_eq!(encode_form_payload("1; DROP TABLE t --"), "1;+DROP+TABLE+t+--");
    assert_eq!(encode_form_payload("a-b_c.d~e"), "a-b_c.d~e");
    assert_eq!(encode_form_payload("é/"), "%C3%A9%2F");
    assert_eq!(encode_form_payload(""), "");
}

#[test]
fn host_from_url() {
    assert_eq!(host_of_url("http://example.test/search"), "example.test");
    assert_eq!(host_of_url("https://h:8080"), "h:8080");
    assert_eq!(host_of_url("example.test/x"), "example.test");
    assert_eq!(host_of_url("http://a://b"), "a");
}

fn header<'a>(hs: &'a [(String, String)], name: &str) -> Vec<&'a str> {
    hs.iter().filter(|(n, _)| n == name).map(|(_, v)| v.as_str()).collect()
}

#[test]
fn header_mode_request() {
    let q = build_injection_request(
        "http://example.test/search",
        "X-Test",
        "' OR '1'='1",
        "GET",
        None,
        "csrf_token",
        None,
        false,
    )
    .unwrap();
    assert_eq!(q.method, "GET");
    assert_eq!(q.url, "http://example.test/search");
    assert_eq!(q.body, None);
    let names: Vec<&str> = q.headers.iter().map(|(n, _)| n.as_str()).collect();
    assert_eq!(names, vec!["Host", "User-Agent", "Accept", "Accept-Language", "Connection", "X-Test"]);
    assert_eq!(header(&q.headers, "Host"), vec!["example.test"]);
    assert_eq!(header(&q.headers, "X-Test"), vec!["' OR '1'='1"]);
    assert_eq!(header(&q.headers, "Connection"), vec!["keep-alive"]);
}

#[test]
fn csrf_cookie_names() {
    let q = build_injection_request("http://h/", "X", "p", "GET", Some("tok"), "csrf_token", None, false).unwrap();
    assert_eq!(header(&q.headers, "Cookie"), vec!["csrf_token=tok"]);
    let q = build_injection_request("http://h/", "X", "p", "GET", Some("tok"), "csrf_token", Some("sess"), false)
        .unwrap();
    assert_eq!(header(&q.headers, "Cookie"), vec!["sess=tok"]);
}

#[test]
fn body_mode_post_request() {
    let q = build_injection_request("http://h/login", "user", "a b;--", "POST", Some("t0k"), "csrf", None, true)
        .unwrap();
    assert_eq!(q.body.as_deref(), Some("user=a+b;--&csrf=t0k"));
    assert_eq!(header(&q.headers, "Content-Type"), vec!["application/x-www-form-urlencoded"]);
    assert_eq!(header(&q.headers, "Content-Length"), vec!["20"]);
    assert!(header(&q.headers, "user").is_empty());
    let q = build_injection_request("http://h/login", "user", "é", "POST", None, "csrf", None, true).unwrap();
    assert_eq!(q.body.as_deref(), Some("user=%C3%A9"));
    assert_eq!(header(&q.headers, "Content-Length"), vec!["11"]);
}

#[test]
fn body_mode_without_post_places_nothing() {
    let q = build_injection_request("http://h/", "user", "x", "GET", None, "csrf", None, true).unwrap();
    assert_eq!(q.body, None);
    assert_eq!(q.headers.len(), 5);
}

#[test]
fn invalid_method_is_rejected() {
    for m in ["", "GE T", "GET\n", "PÖST"] {
        let r = build_injection_request("http://h/", "X", "p", m, None, "csrf", None, false);
        assert_eq!(r.err(), Some(ScanError::InvalidMethod));
    }
    assert!(build_injection_request("http://h/", "X", "p", "PURGE", None, "csrf", None, false).is_ok());
}
