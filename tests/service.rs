use sqli_scanner::file_reader::FileReader;
use sqli_scanner::models::{Baseline, ScanError};
use sqli_scanner::scan_service::{ScanRun, ScanService};

fn strings(v: &[&str]) -> Vec<String> {
    v.iter().map(|s| s.to_string()).collect()
}

fn service(headers: Option<Vec<String>>, fields: Option<Vec<String>>, payloads: Vec<String>, body: bool) -> Result<ScanService, ScanError> {
    ScanService::new(
        "http://example.test/search",
        headers,
        fields,
        payloads,
        "GET".to_string(),
        None,
        "csrf_token",
        None,
        false,
        "debug_requests_log.txt",
        body,
        "id",
    )
}

#[test]
fn list_file_entries() {
    assert_eq!(FileReader::lines_from_text("' OR '1'='1\n#comment\n"), vec!["' OR '1'='1"]);
    assert_eq!(FileReader::lines_from_text("  a  \r\n\n# x\n b"), vec!["a", "b"]);
    assert_eq!(FileReader::lines_from_text("   \n  #kept\n"), vec!["", "#kept"]);
    assert!(FileReader::lines_from_text("").is_empty());
    assert!(FileReader::lines_from_text("\n\n#only\n").is_empty());
}

#[test]
fn body_mode_without_fields_uses_injection_field() {
    let s = service(None, None, strings(&["a", "b"]), true).unwrap();
    let (targets, payloads) = s.get_test_data();
    assert_eq!(targets, vec!["id"]);
    assert_eq!(payloads, vec!["a", "b"]);
    assert_eq!(s.total_tests(), 2);
}

#[test]
fn body_mode_with_empty_fields_file() {
    let fields = FileReader::lines_from_text("");
    let s = service(None, Some(fields), strings(&["a"]), true).unwrap();
    assert_eq!(s.get_test_data().0, vec!["id"]);
    assert_eq!(s.total_tests(), 1);
}

#[test]
fn header_mode_requires_header_list() {
    assert_eq!(service(None, None, strings(&["a"]), false).err().map(|_| ()), Some(()));
    assert!(matches!(service(None, Some(strings(&["f"])), strings(&["a"]), false), Err(ScanError::Config)));
}

#[test]
fn total_tests_is_targets_times_payloads() {
    let s = service(Some(strings(&["A", "B", "C"])), None, strings(&["1", "2"]), false).unwrap();
    assert_eq!(s.total_tests(), 6);
    let s = service(Some(strings(&["A", "B", "C"])), None, vec![], false).unwrap();
    assert_eq!(s.total_tests(), 0);
    let s = service(Some(vec![]), None, strings(&["1"]), false).unwrap();
    assert_eq!(s.total_tests(), 0);
    let s = service(None, Some(strings(&["u", "v"])), strings(&["1", "2", "3"]), true).unwrap();
    assert_eq!(s.total_tests(), 6);
    let s = service(None, None, vec![], true).unwrap();
    assert_eq!(s.total_tests(), 0);
}

#[test]
fn scan_walks_targets_then_payloads() {
    let mut run = ScanRun::new(strings(&["A", "B"]), strings(&["1", "2"]));
    let mut seen = Vec::new();
    while let Some((t, p)) = run.next_test() {
        seen.push(format!("{}:{}", t, p));
        run.record(None);
    }
    assert_eq!(seen, vec!["A:1", "A:2", "B:1", "B:2"]);
    let (suspicious, timings) = run.finish();
    assert!(suspicious.is_empty());
    assert_eq!(timings, vec![("A".to_string(), vec![]), ("B".to_string(), vec![])]);
}

#[test]
fn scan_without_payloads_keeps_empty_histories() {
    let run = ScanRun::new(strings(&["A", "B"]), vec![]);
    assert!(run.next_test().is_none());
    let (_, timings) = run.finish();
    assert_eq!(timings, vec![("A".to_string(), vec![]), ("B".to_string(), vec![])]);
}

#[test]
fn end_to_end_header_scan() {
    let payloads = FileReader::lines_from_text("' OR '1'='1\n#comment\n");
    let headers = FileReader::lines_from_text("X-Test\n");
    let mut s = service(Some(headers), None, payloads, false).unwrap();
    assert_eq!(s.total_tests(), 1);
    s.scanner.establish_baseline(Baseline::new(200, 100, 100));
    let mut run = s.start_scan();
    let mut executed = 0;
    while let Some((target, payload)) = run.next_test() {
        executed += 1;
        let req = sqli_scanner::scanner::build_injection_request(
            s.url(),
            &target,
            &payload,
            s.method(),
            s.csrf_token(),
            s.csrf_field(),
            s.csrf_cookie_field(),
            s.body_injection(),
        )
        .unwrap();
        assert!(req.headers.iter().any(|(n, v)| n == "X-Test" && v == "' OR '1'='1"));
        let result = s.scanner.evaluate(&target, &payload, 500, 120, 100);
        run.record(Some(result));
    }
    assert_eq!(executed, 1);
    let (suspicious, timings) = run.finish();
    assert_eq!(suspicious.len(), 1);
    assert_eq!(suspicious[0].header, "X-Test");
    assert_eq!(suspicious[0].payload, "' OR '1'='1");
    assert_eq!(timings, vec![("X-Test".to_string(), vec![120u128])]);
}

#[test]
fn failed_and_clean_tests_are_not_suspicious() {
    let mut run = ScanRun::new(strings(&["H"]), strings(&["1", "2", "3"]));
    let mut scanner = sqli_scanner::scanner::SqliScanner::new();
    scanner.establish_baseline(Baseline::new(200, 50, 10));
    run.record(Some(scanner.evaluate("H", "1", 200, 40, 10)));
    run.record(None);
    run.record(Some(scanner.evaluate("H", "3", 200, 500, 10)));
    assert!(run.next_test().is_none());
    let (suspicious, timings) = run.finish();
    assert_eq!(suspicious.len(), 1);
    assert_eq!(suspicious[0].payload, "3");
    assert_eq!(timings, vec![("H".to_string(), vec![40u128, 500])]);
}
