use sqli_scanner::logger::RequestLogger;
use sqli_scanner::models::RequestDebugInfo;
use sqli_scanner::text::{decimal_string, find, replace_all};
use sqli_scanner::ui::TerminalUI;

fn info(headers: Vec<(&str, &str)>, body: Option<&str>) -> RequestDebugInfo {
    RequestDebugInfo {
        url: "http://example.test/search".to_string(),
        method: "POST".to_string(),
        headers: headers.into_iter().map(|(n, v)| (n.to_string(), v.to_string())).collect(),
        body: body.map(|b| b.to_string()),
        timestamp: 0,
    }
}

#[test]
fn disabled_logger_writes_nothing() {
    let l = RequestLogger::new("log.txt", false);
    assert!(!l.is_enabled());
    assert_eq!(l.debug_file(), "log.txt");
    assert_eq!(l.format_entry(&info(vec![], None)), None);
}

#[test]
fn log_entry_layout() {
    let l = RequestLogger::new("log.txt", true);
    let entry = l
        .format_entry(&info(
            vec![("Host", "example.test"), ("User-Agent", "UA"), ("X-payload-a", "v"), ("Cookie", "c=1")],
            Some("id=1"),
        ))
        .unwrap();
    assert_eq!(
        entry,
        "POST http://example.test/search HTTP/1.1\nHost: example.test\nCookie: c=1\nUser-Agent: UA\nHost: example.test\n\nid=1\n__________\n\n"
    );
}

#[test]
fn log_entry_pretty_prints_json_body() {
    let l = RequestLogger::new("log.txt", true);
    let entry = l.format_entry(&info(vec![], Some(r#"{"a":1}"#))).unwrap();
    assert_eq!(entry, "POST http://example.test/search HTTP/1.1\nHost: example.test\n\n{\n  \"a\": 1\n}\n__________\n\n");
}

#[test]
fn progress_bar_cells() {
    assert_eq!(TerminalUI::create_progress_bar(0), "░".repeat(25));
    assert_eq!(TerminalUI::create_progress_bar(100), "█".repeat(25));
    assert_eq!(TerminalUI::create_progress_bar(50), format!("{}{}", "█".repeat(12), "░".repeat(13)));
    assert_eq!(TerminalUI::create_progress_bar(4), format!("{}{}", "█", "░".repeat(24)));
    assert_eq!(TerminalUI::create_progress_bar(250), "█".repeat(25));
}

#[test]
fn text_helpers() {
    assert_eq!(decimal_string(0), "0");
    assert_eq!(decimal_string(1234567890), "1234567890");
    assert_eq!(replace_all("aaa", "aa", "b"), "ba");
    assert_eq!(replace_all("x%20y%20", "%20", "+"), "x+y+");
    assert_eq!(find("abcabc", "ca", 0), Some(2));
    assert_eq!(find("abcabc", "bc", 2), Some(4));
    assert_eq!(find("abc", "d", 0), None);
}

