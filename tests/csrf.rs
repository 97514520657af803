use sqli_scanner::csrf::{CsrfExtractor, ExtractionMethod};
use sqli_scanner::models::{CsrfConfig, ScanError};

fn config(method: &str, selector: &str, pointer: Option<&str>, duration: Option<u64>) -> CsrfConfig {
    CsrfConfig {
        token_url: "http://example.test/token".to_string(),
        token_selector: selector.to_string(),
        headers: vec![],
        extraction_method: method.to_string(),
        json_pointer: pointer.map(|p| p.to_string()),
        cache_duration: duration,
    }
}

#[test]
fn extraction_method_names() {
    assert_eq!(ExtractionMethod::parse("regex"), Some(ExtractionMethod::Regex));
    assert_eq!(ExtractionMethod::parse("html"), Some(ExtractionMethod::Html));
    assert_eq!(ExtractionMethod::parse("json"), Some(ExtractionMethod::Json));
    assert_eq!(ExtractionMethod::parse("xml"), None);
}

#[test]
fn regex_extraction() {
    let e = CsrfExtractor::new(config("regex", r#"name="csrf" value="([^"]+)""#, None, None));
    let body = r#"<input name="csrf" value="abc123">"#;
    assert_eq!(e.extract_token(body), Ok("abc123".to_string()));
    assert_eq!(e.extract_token("nothing here"), Err(ScanError::Extraction));
    let bad = CsrfExtractor::new(config("regex", "(unclosed", None, None));
    assert_eq!(bad.extract_token(body), Err(ScanError::Extraction));
    let no_group = CsrfExtractor::new(config("regex", "csrf", None, None));
    assert_eq!(no_group.extract_token(body), Err(ScanError::Extraction));
}

#[test]
fn html_extraction() {
    let e = CsrfExtractor::new(config("html", "input[name=csrf]", None, None));
    let body = r#"<html><body><form><input name="other" value="x"><input name="csrf" value="tok-9"></form></body></html>"#;
    assert_eq!(e.extract_token(body), Ok("tok-9".to_string()));
    assert_eq!(e.extract_token("<p>none</p>"), Err(ScanError::Extraction));
    assert_eq!(e.extract_token(r#"<input name="csrf">"#), Err(ScanError::Extraction));
    let bad = CsrfExtractor::new(config("html", "[[", None, None));
    assert_eq!(bad.extract_token(body), Err(ScanError::Extraction));
}

#[test]
fn json_extraction() {
    let e = CsrfExtractor::new(config("json", "", Some("/data/token"), None));
    assert_eq!(e.extract_token(r#"{"data":{"token":"j1"}}"#), Ok("j1".to_string()));
    assert_eq!(e.extract_token(r#"{"data":{"token":5}}"#), Err(ScanError::Extraction));
    assert_eq!(e.extract_token(r#"{"data":{}}"#), Err(ScanError::Extraction));
    assert_eq!(e.extract_token("not json"), Err(ScanError::Extraction));
    let no_pointer = CsrfExtractor::new(config("json", "", None, None));
    assert_eq!(no_pointer.extract_token(r#"{"token":"j1"}"#), Err(ScanError::Config));
}

#[test]
fn unknown_method_is_config_error() {
    let e = CsrfExtractor::new(config("xpath", "//input", None, None));
    assert_eq!(e.extract_token("<input value='x'>"), Err(ScanError::Config));
}

#[test]
fn cache_within_window_and_after_expiry() {
    let mut e = CsrfExtractor::new(config("regex", "t=(\\w+)", None, Some(60)));
    assert_eq!(e.cached_token_at(1_000), None);
    assert_eq!(e.accept_response_at("t=first", 1_000), Ok("first".to_string()));
    assert_eq!(e.cached_token_at(1_000), Some("first".to_string()));
    assert_eq!(e.cached_token_at(60_999), Some("first".to_string()));
    assert_eq!(e.cached_token_at(61_000), None);
    assert_eq!(e.accept_response_at("t=second", 61_000), Ok("second".to_string()));
    assert_eq!(e.cached_token_at(61_001), Some("second".to_string()));
}

#[test]
fn cache_without_duration_keeps_token() {
    let mut e = CsrfExtractor::new(config("regex", "t=(\\w+)", None, None));
    assert_eq!(e.accept_response_at("t=kept", 5), Ok("kept".to_string()));
    assert_eq!(e.cached_token_at(i64::MAX), Some("kept".to_string()));
    assert_eq!(e.cached_token(), Some("kept".to_string()));
}

#[test]
fn failed_extraction_leaves_cache() {
    let mut e = CsrfExtractor::new(config("regex", "t=(\\w+)", None, Some(10)));
    assert_eq!(e.accept_response_at("none", 0), Err(ScanError::Extraction));
    assert_eq!(e.cached_token_at(0), None);
    assert_eq!(e.accept_response("t=now"), Ok("now".to_string()));
    assert_eq!(e.cached_token(), Some("now".to_string()));
}
