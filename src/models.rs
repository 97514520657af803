//! Plain data shared by the scanner, the CSRF provider and the scan service.
use vstd::prelude::*;

verus! {

/// Command-line settings of a scan.
pub struct Args {
    /// Endpoint the requests are sent to.
    pub url: String,
    /// Path of the payload list.
    pub payload: String,
    /// Path of the header-name list (header mode).
    pub header: Option<String>,
    /// Path of the body-field list (body mode).
    pub fields: Option<String>,
    /// Time threshold in milliseconds.
    pub timeout: u64,
    /// More detail in the terminal output.
    pub verbose: bool,
    /// HTTP method of the injected requests.
    pub method: String,
    /// Name of the CSRF field in forms.
    pub csrf_field: String,
    /// Name of the CSRF cookie, when it differs from `csrf_field`.
    pub csrf_cookie_field: Option<String>,
    /// A CSRF token known in advance.
    pub csrf_token: Option<String>,
    /// Log every request to `debug_file`.
    pub debug: bool,
    /// Path of the request log.
    pub debug_file: String,
    /// Inject into body fields instead of headers.
    pub body_injection: bool,
    /// Field used in body mode when no field list is given.
    pub injection_field: String,
}

/// Kinds of failure reported by the library.
#[derive(Clone, Copy, Debug, PartialEq, Eq, Structural)]
pub enum ScanError {
    /// Invalid or missing configuration.
    Config,
    /// The token endpoint could not be reached.
    Fetch,
    /// A request could not be sent.
    Transport,
    /// A response body could not be read.
    Read,
    /// No token was found with the configured strategy.
    Extraction,
    /// The HTTP method is not a valid method token.
    InvalidMethod,
    /// The request log could not be written.
    Logging,
    /// The baseline request failed.
    Baseline,
}

/// One row per (target, payload) test.
#[derive(Debug)]
pub struct ScanResult {
    /// Header or body-field name the payload was placed in.
    pub header: String,
    pub payload: String,
    pub status: u16,
    pub duration_ms: u128,
    pub body_size: usize,
    pub suspicious: bool,
    /// Why the response was flagged, when it was.
    pub reason: Option<String>,
}

/// Reference exchange that every test is compared with.
#[derive(Clone, Copy, Debug, PartialEq, Eq, Structural)]
pub struct Baseline {
    pub status: u16,
    pub duration_ms: u128,
    pub body_size: usize,
}

impl Baseline {
    pub fn new(status: u16, duration_ms: u128, body_size: usize) -> (r: Self)
        ensures
            r.status == status,
            r.duration_ms == duration_ms,
            r.body_size == body_size,
    {
        Baseline { status, duration_ms, body_size }
    }
}

/// How a CSRF token is fetched and extracted.
#[derive(Debug)]
pub struct CsrfConfig {
    /// Where the token is fetched from.
    pub token_url: String,
    /// Regular expression (group 1 is the token) or CSS selector.
    pub token_selector: String,
    /// Extra headers of the token request, in order.
    pub headers: Vec<(String, String)>,
    /// `regex`, `html` or `json`.
    pub extraction_method: String,
    /// JSON pointer to the token (json method).
    pub json_pointer: Option<String>,
    /// Seconds a fetched token stays valid; without it, it stays valid for good.
    pub cache_duration: Option<u64>,
}

/// Last fetched CSRF token and the instant (milliseconds since the epoch) until
/// which it may be reused.
#[derive(Debug)]
pub struct CsrfCache {
    pub token: Option<String>,
    pub expiry: Option<i128>,
}

/// What is logged of one request before it is sent.
#[derive(Debug)]
pub struct RequestDebugInfo {
    pub url: String,
    pub method: String,
    /// Header lines in the order they are set.
    pub headers: Vec<(String, String)>,
    pub body: Option<String>,
    /// Milliseconds since the epoch.
    pub timestamp: i64,
}

} // verus!
