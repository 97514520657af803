//! Injection requests and anomaly classification against a baseline.
use vstd::prelude::*;
use vstd::utf8::encode_utf8;
use crate::logger::RequestLogger;
use crate::models::{Baseline, ScanError, ScanResult};
use crate::text::{decimal, decimal_string, find, find_from, replace_all, replace_all_spec};

verus! {

/// The response took more than twice as long as the baseline.
pub open spec fn timing_anomaly(baseline_ms: int, duration_ms: int) -> bool {
    duration_ms > 2 * baseline_ms
}

/// The body size differs from the baseline's by more than 20 percent of it.
pub open spec fn size_anomaly(baseline_size: int, body_size: int) -> bool {
    let diff = if body_size >= baseline_size {
        body_size - baseline_size
    } else {
        baseline_size - body_size
    };
    diff * 100 > 20 * baseline_size
}

pub open spec fn timing_message() -> Seq<char> {
    "Response time significantly higher than baseline"@
}

pub open spec fn size_message() -> Seq<char> {
    "Response size significantly different from baseline"@
}

pub open spec fn status_message(from: u16, to: u16) -> Seq<char> {
    "Status code changed from "@ + decimal(from as nat) + " to "@ + decimal(to as nat)
}

/// The messages of the heuristics that fire, in the order timing, size, status.
pub open spec fn triggered_reasons(b: Baseline, status: u16, duration_ms: u128, body_size: usize) -> Seq<
    Seq<char>,
> {
    (if timing_anomaly(b.duration_ms as int, duration_ms as int) {
        seq![timing_message()]
    } else {
        seq![]
    }) + (if size_anomaly(b.body_size as int, body_size as int) {
        seq![size_message()]
    } else {
        seq![]
    }) + (if status != b.status {
        seq![status_message(b.status, status)]
    } else {
        seq![]
    })
}

/// The parts joined with `"; "` between neighbours.
pub open spec fn join_reasons(parts: Seq<Seq<char>>) -> Seq<char>
    decreases parts.len(),
{
    if parts.len() == 0 {
        seq![]
    } else if parts.len() == 1 {
        parts[0]
    } else {
        join_reasons(parts.drop_last()) + "; "@ + parts.last()
    }
}

/// Whether a response is suspicious against the baseline, if there is one.
pub open spec fn is_suspicious(baseline: Option<Baseline>, status: u16, duration_ms: u128, body_size: usize) -> bool {
    match baseline {
        Some(b) => triggered_reasons(b, status, duration_ms, body_size).len() > 0,
        None => false,
    }
}

/// The reason reported for a response: every triggered message, joined.
pub open spec fn reason_of(baseline: Option<Baseline>, status: u16, duration_ms: u128, body_size: usize) -> Option<Seq<char>> {
    if is_suspicious(baseline, status, duration_ms, body_size) {
        Some(join_reasons(triggered_reasons(baseline->0, status, duration_ms, body_size)))
    } else {
        None
    }
}

/// Compares one response with the baseline: timing (more than twice the baseline
/// duration), size (more than 20 percent off) and status (any change).
pub fn classify(baseline: Option<Baseline>, status: u16, duration_ms: u128, body_size: usize) -> (r: (bool, Option<String>))
    ensures
        r.0 == is_suspicious(baseline, status, duration_ms, body_size),
        match r.1 {
            Some(t) => reason_of(baseline, status, duration_ms, body_size) == Some(t@),
            None => reason_of(baseline, status, duration_ms, body_size) is None,
        },
{
    let b = match baseline {
        Some(b) => b,
        None => return (false, None),
    };
    let ghost parts = triggered_reasons(b, status, duration_ms, body_size);
    let mut reason = String::new();
    let mut count: usize = 0;
    let ghost mut done: Seq<Seq<char>> = seq![];
    if duration_ms > b.duration_ms && duration_ms - b.duration_ms > b.duration_ms {
        reason.append("Response time significantly higher than baseline");
        count = 1;
        proof {
            done = seq![timing_message()];
            assert(join_reasons(done) == timing_message());
        }
    }
    let diff: usize = if body_size >= b.body_size {
        body_size - b.body_size
    } else {
        b.body_size - body_size
    };
    if diff as u128 * 100 > 20 * (b.body_size as u128) {
        let ghost before = reason@;
        if count > 0 {
            reason.append("; ");
        }
        reason.append("Response size significantly different from baseline");
        proof {
            let prev = done;
            done = done.push(size_message());
            assert(done.drop_last() =~= prev);
            if prev.len() == 0 {
                assert(before =~= seq![]);
            }
            assert(reason@ =~= join_reasons(done));
        }
        count = count + 1;
    }
    if status != b.status {
        let from = decimal_string(b.status as u64);
        let to = decimal_string(status as u64);
        let ghost before = reason@;
        if count > 0 {
            reason.append("; ");
        }
        reason.append("Status code changed from ");
        reason.append(from.as_str());
        reason.append(" to ");
        reason.append(to.as_str());
        proof {
            let prev = done;
            done = done.push(status_message(b.status, status));
            assert(done.drop_last() =~= prev);
            assert(reason@ =~= join_reasons(done));
        }
        count = count + 1;
    }
    assert(done =~= parts);
    if count > 0 {
        (true, Some(reason))
    } else {
        (false, None)
    }
}

/// A response with the baseline's own status, duration and size is not suspicious
/// and carries no reason.
pub proof fn lemma_baseline_reflexive(b: Baseline)
    ensures
        !is_suspicious(Some(b), b.status, b.duration_ms, b.body_size),
        reason_of(Some(b), b.status, b.duration_ms, b.body_size) is None,
{
    assert(triggered_reasons(b, b.status, b.duration_ms, b.body_size) =~= seq![]);
}

/// Bytes that `percent_encoded` leaves as they are.
pub open spec fn is_unreserved(b: u8) -> bool {
    (48 <= b <= 57) || (65 <= b <= 90) || (97 <= b <= 122) || b == 45 || b == 46 || b == 95
        || b == 126
}

/// Upper-case hexadecimal digit for `d < 16`.
pub open spec fn hex_digit(d: u8) -> char {
    if d < 10 {
        digit_char_of(d)
    } else if d == 10 {
        'A'
    } else if d == 11 {
        'B'
    } else if d == 12 {
        'C'
    } else if d == 13 {
        'D'
    } else if d == 14 {
        'E'
    } else {
        'F'
    }
}

pub open spec fn digit_char_of(d: u8) -> char {
    crate::text::digit_char(d as nat)
}

/// One byte, percent-encoded unless it is unreserved.
pub open spec fn encode_byte(b: u8) -> Seq<char> {
    if is_unreserved(b) {
        seq![b as char]
    } else {
        seq!['%', hex_digit(b / 16), hex_digit(b % 16)]
    }
}

/// Percent-encoding of a byte string.
pub open spec fn percent_encoded(bytes: Seq<u8>) -> Seq<char>
    decreases bytes.len(),
{
    if bytes.len() == 0 {
        seq![]
    } else {
        encode_byte(bytes[0]) + percent_encoded(bytes.drop_first())
    }
}

/// Relies on urlencoding::encode: it percent-encodes every byte of the UTF-8 form
/// except ASCII letters, digits and `-` `.` `_` `~`, with upper-case hex digits.
#[verifier::external_body]
fn url_encode(s: &str) -> (r: String)
    ensures
        r@ == percent_encoded(encode_utf8(s@)),
{
    urlencoding::encode(s).into_owned()
}

/// A payload as it is placed in a form body: percent-encoded, then with `%20`,
/// `%3B` and `%2D%2D` turned back into `+`, `;` and `--`.
pub open spec fn form_encoded(payload: Seq<char>) -> Seq<char> {
    replace_all_spec(
        replace_all_spec(
            replace_all_spec(percent_encoded(encode_utf8(payload)), "%20"@, "+"@),
            "%3B"@,
            ";"@,
        ),
        "%2D%2D"@,
        "--"@,
    )
}

/// Encodes a payload for a form field, keeping spaces, semicolons and SQL comment
/// markers readable for strict form parsers.
pub fn encode_form_payload(payload: &str) -> (r: String)
    ensures
        r@ == form_encoded(payload@),
{
    proof {
        reveal_strlit("%20");
        reveal_strlit("%3B");
        reveal_strlit("%2D%2D");
    }
    let encoded = url_encode(payload);
    let a = replace_all(encoded.as_str(), "%20", "+");
    let b = replace_all(a.as_str(), "%3B", ";");
    replace_all(b.as_str(), "%2D%2D", "--")
}

/// A character allowed in an HTTP method token.
pub open spec fn is_token_char(c: char) -> bool {
    ('0' <= c <= '9') || ('A' <= c <= 'Z') || ('a' <= c <= 'z') || c == '!' || c == '#' || c
        == '$' || c == '%' || c == '&' || c == '\'' || c == '*' || c == '+' || c == '-' || c == '.'
        || c == '^' || c == '_' || c == '`' || c == '|' || c == '~'
}

/// A valid HTTP method: a non-empty token.
pub open spec fn is_method_token(m: Seq<char>) -> bool {
    m.len() > 0 && forall|i: int| 0 <= i < m.len() ==> #[trigger] is_token_char(m[i])
}

/// Relies on reqwest::Method::from_bytes (of the http crate): it accepts exactly the
/// non-empty byte strings made of token characters.
#[verifier::external_body]
fn method_accepted(method: &str) -> (r: bool)
    ensures
        r == is_method_token(method@),
{
    reqwest::Method::from_bytes(method.as_bytes()).is_ok()
}

pub open spec fn scheme_sep() -> Seq<char> {
    seq![':', '/', '/']
}

/// The text up to the first `/`.
pub open spec fn before_slash(s: Seq<char>) -> Seq<char> {
    let j = find_from(s, seq!['/'], 0);
    if j < 0 {
        s
    } else {
        s.take(j)
    }
}

/// The host part of a URL: the text between the first `://` and the next `://`
/// (or the whole URL when it has none), cut at its first `/`.
pub open spec fn host_of(url: Seq<char>) -> Seq<char> {
    let i = find_from(url, scheme_sep(), 0);
    if i < 0 {
        before_slash(url)
    } else {
        let rest = url.skip(i + 3);
        let k = find_from(rest, scheme_sep(), 0);
        before_slash(if k < 0 { rest } else { rest.take(k) })
    }
}

fn cut_at_slash(s: &str) -> (r: String)
    ensures
        r@ == before_slash(s@),
{
    proof {
        reveal_strlit("/");
    }
    assert("/"@ =~= seq!['/']);
    match find(s, "/", 0) {
        Some(j) => {
            assert(0 <= j <= s@.len()) by {
                crate::text::lemma_find_from_range(s@, seq!['/'], 0);
            }
            String::from_str(s.substring_char(0, j))
        },
        None => String::from_str(s),
    }
}

/// The value of the `Host` header sent with each injected request.
pub fn host_of_url(url: &str) -> (r: String)
    ensures
        r@ == host_of(url@),
{
    proof {
        reveal_strlit("://");
    }
    assert("://"@ =~= scheme_sep());
    match find(url, "://", 0) {
        None => cut_at_slash(url),
        Some(i) => {
            proof {
                crate::text::lemma_find_from_range(url@, scheme_sep(), 0);
            }
            let n = url.unicode_len();
            let rest = url.substring_char(i + 3, n);
            assert(rest@ =~= url@.skip(i + 3));
            match find(rest, "://", 0) {
                None => cut_at_slash(rest),
                Some(k) => {
                    proof {
                        crate::text::lemma_find_from_range(rest@, scheme_sep(), 0);
                    }
                    let seg = rest.substring_char(0, k);
                    assert(seg@ =~= rest@.take(k as int));
                    cut_at_slash(seg)
                },
            }
        },
    }
}

/// A request ready to be sent: method, URL, header lines in order, and body.
#[derive(Debug)]
pub struct InjectionRequest {
    pub method: String,
    pub url: String,
    pub headers: Vec<(String, String)>,
    pub body: Option<String>,
}

/// Header lines as pairs of character sequences.
pub open spec fn pairs_view(v: Seq<(String, String)>) -> Seq<(Seq<char>, Seq<char>)> {
    v.map_values(|p: (String, String)| (p.0@, p.1@))
}

pub open spec fn opt_str(o: Option<&str>) -> Option<Seq<char>> {
    match o {
        Some(s) => Some(s@),
        None => None,
    }
}

pub open spec fn opt_string(o: Option<String>) -> Option<Seq<char>> {
    match o {
        Some(s) => Some(s@),
        None => None,
    }
}

pub open spec fn user_agent() -> Seq<char> {
    "Mozilla/5.0 (X11; Linux x86_64) AppleWebKit/537.36 (KHTML, like Gecko) Chrome/135.0.0.0 Safari/537.36"@
}

pub open spec fn accept_value() -> Seq<char> {
    "text/html,application/xhtml+xml,application/xml;q=0.9,*/*;q=0.8"@
}

pub open spec fn form_content_type() -> Seq<char> {
    "application/x-www-form-urlencoded"@
}

/// Browser-like headers sent with every request.
pub open spec fn common_headers(url: Seq<char>) -> Seq<(Seq<char>, Seq<char>)> {
    seq![
        ("Host"@, host_of(url)),
        ("User-Agent"@, user_agent()),
        ("Accept"@, accept_value()),
        ("Accept-Language"@, "pt-BR,pt;q=0.7"@),
        ("Connection"@, "keep-alive"@),
    ]
}

/// The cookie that carries the CSRF token, named after the cookie field or else the
/// form field.
pub open spec fn cookie_headers(
    token: Option<Seq<char>>,
    field: Seq<char>,
    cookie_field: Option<Seq<char>>,
) -> Seq<(Seq<char>, Seq<char>)> {
    match token {
        Some(t) => {
            let name = match cookie_field {
                Some(c) => c,
                None => field,
            };
            seq![("Cookie"@, name + "="@ + t)]
        },
        None => seq![],
    }
}

/// The form body of a body-mode request: the injected field, then the CSRF field.
pub open spec fn form_body(
    name: Seq<char>,
    payload: Seq<char>,
    token: Option<Seq<char>>,
    field: Seq<char>,
) -> Seq<char> {
    name + "="@ + form_encoded(payload) + match token {
        Some(t) => "&"@ + field + "="@ + t,
        None => seq![],
    }
}

/// Whether the payload goes into a form body: body mode with the POST method.
pub open spec fn sends_form(method: Seq<char>, body_mode: bool) -> bool {
    body_mode && method == "POST"@
}

/// Byte length of the UTF-8 form of `s`, as a string length.
pub open spec fn byte_len(s: Seq<char>) -> nat {
    (encode_utf8(s).len() as usize) as nat
}

/// Headers that place the payload: the header itself in header mode; the form's
/// content type and length in body mode with POST; none otherwise.
pub open spec fn placement_headers(
    name: Seq<char>,
    payload: Seq<char>,
    method: Seq<char>,
    token: Option<Seq<char>>,
    field: Seq<char>,
    body_mode: bool,
) -> Seq<(Seq<char>, Seq<char>)> {
    if !body_mode {
        seq![(name, payload)]
    } else if sends_form(method, body_mode) {
        seq![
            ("Content-Type"@, form_content_type()),
            ("Content-Length"@, decimal(byte_len(form_body(name, payload, token, field)))),
        ]
    } else {
        seq![]
    }
}

/// All header lines of an injected request, in the order they are set.
pub open spec fn request_headers(
    url: Seq<char>,
    name: Seq<char>,
    payload: Seq<char>,
    method: Seq<char>,
    token: Option<Seq<char>>,
    field: Seq<char>,
    cookie_field: Option<Seq<char>>,
    body_mode: bool,
) -> Seq<(Seq<char>, Seq<char>)> {
    common_headers(url) + cookie_headers(token, field, cookie_field) + placement_headers(
        name,
        payload,
        method,
        token,
        field,
        body_mode,
    )
}

/// The body of an injected request.
pub open spec fn request_body(
    name: Seq<char>,
    payload: Seq<char>,
    method: Seq<char>,
    token: Option<Seq<char>>,
    field: Seq<char>,
    body_mode: bool,
) -> Option<Seq<char>> {
    if sends_form(method, body_mode) {
        Some(form_body(name, payload, token, field))
    } else {
        None
    }
}

fn text(s: &str) -> (r: String)
    ensures
        r@ == s@,
{
    String::from_str(s)
}

/// Builds the request that injects `payload` into the header or body field `name`.
/// Fails only when `method` is not a valid HTTP method.
pub fn build_injection_request(
    url: &str,
    name: &str,
    payload: &str,
    method: &str,
    csrf_token: Option<&str>,
    csrf_field: &str,
    csrf_cookie_field: Option<&str>,
    is_body_injection: bool,
) -> (r: Result<InjectionRequest, ScanError>)
    ensures
        r is Err <==> !is_method_token(method@),
        r matches Err(e) ==> e == ScanError::InvalidMethod,
        r matches Ok(q) ==> {
            &&& q.method@ == method@
            &&& q.url@ == url@
            &&& pairs_view(q.headers@) == request_headers(
                url@,
                name@,
                payload@,
                method@,
                opt_str(csrf_token),
                csrf_field@,
                opt_str(csrf_cookie_field),
                is_body_injection,
            )
            &&& opt_string(q.body) == request_body(
                name@,
                payload@,
                method@,
                opt_str(csrf_token),
                csrf_field@,
                is_body_injection,
            )
        },
{
    if !method_accepted(method) {
        return Err(ScanError::InvalidMethod);
    }
    let mut headers: Vec<(String, String)> = Vec::new();
    headers.push((text("Host"), host_of_url(url)));
    headers.push(
        (
            text("User-Agent"),
            text(
                "Mozilla/5.0 (X11; Linux x86_64) AppleWebKit/537.36 (KHTML, like Gecko) Chrome/135.0.0.0 Safari/537.36",
            ),
        ),
    );
    headers.push(
        (text("Accept"), text("text/html,application/xhtml+xml,application/xml;q=0.9,*/*;q=0.8")),
    );
    headers.push((text("Accept-Language"), text("pt-BR,pt;q=0.7")));
    headers.push((text("Connection"), text("keep-alive")));
    assert(pairs_view(headers@) =~= common_headers(url@));
    let ghost after_common = headers@;
    if let Some(token) = csrf_token {
        let mut cookie = match csrf_cookie_field {
            Some(c) => text(c),
            None => text(csrf_field),
        };
        cookie.append("=");
        cookie.append(token);
        headers.push((text("Cookie"), cookie));
    }
    assert(pairs_view(headers@) =~= common_headers(url@) + cookie_headers(
        opt_str(csrf_token),
        csrf_field@,
        opt_str(csrf_cookie_field),
    ));
    let ghost after_cookie = headers@;
    let mut body: Option<String> = None;
    if is_body_injection {
        let post = text("POST");
        if method.to_owned() == post {
            let mut form = text(name);
            form.append("=");
            let encoded = encode_form_payload(payload);
            form.append(encoded.as_str());
            if let Some(token) = csrf_token {
                form.append("&");
                form.append(csrf_field);
                form.append("=");
                form.append(token);
            }
            assert(form@ =~= form_body(name@, payload@, opt_str(csrf_token), csrf_field@));
            headers.push((text("Content-Type"), text("application/x-www-form-urlencoded")));
            let len = form.as_str().len();
            headers.push((text("Content-Length"), decimal_string(len as u64)));
            body = Some(form);
        }
    } else {
        headers.push((text(name), text(payload)));
    }
    assert(pairs_view(headers@) =~= request_headers(
        url@,
        name@,
        payload@,
        method@,
        opt_str(csrf_token),
        csrf_field@,
        opt_str(csrf_cookie_field),
        is_body_injection,
    ));
    Ok(InjectionRequest { method: text(method), url: text(url), headers, body })
}

/// Holds the baseline that responses are compared with, and the request logger.
pub struct SqliScanner {
    baseline: Option<Baseline>,
    logger: Option<RequestLogger>,
}

impl SqliScanner {
    pub closed spec fn spec_baseline(&self) -> Option<Baseline> {
        self.baseline
    }

    pub closed spec fn spec_logger(&self) -> Option<RequestLogger> {
        self.logger
    }

    pub open spec fn spec_has_logger(&self) -> bool {
        self.spec_logger() is Some
    }

    /// A scanner with no baseline and no logger.
    pub fn new() -> (r: Self)
        ensures
            r.spec_baseline() is None,
            r.spec_logger() is None,
    {
        SqliScanner { baseline: None, logger: None }
    }

    /// Logs every request to `logger` from now on.
    pub fn with_logger(&mut self, logger: RequestLogger)
        ensures
            final(self).spec_baseline() == old(self).spec_baseline(),
            final(self).spec_logger() == Some(logger),
    {
        self.logger = Some(logger);
    }

    /// The request logger, if any.
    pub fn logger(&self) -> (r: Option<&RequestLogger>)
        ensures
            r is Some == self.spec_has_logger(),
            r matches Some(l) ==> self.spec_logger() == Some(*l),
    {
        match &self.logger {
            Some(l) => Some(l),
            None => None,
        }
    }

    /// Records the measured reference exchange, replacing any earlier one, and
    /// returns it.
    pub fn establish_baseline(&mut self, measured: Baseline) -> (r: Baseline)
        ensures
            r == measured,
            final(self).spec_baseline() == Some(measured),
            final(self).spec_logger() == old(self).spec_logger(),
    {
        self.baseline = Some(measured);
        measured
    }

    /// The current baseline.
    pub fn baseline(&self) -> (r: Option<Baseline>)
        ensures
            r == self.spec_baseline(),
    {
        self.baseline
    }

    /// The result row of one test: the observed response, compared with the
    /// baseline. Without a baseline nothing is suspicious.
    pub fn evaluate(
        &self,
        name: &str,
        payload: &str,
        status: u16,
        duration_ms: u128,
        body_size: usize,
    ) -> (r: ScanResult)
        ensures
            r.header@ == name@,
            r.payload@ == payload@,
            r.status == status,
            r.duration_ms == duration_ms,
            r.body_size == body_size,
            r.suspicious == is_suspicious(self.spec_baseline(), status, duration_ms, body_size),
            opt_string(r.reason) == reason_of(self.spec_baseline(), status, duration_ms, body_size),
    {
        let (suspicious, reason) = classify(self.baseline, status, duration_ms, body_size);
        ScanResult {
            header: text(name),
            payload: text(payload),
            status,
            duration_ms,
            body_size,
            suspicious,
            reason,
        }
    }
}

} // verus!
