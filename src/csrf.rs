//! CSRF token provider: extraction of a token from the token endpoint's response
//! by one of three strategies, and a cache with an optional expiry.
use vstd::prelude::*;
use crate::models::{CsrfCache, CsrfConfig, ScanError};
use crate::scanner::{opt_str, opt_string};

verus! {

/// `Regex::new` accepts the pattern.
pub uninterp spec fn regex_valid(pattern: Seq<char>) -> bool;

/// Capture group 1 of the first match of a valid pattern, if it took part.
pub uninterp spec fn regex_group1(pattern: Seq<char>, haystack: Seq<char>) -> Option<Seq<char>>;

/// `Selector::parse` accepts the CSS selector.
pub uninterp spec fn css_selector_valid(selector: Seq<char>) -> bool;

/// The attribute `attr` of the first element of the parsed document that matches a
/// valid selector, if it has one.
pub uninterp spec fn html_attr_of(selector: Seq<char>, document: Seq<char>, attr: Seq<char>) -> Option<
    Seq<char>,
>;

/// `serde_json::from_str` parses the text into a JSON value.
pub uninterp spec fn json_valid(text: Seq<char>) -> bool;

/// The string that a JSON pointer resolves to in a parsed document, if it resolves
/// to a string.
pub uninterp spec fn json_string_at(text: Seq<char>, pointer: Seq<char>) -> Option<Seq<char>>;

/// Relies on regex::Regex::new (whether the pattern compiles) and
/// regex::Regex::captures with Captures::get(1) (group 1 of the first match).
#[verifier::external_body]
fn regex_first_group(pattern: &str, content: &str) -> (r: Option<Option<String>>)
    ensures
        r is Some <==> regex_valid(pattern@),
        r matches Some(o) ==> opt_string(o) == regex_group1(pattern@, content@),
{
    match regex::Regex::new(pattern) {
        Ok(re) => match re.captures(content) {
            Some(caps) => match caps.get(1) {
                Some(m) => Some(Some(m.as_str().to_string())),
                None => Some(None),
            },
            None => Some(None),
        },
        Err(_) => None,
    }
}

/// Relies on scraper::Selector::parse (whether the selector is valid) and on
/// scraper::Html::parse_document, Html::select and Element::attr for the first
/// matching element.
#[verifier::external_body]
fn html_first_attr(selector: &str, content: &str, attr: &str) -> (r: Option<Option<String>>)
    ensures
        r is Some <==> css_selector_valid(selector@),
        r matches Some(o) ==> opt_string(o) == html_attr_of(selector@, content@, attr@),
{
    let document = scraper::Html::parse_document(content);
    let sel = match scraper::Selector::parse(selector) {
        Ok(sel) => sel,
        Err(_) => return None,
    };
    match document.select(&sel).next() {
        Some(element) => match element.value().attr(attr) {
            Some(v) => Some(Some(v.to_string())),
            None => Some(None),
        },
        None => Some(None),
    }
}

/// Relies on serde_json::from_str into a Value (whether the text is JSON) and on
/// Value::pointer with Value::as_str (the string the pointer leads to).
#[verifier::external_body]
fn json_pointer_string(content: &str, pointer: Option<&str>) -> (r: Option<Option<String>>)
    ensures
        r is Some <==> json_valid(content@),
        r matches Some(o) ==> opt_string(o) == match opt_str(pointer) {
            Some(p) => json_string_at(content@, p),
            None => None,
        },
{
    let v: serde_json::Value = match serde_json::from_str(content) {
        Ok(v) => v,
        Err(_) => return None,
    };
    let found = match pointer {
        Some(p) => v.pointer(p),
        None => None,
    };
    match found {
        Some(f) => Some(f.as_str().map(str::to_string)),
        None => Some(None),
    }
}

/// Relies on chrono::Utc::now: the current time in milliseconds since the epoch.
/// Nothing is known of its value.
#[verifier::external_body]
fn now_millis() -> (r: i64) {
    chrono::Utc::now().timestamp_millis()
}

/// The three token extraction strategies.
#[derive(Clone, Copy, Debug, PartialEq, Eq, Structural)]
pub enum ExtractionMethod {
    /// Group 1 of a regular expression.
    Regex,
    /// The `value` attribute of the first element matching a CSS selector.
    Html,
    /// The string at a JSON pointer.
    Json,
}

pub open spec fn method_of(name: Seq<char>) -> Option<ExtractionMethod> {
    if name == "regex"@ {
        Some(ExtractionMethod::Regex)
    } else if name == "html"@ {
        Some(ExtractionMethod::Html)
    } else if name == "json"@ {
        Some(ExtractionMethod::Json)
    } else {
        None
    }
}

impl ExtractionMethod {
    /// The strategy named `regex`, `html` or `json`.
    pub fn parse(name: &str) -> (r: Option<Self>)
        ensures
            r == method_of(name@),
    {
        let n = name.to_owned();
        if n == String::from_str("regex") {
            Some(ExtractionMethod::Regex)
        } else if n == String::from_str("html") {
            Some(ExtractionMethod::Html)
        } else if n == String::from_str("json") {
            Some(ExtractionMethod::Json)
        } else {
            None
        }
    }
}

pub open spec fn found_or(o: Option<Seq<char>>) -> Result<Seq<char>, ScanError> {
    match o {
        Some(t) => Ok(t),
        None => Err(ScanError::Extraction),
    }
}

/// The token extracted from a response body. An invalid pattern, selector or
/// document, or no token, is an extraction error; an unknown method, or the json
/// method without a pointer, is a configuration error.
pub open spec fn extraction_result(
    method: Seq<char>,
    selector: Seq<char>,
    pointer: Option<Seq<char>>,
    body: Seq<char>,
) -> Result<Seq<char>, ScanError> {
    match method_of(method) {
        Some(ExtractionMethod::Regex) => if regex_valid(selector) {
            found_or(regex_group1(selector, body))
        } else {
            Err(ScanError::Extraction)
        },
        Some(ExtractionMethod::Html) => if css_selector_valid(selector) {
            found_or(html_attr_of(selector, body, "value"@))
        } else {
            Err(ScanError::Extraction)
        },
        Some(ExtractionMethod::Json) => if !json_valid(body) {
            Err(ScanError::Extraction)
        } else {
            match pointer {
                Some(p) => found_or(json_string_at(body, p)),
                None => Err(ScanError::Config),
            }
        },
        None => Err(ScanError::Config),
    }
}

pub open spec fn result_view(r: Result<String, ScanError>) -> Result<Seq<char>, ScanError> {
    match r {
        Ok(s) => Ok(s@),
        Err(e) => Err(e),
    }
}

/// When the body holds a token where the configured strategy looks (with a valid
/// pattern, selector or document, and a pointer for the json method), exactly
/// that token is extracted.
pub proof fn lemma_token_found(
    method: Seq<char>,
    selector: Seq<char>,
    pointer: Option<Seq<char>>,
    body: Seq<char>,
    token: Seq<char>,
)
    requires
        (method == "regex"@ && regex_valid(selector) && regex_group1(selector, body) == Some(token))
            || (method == "html"@ && css_selector_valid(selector) && html_attr_of(
            selector,
            body,
            "value"@,
        ) == Some(token)) || (method == "json"@ && json_valid(body) && pointer is Some
            && json_string_at(body, pointer->0) == Some(token)),
    ensures
        extraction_result(method, selector, pointer, body) == Ok::<Seq<char>, ScanError>(token),
{
    reveal_strlit("regex");
    reveal_strlit("html");
    reveal_strlit("json");
    assert("regex"@ != "html"@ && "regex"@ != "json"@ && "html"@ != "json"@) by {
        assert("regex"@[0] != "html"@[0]);
        assert("regex"@[0] != "json"@[0]);
        assert("html"@[0] != "json"@[0]);
    }
}

/// The cached token, if it is still valid at `now`: a token with no expiry stays
/// valid.
pub open spec fn token_valid_at(token: Option<Seq<char>>, expiry: Option<int>, now: int) -> Option<Seq<char>> {
    match token {
        Some(t) => match expiry {
            None => Some(t),
            Some(e) => if now < e {
                Some(t)
            } else {
                None
            },
        },
        None => None,
    }
}

/// The expiry after a token is stored at `now`: `now` plus the cache duration (in
/// seconds), or unchanged without a duration.
pub open spec fn expiry_after(now: int, duration: Option<u64>, previous: Option<int>) -> Option<int> {
    match duration {
        Some(d) => Some(now + d * 1000),
        None => previous,
    }
}

/// Two lookups inside the validity window of a stored token both return it, and a
/// lookup at or after its expiry finds nothing, so the token is fetched again.
pub proof fn lemma_cache_window(token: Seq<char>, stored_at: int, duration: u64, t1: int, t2: int, late: int)
    requires
        t1 < stored_at + duration * 1000,
        t2 < stored_at + duration * 1000,
        late >= stored_at + duration * 1000,
    ensures
        ({
            let expiry = expiry_after(stored_at, Some(duration), None);
            &&& token_valid_at(Some(token), expiry, t1) == Some(token)
            &&& token_valid_at(Some(token), expiry, t2) == Some(token)
            &&& token_valid_at(Some(token), expiry, late) is None
        }),
{
}

/// Without a cache duration a stored token is reused at every later time.
pub proof fn lemma_cache_forever(token: Seq<char>, stored_at: int, later: int)
    ensures
        token_valid_at(Some(token), expiry_after(stored_at, None, None), later) == Some(token),
{
}

/// Fetches CSRF tokens with a configured strategy and caches the last one.
pub struct CsrfExtractor {
    config: CsrfConfig,
    cache: CsrfCache,
}

impl CsrfExtractor {
    /// The whole configuration.
    pub closed spec fn spec_config(&self) -> CsrfConfig {
        self.config
    }

    pub open spec fn spec_method(&self) -> Seq<char> {
        self.spec_config().extraction_method@
    }

    pub open spec fn spec_selector(&self) -> Seq<char> {
        self.spec_config().token_selector@
    }

    pub open spec fn spec_pointer(&self) -> Option<Seq<char>> {
        opt_string(self.spec_config().json_pointer)
    }

    pub open spec fn spec_duration(&self) -> Option<u64> {
        self.spec_config().cache_duration
    }

    pub closed spec fn spec_token(&self) -> Option<Seq<char>> {
        opt_string(self.cache.token)
    }

    pub closed spec fn spec_expiry(&self) -> Option<int> {
        match self.cache.expiry {
            Some(e) => Some(e as int),
            None => None,
        }
    }

    /// A provider with the given configuration and an empty cache.
    pub fn new(config: CsrfConfig) -> (r: Self)
        ensures
            r.spec_config() == config,
            r.spec_token() is None,
            r.spec_expiry() is None,
    {
        CsrfExtractor { config, cache: CsrfCache { token: None, expiry: None } }
    }

    /// The configuration.
    pub fn config(&self) -> (r: &CsrfConfig)
        ensures
            *r == self.spec_config(),
    {
        &self.config
    }

    /// The token in `content` by the configured strategy.
    pub fn extract_token(&self, content: &str) -> (r: Result<String, ScanError>)
        ensures
            result_view(r) == extraction_result(
                self.spec_method(),
                self.spec_selector(),
                self.spec_pointer(),
                content@,
            ),
    {
        let selector = self.config.token_selector.as_str();
        match ExtractionMethod::parse(self.config.extraction_method.as_str()) {
            Some(ExtractionMethod::Regex) => match regex_first_group(selector, content) {
                Some(Some(t)) => Ok(t),
                Some(None) => Err(ScanError::Extraction),
                None => Err(ScanError::Extraction),
            },
            Some(ExtractionMethod::Html) => match html_first_attr(selector, content, "value") {
                Some(Some(t)) => Ok(t),
                Some(None) => Err(ScanError::Extraction),
                None => Err(ScanError::Extraction),
            },
            Some(ExtractionMethod::Json) => {
                let pointer = match &self.config.json_pointer {
                    Some(p) => Some(p.as_str()),
                    None => None,
                };
                match json_pointer_string(content, pointer) {
                    None => Err(ScanError::Extraction),
                    Some(found) => match pointer {
                        None => Err(ScanError::Config),
                        Some(_) => match found {
                            Some(t) => Ok(t),
                            None => Err(ScanError::Extraction),
                        },
                    },
                }
            },
            None => Err(ScanError::Config),
        }
    }

    /// The cached token if it is still valid at `now` (milliseconds since the
    /// epoch).
    pub fn cached_token_at(&self, now: i64) -> (r: Option<String>)
        ensures
            opt_string(r) == token_valid_at(self.spec_token(), self.spec_expiry(), now as int),
    {
        match &self.cache.token {
            Some(t) => match self.cache.expiry {
                None => Some(t.clone()),
                Some(e) => if (now as i128) < e {
                    Some(t.clone())
                } else {
                    None
                },
            },
            None => None,
        }
    }

    /// Stores a fetched token at `now`; with a cache duration it expires that many
    /// seconds later.
    pub fn store_token(&mut self, token: String, now: i64)
        ensures
            final(self).spec_token() == Some(token@),
            final(self).spec_expiry() == expiry_after(
                now as int,
                old(self).spec_duration(),
                old(self).spec_expiry(),
            ),
            final(self).spec_config() == old(self).spec_config(),
    {
        self.cache.token = Some(token);
        if let Some(d) = self.config.cache_duration {
            self.cache.expiry = Some(now as i128 + d as i128 * 1000);
        }
    }

    /// Extracts the token from the token endpoint's response body and, on success,
    /// caches it as fetched at `now`.
    pub fn accept_response_at(&mut self, content: &str, now: i64) -> (r: Result<String, ScanError>)
        ensures
            result_view(r) == extraction_result(
                old(self).spec_method(),
                old(self).spec_selector(),
                old(self).spec_pointer(),
                content@,
            ),
            r matches Ok(t) ==> final(self).spec_token() == Some(t@) && final(self).spec_expiry()
                == expiry_after(now as int, old(self).spec_duration(), old(self).spec_expiry()),
            r is Err ==> final(self).spec_token() == old(self).spec_token()
                && final(self).spec_expiry() == old(self).spec_expiry(),
            final(self).spec_config() == old(self).spec_config(),
    {
        let token = self.extract_token(content)?;
        self.store_token(token.clone(), now);
        Ok(token)
    }

    /// The cached token, if it is still valid now.
    pub fn cached_token(&self) -> (r: Option<String>)
        ensures
            exists|n: int| opt_string(r) == token_valid_at(self.spec_token(), self.spec_expiry(), n),
            self.spec_expiry() is None ==> opt_string(r) == self.spec_token(),
    {
        self.cached_token_at(now_millis())
    }

    /// Extracts and caches the token from a response that has just been received.
    pub fn accept_response(&mut self, content: &str) -> (r: Result<String, ScanError>)
        ensures
            result_view(r) == extraction_result(
                old(self).spec_method(),
                old(self).spec_selector(),
                old(self).spec_pointer(),
                content@,
            ),
            r matches Ok(t) ==> final(self).spec_token() == Some(t@) && exists|n: int|
                final(self).spec_expiry() == expiry_after(
                    n,
                    old(self).spec_duration(),
                    old(self).spec_expiry(),
                ),
            r is Err ==> final(self).spec_token() == old(self).spec_token()
                && final(self).spec_expiry() == old(self).spec_expiry(),
            final(self).spec_config() == old(self).spec_config(),
    {
        self.accept_response_at(content, now_millis())
    }
}

} // verus!
