//! Scan orchestration: resolving the injection targets, the size of the
//! target-by-payload matrix, and the sequential scan as a state machine whose
//! requests are sent by the caller.
use vstd::prelude::*;
use crate::logger::RequestLogger;
use crate::models::{ScanError, ScanResult};
use crate::scanner::{opt_str, opt_string, SqliScanner};

verus! {

/// Strings as character sequences.
pub open spec fn strs_view(v: Seq<String>) -> Seq<Seq<char>> {
    v.map_values(|s: String| s@)
}

/// The names that payloads are injected into: in body mode the field list, or the
/// default field when that list is empty; in header mode the header list.
pub open spec fn resolve_targets(
    body_injection: bool,
    headers: Seq<Seq<char>>,
    fields: Seq<Seq<char>>,
    injection_field: Seq<char>,
) -> Seq<Seq<char>> {
    if body_injection {
        if fields.len() == 0 {
            seq![injection_field]
        } else {
            fields
        }
    } else {
        headers
    }
}

pub fn clone_strings(v: &Vec<String>) -> (r: Vec<String>)
    ensures
        strs_view(r@) == strs_view(v@),
{
    let mut out: Vec<String> = Vec::new();
    let mut i: usize = 0;
    while i < v.len()
        invariant
            i <= v@.len(),
            strs_view(out@) == strs_view(v@.take(i as int)),
        decreases v@.len() - i,
    {
        let c = v[i].clone();
        assert(c@ == v@[i as int]@);
        let ghost before = out@;
        out.push(c);
        assert(strs_view(out@) =~= strs_view(before).push(c@));
        assert(strs_view(v@.take(i + 1)) =~= strs_view(v@.take(i as int)).push(v@[i as int]@));
        i = i + 1;
    }
    assert(v@.take(i as int) =~= v@);
    out
}

fn opt_owned(o: Option<&str>) -> (r: Option<String>)
    ensures
        opt_string(r) == opt_str(o),
{
    match o {
        Some(s) => Some(String::from_str(s)),
        None => None,
    }
}

/// Everything a scan needs: the scanner, the request settings, and the loaded
/// header, field and payload lists.
pub struct ScanService {
    pub scanner: SqliScanner,
    url: String,
    headers: Vec<String>,
    fields: Vec<String>,
    payloads: Vec<String>,
    method: String,
    csrf_token: Option<String>,
    csrf_field: String,
    csrf_cookie_field: Option<String>,
    debug: bool,
    debug_file: String,
    body_injection: bool,
    injection_field: String,
}

impl ScanService {
    pub closed spec fn spec_targets(&self) -> Seq<Seq<char>> {
        resolve_targets(
            self.body_injection,
            strs_view(self.headers@),
            strs_view(self.fields@),
            self.injection_field@,
        )
    }

    pub closed spec fn spec_scanner(&self) -> SqliScanner {
        self.scanner
    }

    pub closed spec fn spec_payloads(&self) -> Seq<Seq<char>> {
        strs_view(self.payloads@)
    }

    pub closed spec fn spec_url(&self) -> Seq<char> {
        self.url@
    }

    pub closed spec fn spec_method(&self) -> Seq<char> {
        self.method@
    }

    pub closed spec fn spec_body_injection(&self) -> bool {
        self.body_injection
    }

    pub closed spec fn spec_csrf_token(&self) -> Option<Seq<char>> {
        opt_string(self.csrf_token)
    }

    pub closed spec fn spec_csrf_field(&self) -> Seq<char> {
        self.csrf_field@
    }

    pub closed spec fn spec_csrf_cookie_field(&self) -> Option<Seq<char>> {
        opt_string(self.csrf_cookie_field)
    }

    /// A service over the loaded lists. `header_lines` is the header list (read
    /// only in header mode, where it is required), `field_lines` the body-field
    /// list (body mode; without it the single `injection_field` is used).
    pub fn new(
        url: &str,
        header_lines: Option<Vec<String>>,
        field_lines: Option<Vec<String>>,
        payloads: Vec<String>,
        method: String,
        csrf_token: Option<String>,
        csrf_field: &str,
        csrf_cookie_field: Option<&str>,
        debug: bool,
        debug_file: &str,
        body_injection: bool,
        injection_field: &str,
    ) -> (r: Result<Self, ScanError>)
        ensures
            r is Err <==> (!body_injection && header_lines is None),
            r matches Err(e) ==> e == ScanError::Config,
            r matches Ok(s) ==> {
                &&& s.spec_targets() == if body_injection {
                    match field_lines {
                        Some(f) => resolve_targets(true, seq![], strs_view(f@), injection_field@),
                        None => seq![injection_field@],
                    }
                } else {
                    strs_view(header_lines->0@)
                }
                &&& s.spec_payloads() == strs_view(payloads@)
                &&& s.spec_url() == url@
                &&& s.spec_method() == method@
                &&& s.spec_body_injection() == body_injection
                &&& s.spec_csrf_token() == opt_string(csrf_token)
                &&& s.spec_csrf_field() == csrf_field@
                &&& s.spec_csrf_cookie_field() == opt_str(csrf_cookie_field)
                &&& s.spec_scanner().spec_baseline() is None
                &&& s.spec_scanner().spec_has_logger() == debug
                &&& (s.spec_scanner().spec_logger() matches Some(l) ==> l.spec_debug_file()
                    == debug_file@ && l.spec_enabled())
            },
    {
        let mut scanner = SqliScanner::new();
        if debug {
            scanner.with_logger(RequestLogger::new(debug_file, true));
        }
        let (headers, fields) = if body_injection {
            let fields = match field_lines {
                Some(f) => f,
                None => {
                    let mut v: Vec<String> = Vec::new();
                    v.push(String::from_str(injection_field));
                    v
                },
            };
            (Vec::new(), fields)
        } else {
            match header_lines {
                Some(h) => (h, Vec::new()),
                None => return Err(ScanError::Config),
            }
        };
        let s = ScanService {
            scanner,
            url: String::from_str(url),
            headers,
            fields,
            payloads,
            method,
            csrf_token,
            csrf_field: String::from_str(csrf_field),
            csrf_cookie_field: opt_owned(csrf_cookie_field),
            debug,
            debug_file: String::from_str(debug_file),
            body_injection,
            injection_field: String::from_str(injection_field),
        };
        proof {
            if body_injection && field_lines is None {
                assert(strs_view(s.fields@) =~= seq![injection_field@]);
            }
        }
        Ok(s)
    }

    /// The number of tests of a scan: targets times payloads.
    pub fn total_tests(&self) -> (r: usize)
        requires
            self.spec_targets().len() * self.spec_payloads().len() <= usize::MAX,
        ensures
            r == self.spec_targets().len() * self.spec_payloads().len(),
    {
        let ghost p = self.payloads@.len();
        assert(self.spec_payloads().len() == p);
        if self.body_injection {
            if self.fields.len() == 0 {
                assert(self.spec_targets().len() == 1);
                assert(1 * p == p) by (nonlinear_arith);
                self.payloads.len()
            } else {
                self.fields.len() * self.payloads.len()
            }
        } else {
            self.headers.len() * self.payloads.len()
        }
    }

    /// The targets and the payloads of a scan.
    pub fn get_test_data(&self) -> (r: (Vec<String>, Vec<String>))
        ensures
            strs_view(r.0@) == self.spec_targets(),
            strs_view(r.1@) == self.spec_payloads(),
    {
        let targets = if self.body_injection {
            if self.fields.len() == 0 {
                let mut v: Vec<String> = Vec::new();
                v.push(self.injection_field.clone());
                assert(strs_view(v@) =~= seq![self.injection_field@]);
                v
            } else {
                clone_strings(&self.fields)
            }
        } else {
            clone_strings(&self.headers)
        };
        (targets, clone_strings(&self.payloads))
    }

    /// A scan over this service's targets and payloads, in target-major order.
    pub fn start_scan(&self) -> (r: ScanRun)
        ensures
            r.wf(),
            r.spec_targets() == self.spec_targets(),
            r.spec_payloads() == self.spec_payloads(),
            r.spec_suspicious().len() == 0,
            r.spec_current().len() == 0,
            r.spec_remaining() == self.spec_targets().len() * self.spec_payloads().len(),
            self.spec_payloads().len() > 0 ==> r.spec_timings().len() == 0,
            self.spec_payloads().len() == 0 ==> r.spec_timings() == self.spec_targets().map_values(
                |t: Seq<char>| (t, Seq::<u128>::empty()),
            ),
    {
        let (targets, payloads) = self.get_test_data();
        ScanRun::new(targets, payloads)
    }

    pub fn url(&self) -> (r: &str)
        ensures
            r@ == self.spec_url(),
    {
        self.url.as_str()
    }

    pub fn method(&self) -> (r: &str)
        ensures
            r@ == self.spec_method(),
    {
        self.method.as_str()
    }

    pub fn body_injection(&self) -> (r: bool)
        ensures
            r == self.spec_body_injection(),
    {
        self.body_injection
    }

    pub fn csrf_token(&self) -> (r: Option<&str>)
        ensures
            opt_str(r) == self.spec_csrf_token(),
    {
        match &self.csrf_token {
            Some(t) => Some(t.as_str()),
            None => None,
        }
    }

    pub fn csrf_field(&self) -> (r: &str)
        ensures
            r@ == self.spec_csrf_field(),
    {
        self.csrf_field.as_str()
    }

    pub fn csrf_cookie_field(&self) -> (r: Option<&str>)
        ensures
            opt_str(r) == self.spec_csrf_cookie_field(),
    {
        match &self.csrf_cookie_field {
            Some(t) => Some(t.as_str()),
            None => None,
        }
    }
}

/// In body mode an empty field list leaves the default field as the only target.
pub proof fn lemma_default_target(headers: Seq<Seq<char>>, injection_field: Seq<char>)
    ensures
        resolve_targets(true, headers, seq![], injection_field) == seq![injection_field],
{
}

/// A scan without targets or without payloads has no test to run.
pub proof fn lemma_empty_matrix(run: ScanRun)
    requires
        run.wf(),
        run.spec_targets().len() == 0 || run.spec_payloads().len() == 0,
    ensures
        run.spec_remaining() == 0,
{
}

/// Per-target timing histories as character sequences and durations.
pub open spec fn timings_view(v: Seq<(String, Vec<u128>)>) -> Seq<(Seq<char>, Seq<u128>)> {
    v.map_values(|p: (String, Vec<u128>)| (p.0@, p.1@))
}

/// One scan in progress: which (target, payload) test is next, the durations seen
/// for the current target, the suspicious results so far, and the timing history
/// of every finished target. The caller sends each test's request and reports its
/// outcome.
pub struct ScanRun {
    targets: Vec<String>,
    payloads: Vec<String>,
    target_index: usize,
    payload_index: usize,
    current: Vec<u128>,
    suspicious: Vec<ScanResult>,
    timings: Vec<(String, Vec<u128>)>,
}

impl ScanRun {
    pub closed spec fn spec_targets(&self) -> Seq<Seq<char>> {
        strs_view(self.targets@)
    }

    pub closed spec fn spec_payloads(&self) -> Seq<Seq<char>> {
        strs_view(self.payloads@)
    }

    /// Index of the target under test.
    pub closed spec fn spec_target_index(&self) -> int {
        self.target_index as int
    }

    /// Index of the next payload for that target.
    pub closed spec fn spec_payload_index(&self) -> int {
        self.payload_index as int
    }

    /// Durations of the successful tests of the current target.
    pub closed spec fn spec_current(&self) -> Seq<u128> {
        self.current@
    }

    pub closed spec fn spec_suspicious(&self) -> Seq<ScanResult> {
        self.suspicious@
    }

    /// Finished targets with the durations of their successful tests.
    pub closed spec fn spec_timings(&self) -> Seq<(Seq<char>, Seq<u128>)> {
        timings_view(self.timings@)
    }

    /// Tests still to run.
    pub open spec fn spec_remaining(&self) -> int {
        if self.spec_target_index() >= self.spec_targets().len() {
            0
        } else {
            (self.spec_targets().len() - self.spec_target_index()) * self.spec_payloads().len()
                - self.spec_payload_index()
        }
    }

    /// The position lies in the matrix, and the finished targets are exactly the
    /// targets before it, in order.
    pub open spec fn wf(&self) -> bool {
        &&& 0 <= self.spec_target_index() <= self.spec_targets().len()
        &&& 0 <= self.spec_payload_index()
        &&& (self.spec_target_index() < self.spec_targets().len() ==> self.spec_payload_index()
            < self.spec_payloads().len())
        &&& (self.spec_target_index() == self.spec_targets().len() ==> self.spec_payload_index()
            == 0 && self.spec_current().len() == 0)
        &&& self.spec_timings().len() == self.spec_target_index()
        &&& forall|k: int|
            0 <= k < self.spec_target_index() ==> #[trigger] self.spec_timings()[k].0
                == self.spec_targets()[k]
    }

    proof fn lemma_remaining(&self)
        requires
            self.wf(),
        ensures
            self.spec_remaining() >= 0,
            self.spec_remaining() == 0 <==> self.spec_target_index() == self.spec_targets().len(),
    {
        let t = self.spec_targets().len() - self.spec_target_index();
        let p = self.spec_payloads().len() as int;
        if t > 0 {
            assert(t * p >= p) by (nonlinear_arith)
                requires
                    t >= 1,
                    p >= 0,
            ;
        }
    }

    /// A scan at its first test. Without payloads every target is finished at once,
    /// with an empty history.
    pub fn new(targets: Vec<String>, payloads: Vec<String>) -> (r: Self)
        ensures
            r.wf(),
            r.spec_targets() == strs_view(targets@),
            r.spec_payloads() == strs_view(payloads@),
            r.spec_suspicious().len() == 0,
            r.spec_current().len() == 0,
            r.spec_remaining() == targets@.len() * payloads@.len(),
            payloads@.len() > 0 ==> r.spec_timings().len() == 0,
            payloads@.len() == 0 ==> r.spec_timings() == strs_view(targets@).map_values(
                |t: Seq<char>| (t, Seq::<u128>::empty()),
            ),
    {
        let mut timings: Vec<(String, Vec<u128>)> = Vec::new();
        let mut target_index: usize = 0;
        if payloads.len() == 0 {
            while target_index < targets.len()
                invariant
                    target_index <= targets@.len(),
                    timings_view(timings@) == strs_view(targets@.take(target_index as int)).map_values(
                        |t: Seq<char>| (t, Seq::<u128>::empty()),
                    ),
                decreases targets@.len() - target_index,
            {
                let ghost before = timings@;
                let name = targets[target_index].clone();
                timings.push((name, Vec::new()));
                assert(timings_view(timings@) =~= timings_view(before).push(
                    (targets@[target_index as int]@, Seq::<u128>::empty()),
                ));
                assert(strs_view(targets@.take(target_index + 1)) =~= strs_view(
                    targets@.take(target_index as int),
                ).push(targets@[target_index as int]@));
                target_index = target_index + 1;
            }
            assert(targets@.take(target_index as int) =~= targets@);
        }
        let r = ScanRun {
            targets,
            payloads,
            target_index,
            payload_index: 0,
            current: Vec::new(),
            suspicious: Vec::new(),
            timings,
        };
        proof {
            let t = r.spec_targets().len() as int;
            let p = r.spec_payloads().len() as int;
            if p == 0 {
                assert(t * p == 0) by (nonlinear_arith)
                    requires
                        p == 0,
                ;
            }
        }
        r
    }

    /// The next test, as (target, payload), or nothing when the scan is complete.
    pub fn next_test(&self) -> (r: Option<(String, String)>)
        requires
            self.wf(),
        ensures
            r is None <==> self.spec_remaining() == 0,
            r matches Some(p) ==> p.0@ == self.spec_targets()[self.spec_target_index()]
                && p.1@ == self.spec_payloads()[self.spec_payload_index()],
    {
        proof {
            self.lemma_remaining();
        }
        if self.target_index < self.targets.len() {
            Some(
                (
                    self.targets[self.target_index].clone(),
                    self.payloads[self.payload_index].clone(),
                ),
            )
        } else {
            None
        }
    }

    /// Records the outcome of the pending test (`None` when it failed) and moves
    /// to the next one. A successful test adds its duration to the current
    /// target's history and, when suspicious, its result to the suspicious list.
    /// After a target's last payload, the target's history is finished.
    pub fn record(&mut self, outcome: Option<ScanResult>)
        requires
            old(self).wf(),
            old(self).spec_remaining() > 0,
        ensures
            final(self).wf(),
            final(self).spec_remaining() == old(self).spec_remaining() - 1,
            final(self).spec_targets() == old(self).spec_targets(),
            final(self).spec_payloads() == old(self).spec_payloads(),
            final(self).spec_suspicious() == if outcome matches Some(res) && res.suspicious {
                old(self).spec_suspicious().push(outcome->0)
            } else {
                old(self).spec_suspicious()
            },
            ({
                let times = old(self).spec_current() + match outcome {
                    Some(res) => seq![res.duration_ms],
                    None => seq![],
                };
                if old(self).spec_payload_index() + 1 == old(self).spec_payloads().len() {
                    &&& final(self).spec_timings() == old(self).spec_timings().push(
                        (old(self).spec_targets()[old(self).spec_target_index()], times),
                    )
                    &&& final(self).spec_current().len() == 0
                    &&& final(self).spec_target_index() == old(self).spec_target_index() + 1
                    &&& final(self).spec_payload_index() == 0
                } else {
                    &&& final(self).spec_timings() == old(self).spec_timings()
                    &&& final(self).spec_current() == times
                    &&& final(self).spec_target_index() == old(self).spec_target_index()
                    &&& final(self).spec_payload_index() == old(self).spec_payload_index() + 1
                }
            }),
    {
        proof {
            self.lemma_remaining();
        }
        assert(self.targets@.len() == self.spec_targets().len());
        assert(self.payloads@.len() == self.spec_payloads().len());
        assert(self.target_index < self.targets@.len());
        assert(self.payload_index < self.payloads@.len());
        let cur_target = self.target_index;
        let cur_payload = self.payload_index;
        let n_payloads = self.payloads.len();
        let n_targets = self.targets.len();
        assert(cur_target < n_targets);
        let ghost times = self.current@ + if outcome is Some {
            seq![outcome->0.duration_ms]
        } else {
            seq![]
        };
        match outcome {
            Some(res) => {
                self.current.push(res.duration_ms);
                if res.suspicious {
                    self.suspicious.push(res);
                }
            },
            None => {},
        }
        assert(self.current@ =~= times);
        let ghost t = self.targets@.len() as int;
        let ghost p = self.payloads@.len() as int;
        let ghost ti = self.target_index as int;
        let ghost pi = self.payload_index as int;
        if cur_payload + 1 == n_payloads {
            let name = self.targets[cur_target].clone();
            let mut done: Vec<u128> = Vec::new();
            core::mem::swap(&mut done, &mut self.current);
            let ghost before = self.timings@;
            self.timings.push((name, done));
            assert(timings_view(self.timings@) =~= timings_view(before).push(
                (strs_view(self.targets@)[ti], times),
            ));
            self.target_index = cur_target + 1;
            self.payload_index = 0;
            proof {
                if ti + 1 < t {
                    assert((t - ti) * p - pi - 1 == (t - (ti + 1)) * p) by (nonlinear_arith)
                        requires
                            pi + 1 == p,
                    ;
                } else {
                    assert((t - ti) * p - pi - 1 == 0) by (nonlinear_arith)
                        requires
                            pi + 1 == p,
                            ti + 1 == t,
                    ;
                }
            }
        } else {
            self.payload_index = cur_payload + 1;
        }
    }

    /// The suspicious results and the timing history of every target.
    pub fn finish(self) -> (r: (Vec<ScanResult>, Vec<(String, Vec<u128>)>))
        ensures
            r.0@ == self.spec_suspicious(),
            timings_view(r.1@) == self.spec_timings(),
    {
        (self.suspicious, self.timings)
    }
}

} // verus!
