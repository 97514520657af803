//! Text of the request log: one entry per request, written before it is sent.
use vstd::prelude::*;
use crate::models::RequestDebugInfo;
use crate::scanner::{host_of, opt_string, scheme_sep};
use crate::text::{find, find_from};

verus! {

/// Where request entries go, and whether logging is on.
#[derive(Debug)]
pub struct RequestLogger {
    debug_file: String,
    is_enabled: bool,
}

pub uninterp spec fn json_pretty_of(s: Seq<char>) -> Option<Seq<char>>;

/// Relies on serde_json::from_str into a Value followed by
/// serde_json::to_string_pretty: a pretty-printed copy of the text when it is JSON.
#[verifier::external_body]
fn pretty_json(s: &str) -> (r: Option<String>)
    ensures
        opt_string(r) == json_pretty_of(s@),
{
    match serde_json::from_str::<serde_json::Value>(s) {
        Ok(v) => serde_json::to_string_pretty(&v).ok(),
        Err(_) => None,
    }
}

/// Header names that are written first, in this order.
pub open spec fn important_names() -> Seq<Seq<char>> {
    seq!["Content-Type"@, "Cookie"@, "Content-Length"@, "User-Agent"@]
}

/// The value of the last header line named `name`.
pub open spec fn last_value(hs: Seq<(Seq<char>, Seq<char>)>, name: Seq<char>) -> Option<Seq<char>>
    decreases hs.len(),
{
    if hs.len() == 0 {
        None
    } else if hs.last().0 == name {
        Some(hs.last().1)
    } else {
        last_value(hs.drop_last(), name)
    }
}

pub open spec fn header_line(name: Seq<char>, value: Seq<char>) -> Seq<char> {
    name + ": "@ + value + "\n"@
}

/// The line of one important header, if it was set.
pub open spec fn important_line(hs: Seq<(Seq<char>, Seq<char>)>, name: Seq<char>) -> Seq<char> {
    match last_value(hs, name) {
        Some(v) => header_line(name, v),
        None => seq![],
    }
}

/// The lines of the important headers.
pub open spec fn important_lines(hs: Seq<(Seq<char>, Seq<char>)>) -> Seq<char> {
    important_line(hs, important_names()[0]) + important_line(hs, important_names()[1])
        + important_line(hs, important_names()[2]) + important_line(hs, important_names()[3])
}

/// A header written among the others: not important, and its name does not
/// contain `payload`.
pub open spec fn is_other(name: Seq<char>) -> bool {
    !important_names().contains(name) && find_from(name, "payload"@, 0) == -1
}

/// The lines of the other headers, in order.
pub open spec fn other_lines(hs: Seq<(Seq<char>, Seq<char>)>) -> Seq<char>
    decreases hs.len(),
{
    if hs.len() == 0 {
        seq![]
    } else {
        other_lines(hs.drop_last()) + if is_other(hs.last().0) {
            header_line(hs.last().0, hs.last().1)
        } else {
            seq![]
        }
    }
}

/// The `Host` line, present when the URL has a scheme separator.
pub open spec fn host_line(url: Seq<char>) -> Seq<char> {
    if find_from(url, scheme_sep(), 0) >= 0 {
        "Host: "@ + host_of(url) + "\n"@
    } else {
        seq![]
    }
}

/// The body part: a blank line, then the body, pretty-printed when it is JSON.
pub open spec fn body_part(body: Option<Seq<char>>) -> Seq<char> {
    match body {
        Some(b) => "\n"@ + match json_pretty_of(b) {
            Some(p) => p,
            None => b,
        },
        None => seq![],
    }
}

/// The full log entry of a request.
pub open spec fn log_entry(
    method: Seq<char>,
    url: Seq<char>,
    hs: Seq<(Seq<char>, Seq<char>)>,
    body: Option<Seq<char>>,
) -> Seq<char> {
    method + " "@ + url + " HTTP/1.1\n"@ + host_line(url) + important_lines(hs) + other_lines(hs)
        + body_part(body) + "\n__________\n\n"@
}

fn same(a: &str, b: &str) -> (r: bool)
    ensures
        r == (a@ == b@),
{
    a.to_owned() == b.to_owned()
}

fn find_last_value<'a>(hs: &'a Vec<(String, String)>, name: &str) -> (r: Option<&'a String>)
    ensures
        match r {
            Some(v) => last_value(crate::scanner::pairs_view(hs@), name@) == Some(v@),
            None => last_value(crate::scanner::pairs_view(hs@), name@) is None,
        },
{
    let mut found: Option<&'a String> = None;
    let mut i: usize = 0;
    while i < hs.len()
        invariant
            i <= hs@.len(),
            match found {
                Some(v) => last_value(crate::scanner::pairs_view(hs@.take(i as int)), name@) == Some(v@),
                None => last_value(crate::scanner::pairs_view(hs@.take(i as int)), name@) is None,
            },
        decreases hs@.len() - i,
    {
        let ghost prev = crate::scanner::pairs_view(hs@.take(i as int));
        let ghost next = crate::scanner::pairs_view(hs@.take(i + 1));
        assert(next.drop_last() =~= prev);
        if same(hs[i].0.as_str(), name) {
            found = Some(&hs[i].1);
        }
        i = i + 1;
    }
    assert(hs@.take(i as int) =~= hs@);
    found
}

fn append_important(entry: &mut String, hs: &Vec<(String, String)>, name: &str)
    ensures
        final(entry)@ == old(entry)@ + important_line(crate::scanner::pairs_view(hs@), name@),
{
    match find_last_value(hs, name) {
        Some(v) => {
            entry.append(name);
            entry.append(": ");
            entry.append(v.as_str());
            entry.append("\n");
        },
        None => {},
    }
}

fn is_important(name: &str) -> (r: bool)
    ensures
        r == important_names().contains(name@),
{
    let r = same(name, "Content-Type") || same(name, "Cookie") || same(name, "Content-Length")
        || same(name, "User-Agent");
    proof {
        let names = important_names();
        if r {
            if name@ == names[0] {
                assert(names.contains(name@));
            } else if name@ == names[1] {
                assert(names.contains(name@));
            } else if name@ == names[2] {
                assert(names.contains(name@));
            } else {
                assert(names[3] == name@);
                assert(names.contains(name@));
            }
        } else if names.contains(name@) {
            let k = choose|k: int| 0 <= k < names.len() && names[k] == name@;
            assert(false);
        }
    }
    r
}

impl RequestLogger {
    pub closed spec fn spec_debug_file(&self) -> Seq<char> {
        self.debug_file@
    }

    pub closed spec fn spec_enabled(&self) -> bool {
        self.is_enabled
    }

    /// A logger that writes to `debug_file` when `is_enabled` holds.
    pub fn new(debug_file: &str, is_enabled: bool) -> (r: Self)
        ensures
            r.spec_debug_file() == debug_file@,
            r.spec_enabled() == is_enabled,
    {
        RequestLogger { debug_file: String::from_str(debug_file), is_enabled }
    }

    pub fn debug_file(&self) -> (r: &str)
        ensures
            r@ == self.spec_debug_file(),
    {
        self.debug_file.as_str()
    }

    pub fn is_enabled(&self) -> (r: bool)
        ensures
            r == self.spec_enabled(),
    {
        self.is_enabled
    }

    /// The text to append to the log for one request, or nothing when logging is
    /// off.
    pub fn format_entry(&self, info: &RequestDebugInfo) -> (r: Option<String>)
        ensures
            !self.spec_enabled() ==> r is None,
            self.spec_enabled() ==> (r matches Some(e) && e@ == log_entry(
                info.method@,
                info.url@,
                crate::scanner::pairs_view(info.headers@),
                opt_string(info.body),
            )),
    {
        if !self.is_enabled {
            return None;
        }
        let hs = &info.headers;
        let ghost hv = crate::scanner::pairs_view(hs@);
        let mut entry = String::from_str(info.method.as_str());
        entry.append(" ");
        entry.append(info.url.as_str());
        entry.append(" HTTP/1.1\n");
        proof {
            reveal_strlit("://");
        }
        assert("://"@ =~= scheme_sep());
        let ghost before_host = entry@;
        if find(info.url.as_str(), "://", 0).is_some() {
            let host = crate::scanner::host_of_url(info.url.as_str());
            entry.append("Host: ");
            entry.append(host.as_str());
            entry.append("\n");
        }
        assert(entry@ =~= before_host + host_line(info.url@));
        let ghost before_imp = entry@;
        append_important(&mut entry, hs, "Content-Type");
        append_important(&mut entry, hs, "Cookie");
        append_important(&mut entry, hs, "Content-Length");
        append_important(&mut entry, hs, "User-Agent");
        assert(entry@ =~= before_imp + important_lines(hv));
        let ghost before_other = entry@;
        let mut i: usize = 0;
        while i < hs.len()
            invariant
                i <= hs@.len(),
                hv == crate::scanner::pairs_view(hs@),
                entry@ == before_other + other_lines(hv.take(i as int)),
            decreases hs@.len() - i,
        {
            assert(hv.take(i + 1).drop_last() =~= hv.take(i as int));
            let name = hs[i].0.as_str();
            let ghost mid = entry@;
            if !is_important(name) && find(name, "payload", 0).is_none() {
                entry.append(name);
                entry.append(": ");
                entry.append(hs[i].1.as_str());
                entry.append("\n");
                assert(entry@ =~= mid + header_line(hv[i as int].0, hv[i as int].1));
            }
            i = i + 1;
        }
        assert(hv.take(i as int) =~= hv);
        let ghost before_body = entry@;
        match &info.body {
            Some(b) => {
                entry.append("\n");
                match pretty_json(b.as_str()) {
                    Some(p) => entry.append(p.as_str()),
                    None => entry.append(b.as_str()),
                }
            },
            None => {},
        }
        assert(entry@ =~= before_body + body_part(opt_string(info.body)));
        entry.append("\n__________\n\n");
        Some(entry)
    }
}

} // verus!
