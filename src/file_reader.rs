//! Entries of a list file (payloads, header names, field names): one per line,
//! without empty lines and `#` comments.
use vstd::prelude::*;
use crate::scan_service::strs_view;

verus! {

/// `s` without one trailing carriage return.
pub open spec fn strip_cr(s: Seq<char>) -> Seq<char> {
    if s.len() > 0 && s.last() == '\r' {
        s.drop_last()
    } else {
        s
    }
}

/// The lines of `s[start..]`, where `i` scans for the end of the line that begins
/// at `start`.
pub open spec fn lines_from(s: Seq<char>, start: int, i: int) -> Seq<Seq<char>>
    decreases s.len() - i,
{
    if i >= s.len() || i < 0 {
        if 0 <= start < s.len() {
            seq![s.subrange(start, s.len() as int)]
        } else {
            seq![]
        }
    } else if s[i] == '\n' {
        seq![strip_cr(s.subrange(start, i))] + lines_from(s, i + 1, i + 1)
    } else {
        lines_from(s, start, i + 1)
    }
}

/// The lines of `s`: split at `\n`, a `\r` before a `\n` dropped, and no empty line
/// after a final `\n`.
pub open spec fn lines_of(s: Seq<char>) -> Seq<Seq<char>> {
    lines_from(s, 0, 0)
}

/// The Unicode `White_Space` characters.
pub open spec fn is_white_space(c: char) -> bool {
    ('\t' <= c <= '\r') || c == ' ' || c == '\u{85}' || c == '\u{A0}' || c == '\u{1680}' || (
    '\u{2000}' <= c <= '\u{200A}') || c == '\u{2028}' || c == '\u{2029}' || c == '\u{202F}' || c
        == '\u{205F}' || c == '\u{3000}'
}

pub open spec fn trim_start(s: Seq<char>) -> Seq<char>
    decreases s.len(),
{
    if s.len() > 0 && is_white_space(s[0]) {
        trim_start(s.drop_first())
    } else {
        s
    }
}

pub open spec fn trim_end(s: Seq<char>) -> Seq<char>
    decreases s.len(),
{
    if s.len() > 0 && is_white_space(s.last()) {
        trim_end(s.drop_last())
    } else {
        s
    }
}

/// `s` without leading and trailing white space.
pub open spec fn trimmed(s: Seq<char>) -> Seq<char> {
    trim_end(trim_start(s))
}

/// A line that is kept: not empty and not starting with `#`.
pub open spec fn is_entry(line: Seq<char>) -> bool {
    line.len() > 0 && line[0] != '#'
}

/// The kept lines, trimmed, in order.
pub open spec fn entries_of(lines: Seq<Seq<char>>) -> Seq<Seq<char>>
    decreases lines.len(),
{
    if lines.len() == 0 {
        seq![]
    } else {
        entries_of(lines.drop_last()) + if is_entry(lines.last()) {
            seq![trimmed(lines.last())]
        } else {
            seq![]
        }
    }
}

/// Relies on str::lines: the text split at `\n`, with a `\r` before a `\n` removed
/// and no empty line after a final `\n`.
#[verifier::external_body]
fn split_lines(content: &str) -> (r: Vec<String>)
    ensures
        strs_view(r@) == lines_of(content@),
{
    content.lines().map(String::from).collect()
}

/// Relies on str::trim: leading and trailing Unicode white space removed.
#[verifier::external_body]
fn trim_text(s: &str) -> (r: String)
    ensures
        r@ == trimmed(s@),
{
    s.trim().to_string()
}

/// Reads list files.
pub struct FileReader;

impl FileReader {
    /// The entries of a list file's text: each line that is not empty and does not
    /// start with `#`, trimmed.
    pub fn lines_from_text(content: &str) -> (r: Vec<String>)
        ensures
            strs_view(r@) == entries_of(lines_of(content@)),
    {
        let lines = split_lines(content);
        let ghost lv = strs_view(lines@);
        let mut out: Vec<String> = Vec::new();
        let mut i: usize = 0;
        while i < lines.len()
            invariant
                i <= lines@.len(),
                lv == strs_view(lines@),
                strs_view(out@) == entries_of(lv.take(i as int)),
            decreases lines@.len() - i,
        {
            assert(lv.take(i + 1).drop_last() =~= lv.take(i as int));
            let line = lines[i].as_str();
            let ghost before = out@;
            if line.unicode_len() > 0 && line.get_char(0) != '#' {
                out.push(trim_text(line));
                assert(strs_view(out@) =~= strs_view(before).push(trimmed(lv[i as int])));
            }
            i = i + 1;
        }
        assert(lv.take(i as int) =~= lv);
        out
    }
}

} // verus!
