//! Validation of a Netscape-format `cookies.txt` file's content.
use vstd::prelude::*;

use crate::text::{
    chars_contain, chars_count, contains_spec, count_char, lines_spec, split_lines, str_chars,
    trim_chars, trim_spec,
};

verus! {

/// Why a cookies file was rejected.
#[derive(Debug)]
pub enum CookiesError {
    /// The file does not exist (its path is given).
    NotFound(String),
    /// The file could not be read.
    Io(std::io::Error),
    /// Neither a Netscape header nor a cookie line was found.
    InvalidFormat,
}

/// A line that carries the Netscape cookies-file header.
pub open spec fn is_header_line(line: Seq<char>) -> bool {
    contains_spec(line, "Netscape HTTP Cookie File"@) || contains_spec(line, "HTTP Cookie File"@)
}

/// A line that looks like a cookie record: once trimmed it is not empty, is
/// not a comment and has at least seven tab-separated fields.
pub open spec fn is_cookie_line(line: Seq<char>) -> bool {
    let t = trim_spec(line);
    &&& t.len() > 0
    &&& t[0] != '#'
    &&& count_char(t, '\t') + 1 >= 7
}

/// Whether some line of `content` satisfies `is_header_line`.
pub open spec fn has_header_line(content: Seq<char>) -> bool {
    exists|k: int| 0 <= k < lines_spec(content).len() && is_header_line(#[trigger] lines_spec(content)[k])
}

/// Whether some line of `content` satisfies `is_cookie_line`.
pub open spec fn has_cookie_line(content: Seq<char>) -> bool {
    exists|k: int| 0 <= k < lines_spec(content).len() && is_cookie_line(#[trigger] lines_spec(content)[k])
}

/// Whether `content` is accepted as a cookies file.
pub open spec fn cookies_content_valid(content: Seq<char>) -> bool {
    has_header_line(content) || has_cookie_line(content)
}

fn header_line(line: &[char], full: &[char], short: &[char]) -> (b: bool)
    requires
        full@ == "Netscape HTTP Cookie File"@,
        short@ == "HTTP Cookie File"@,
    ensures
        b == is_header_line(line@),
{
    chars_contain(line, full) || chars_contain(line, short)
}

fn cookie_line(line: &[char]) -> (b: bool)
    ensures
        b == is_cookie_line(line@),
{
    let t = trim_chars(line);
    t.len() > 0 && t[0] != '#' && chars_count(&t, '\t') >= 6
}

/// Checks that `content` looks like a Netscape cookies file: some line names
/// the Netscape header, or some line is a tab-separated cookie record.
pub fn validate_cookies_content(content: &str) -> (r: Result<(), CookiesError>)
    ensures
        r is Ok <==> cookies_content_valid(content@),
        r matches Err(e) ==> e is InvalidFormat,
{
    let chars = str_chars(content);
    let lines = split_lines(&chars);
    let full = str_chars("Netscape HTTP Cookie File");
    let short = str_chars("HTTP Cookie File");
    let mut i: usize = 0;
    while i < lines.len()
        invariant
            chars@ == content@,
            full@ == "Netscape HTTP Cookie File"@,
            short@ == "HTTP Cookie File"@,
            lines@.len() == lines_spec(content@).len(),
            forall|k: int| 0 <= k < lines@.len() ==> #[trigger] lines@[k]@ == lines_spec(content@)[k],
            i <= lines@.len(),
            forall|k: int| 0 <= k < i ==> !is_header_line(#[trigger] lines_spec(content@)[k]),
        decreases lines@.len() - i,
    {
        if header_line(&lines[i], &full, &short) {
            assert(is_header_line(lines_spec(content@)[i as int]));
            return Ok(());
        }
        i += 1;
    }
    assert(!has_header_line(content@));
    let mut j: usize = 0;
    while j < lines.len()
        invariant
            lines@.len() == lines_spec(content@).len(),
            forall|k: int| 0 <= k < lines@.len() ==> #[trigger] lines@[k]@ == lines_spec(content@)[k],
            j <= lines@.len(),
            forall|k: int| 0 <= k < j ==> !is_cookie_line(#[trigger] lines_spec(content@)[k]),
        decreases lines@.len() - j,
    {
        if cookie_line(&lines[j]) {
            assert(is_cookie_line(lines_spec(content@)[j as int]));
            return Ok(());
        }
        j += 1;
    }
    assert(!has_cookie_line(content@));
    Err(CookiesError::InvalidFormat)
}

} // verus!
