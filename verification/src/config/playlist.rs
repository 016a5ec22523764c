//! The playlist file format: one `name|url` entry per line; blank lines and
//! lines starting with `#` are ignored.
use vstd::prelude::*;

use crate::text::{
    chars_find, chars_slice, chars_start_with, first_index_of,
    lemma_first_index_unique, lemma_lines_from_split, lemma_single_line, lemma_trim_of_trimmed,
    lemma_trimmed_ends, strip_cr,
    lines_spec, split_lines, starts_with_spec, str_chars, string_from_chars, trim_chars, trim_spec,
};

verus! {

/// Why a playlist file was rejected.
#[derive(Debug)]
pub enum PlaylistConfigError {
    /// The file could not be read.
    Io(std::io::Error),
    /// A line has no `|` separator (line numbers start at 1).
    InvalidFormat { line: usize, content: String },
    /// A line has an empty name.
    EmptyName(usize),
    /// A line's URL is not a YouTube URL.
    InvalidUrl { line: usize, url: String },
}

/// One configured playlist.
#[derive(Debug, Clone, PartialEq)]
pub struct PlaylistEntry {
    pub name: String,
    pub url: String,
}

/// What a parse failure reports, as plain values.
pub enum ConfigProblem {
    InvalidFormat(nat, Seq<char>),
    EmptyName(nat),
    InvalidUrl(nat, Seq<char>),
}

/// The reported problem of an error, if it is a format problem.
pub open spec fn problem_of(e: PlaylistConfigError) -> Option<ConfigProblem> {
    match e {
        PlaylistConfigError::Io(_) => None,
        PlaylistConfigError::InvalidFormat { line, content } => Some(
            ConfigProblem::InvalidFormat(line as nat, content@),
        ),
        PlaylistConfigError::EmptyName(line) => Some(ConfigProblem::EmptyName(line as nat)),
        PlaylistConfigError::InvalidUrl { line, url } => Some(
            ConfigProblem::InvalidUrl(line as nat, url@),
        ),
    }
}

/// How one raw line of the file is read.
pub enum LineVerdict {
    Skip,
    Entry(Seq<char>, Seq<char>),
    NoSeparator(Seq<char>),
    NoName,
    BadUrl(Seq<char>),
}

/// Whether `url` starts with one of the accepted YouTube prefixes.
pub open spec fn is_youtube_url(url: Seq<char>) -> bool {
    ||| starts_with_spec(url, "https://www.youtube.com/"@)
    ||| starts_with_spec(url, "https://youtube.com/"@)
    ||| starts_with_spec(url, "https://music.youtube.com/"@)
}

/// How one raw line is read: trimmed; skipped when blank or a comment;
/// otherwise split at the first `|` into a trimmed name and URL.
pub open spec fn classify_line(raw: Seq<char>) -> LineVerdict {
    let line = trim_spec(raw);
    if line.len() == 0 || line[0] == '#' {
        LineVerdict::Skip
    } else {
        match first_index_of(line, '|') {
            None => LineVerdict::NoSeparator(line),
            Some(k) => {
                let name = trim_spec(line.take(k));
                let url = trim_spec(line.skip(k + 1));
                if name.len() == 0 {
                    LineVerdict::NoName
                } else if !is_youtube_url(url) {
                    LineVerdict::BadUrl(url)
                } else {
                    LineVerdict::Entry(name, url)
                }
            },
        }
    }
}

/// The entries of `lines` from position `i` on, or the problem of the first
/// bad line (numbered from 1).
pub open spec fn parse_lines_from(lines: Seq<Seq<char>>, i: nat) -> Result<
    Seq<(Seq<char>, Seq<char>)>,
    ConfigProblem,
>
    decreases lines.len() - i,
{
    if i >= lines.len() {
        Ok(Seq::empty())
    } else {
        match classify_line(lines[i as int]) {
            LineVerdict::Skip => parse_lines_from(lines, i + 1),
            LineVerdict::NoSeparator(c) => Err(ConfigProblem::InvalidFormat(i + 1, c)),
            LineVerdict::NoName => Err(ConfigProblem::EmptyName(i + 1)),
            LineVerdict::BadUrl(u) => Err(ConfigProblem::InvalidUrl(i + 1, u)),
            LineVerdict::Entry(n, u) => match parse_lines_from(lines, i + 1) {
                Ok(rest) => Ok(seq![(n, u)] + rest),
                Err(e) => Err(e),
            },
        }
    }
}

/// What parsing the playlist file content yields.
pub open spec fn parse_playlist_spec(content: Seq<char>) -> Result<
    Seq<(Seq<char>, Seq<char>)>,
    ConfigProblem,
> {
    parse_lines_from(lines_spec(content), 0)
}

/// Whether `r` holds exactly the entries `es`.
pub open spec fn entries_match(r: Seq<PlaylistEntry>, es: Seq<(Seq<char>, Seq<char>)>) -> bool {
    &&& r.len() == es.len()
    &&& forall|k: int|
        0 <= k < r.len() ==> (#[trigger] r[k]).name@ == es[k].0 && r[k].url@ == es[k].1
}

/// `acc` followed by what `r` yields.
pub open spec fn prepend_entries(
    acc: Seq<(Seq<char>, Seq<char>)>,
    r: Result<Seq<(Seq<char>, Seq<char>)>, ConfigProblem>,
) -> Result<Seq<(Seq<char>, Seq<char>)>, ConfigProblem> {
    match r {
        Ok(rest) => Ok(acc + rest),
        Err(e) => Err(e),
    }
}

impl PlaylistEntry {
    /// The entry written back in the file's `name|url` format.
    pub fn to_string(&self) -> (s: String)
        ensures
            s@ == self.name@ + seq!['|'] + self.url@,
    {
        let mut v = str_chars(self.name.as_str());
        v.push('|');
        let u = str_chars(self.url.as_str());
        let mut k: usize = 0;
        let ghost v0 = v@;
        while k < u.len()
            invariant
                k <= u.len(),
                v@ == v0 + u@.take(k as int),
            decreases u.len() - k,
        {
            v.push(u[k]);
            k += 1;
            assert(v@ =~= v0 + u@.take(k as int));
        }
        assert(u@.take(u@.len() as int) =~= u@);
        string_from_chars(&v)
    }
}

fn youtube_url(url: &[char]) -> (b: bool)
    ensures
        b == is_youtube_url(url@),
{
    let a = str_chars("https://www.youtube.com/");
    let b = str_chars("https://youtube.com/");
    let c = str_chars("https://music.youtube.com/");
    chars_start_with(url, &a) || chars_start_with(url, &b) || chars_start_with(url, &c)
}

/// Outcome of reading one line, with the owned values to report.
enum LineOutcome {
    Skip,
    Entry(Vec<char>, Vec<char>),
    NoSeparator(Vec<char>),
    NoName,
    BadUrl(Vec<char>),
}

fn classify_line_exec(raw: &[char]) -> (r: LineOutcome)
    ensures
        match (r, classify_line(raw@)) {
            (LineOutcome::Skip, LineVerdict::Skip) => true,
            (LineOutcome::Entry(n, u), LineVerdict::Entry(sn, su)) => n@ == sn && u@ == su,
            (LineOutcome::NoSeparator(c), LineVerdict::NoSeparator(sc)) => c@ == sc,
            (LineOutcome::NoName, LineVerdict::NoName) => true,
            (LineOutcome::BadUrl(u), LineVerdict::BadUrl(su)) => u@ == su,
            _ => false,
        },
{
    let line = trim_chars(raw);
    if line.len() == 0 || line[0] == '#' {
        return LineOutcome::Skip;
    }
    match chars_find(&line, '|') {
        None => LineOutcome::NoSeparator(line),
        Some(k) => {
            let name_raw = chars_slice(&line, 0, k);
            let url_raw = chars_slice(&line, k + 1, line.len());
            assert(name_raw@ =~= line@.take(k as int));
            assert(url_raw@ =~= line@.skip(k + 1));
            let name = trim_chars(&name_raw);
            let url = trim_chars(&url_raw);
            if name.len() == 0 {
                LineOutcome::NoName
            } else if !youtube_url(&url) {
                LineOutcome::BadUrl(url)
            } else {
                LineOutcome::Entry(name, url)
            }
        },
    }
}

/// Parses the playlist file content: one `name|url` entry per line, blank
/// lines and `#` comments skipped, names and URLs trimmed. The first bad line
/// (numbered from 1) is reported.
pub fn parse_playlist_content(content: &str) -> (r: Result<Vec<PlaylistEntry>, PlaylistConfigError>)
    ensures
        match (r, parse_playlist_spec(content@)) {
            (Ok(v), Ok(es)) => entries_match(v@, es),
            (Err(e), Err(p)) => problem_of(e) == Some(p),
            _ => false,
        },
{
    let chars = str_chars(content);
    let lines = split_lines(&chars);
    let ghost ls = lines_spec(content@);
    let mut entries: Vec<PlaylistEntry> = Vec::new();
    let ghost mut acc: Seq<(Seq<char>, Seq<char>)> = Seq::empty();
    let mut i: usize = 0;
    assert(acc + Seq::<(Seq<char>, Seq<char>)>::empty() =~= acc);
    proof {
        match parse_lines_from(ls, 0) {
            Ok(rest) => {
                assert(Seq::<(Seq<char>, Seq<char>)>::empty() + rest =~= rest);
            },
            Err(_) => {},
        }
    }
    while i < lines.len()
        invariant
            ls == lines_spec(content@),
            lines@.len() == ls.len(),
            forall|k: int| 0 <= k < lines@.len() ==> #[trigger] lines@[k]@ == ls[k],
            i <= lines@.len(),
            entries_match(entries@, acc),
            parse_lines_from(ls, 0) == prepend_entries(acc, parse_lines_from(ls, i as nat)),
        decreases lines@.len() - i,
    {
        let line_num = i + 1;
        assert(lines@[i as int]@ == ls[i as int]);
        match classify_line_exec(&lines[i]) {
            LineOutcome::Skip => {},
            LineOutcome::NoSeparator(c) => {
                return Err(
                    PlaylistConfigError::InvalidFormat {
                        line: line_num,
                        content: string_from_chars(&c),
                    },
                );
            },
            LineOutcome::NoName => {
                return Err(PlaylistConfigError::EmptyName(line_num));
            },
            LineOutcome::BadUrl(u) => {
                return Err(PlaylistConfigError::InvalidUrl { line: line_num, url: string_from_chars(&u) });
            },
            LineOutcome::Entry(n, u) => {
                let entry = PlaylistEntry { name: string_from_chars(&n), url: string_from_chars(&u) };
                proof {
                    let pair = (n@, u@);
                    match parse_lines_from(ls, (i + 1) as nat) {
                        Ok(rest) => {
                            assert(acc + (seq![pair] + rest) =~= acc.push(pair) + rest);
                        },
                        Err(_) => {},
                    }
                    acc = acc.push(pair);
                }
                entries.push(entry);
            },
        }
        i += 1;
    }
    proof {
        match parse_lines_from(ls, i as nat) {
            Ok(rest) => {
                assert(rest =~= Seq::<(Seq<char>, Seq<char>)>::empty());
                assert(acc + rest =~= acc);
            },
            Err(_) => {},
        }
    }
    Ok(entries)
}

/// An entry that the parser accepts: a trimmed name that is not empty, does
/// not start a comment and holds no `|`, and a trimmed YouTube URL.
pub open spec fn well_formed_entry(name: Seq<char>, url: Seq<char>) -> bool {
    &&& name.len() > 0
    &&& trim_spec(name) == name
    &&& name[0] != '#'
    &&& forall|k: int| 0 <= k < name.len() ==> name[k] != '|'
    &&& trim_spec(url) == url
    &&& is_youtube_url(url)
}

/// An entry written in the `name|url` format reads back as the same entry.
pub proof fn law_entry_line_roundtrip(name: Seq<char>, url: Seq<char>)
    requires
        well_formed_entry(name, url),
    ensures
        classify_line(name + seq!['|'] + url) == LineVerdict::Entry(name, url),
{
    let line = name + seq!['|'] + url;
    reveal_strlit("https://www.youtube.com/");
    reveal_strlit("https://youtube.com/");
    reveal_strlit("https://music.youtube.com/");
    assert(url.len() > 0);
    lemma_trimmed_ends(name);
    lemma_trimmed_ends(url);
    assert(line[0] == name[0]);
    assert(line.last() == url.last());
    lemma_trim_of_trimmed(line);
    let k = name.len() as int;
    assert(line[k] == '|');
    assert forall|j: int| 0 <= j < k implies line[j] != '|' by {
        assert(line[j] == name[j]);
    }
    lemma_first_index_unique(line, '|', k);
    assert(line.take(k) =~= name);
    assert(line.skip(k + 1) =~= url);
}

/// A file holding one entry, written in the `name|url` format, parses to
/// that entry alone.
pub proof fn law_entry_file_roundtrip(name: Seq<char>, url: Seq<char>)
    requires
        well_formed_entry(name, url),
        forall|k: int| 0 <= k < name.len() ==> name[k] != '\n',
        forall|k: int| 0 <= k < url.len() ==> url[k] != '\n',
    ensures
        parse_playlist_spec(name + seq!['|'] + url) == Ok::<Seq<(Seq<char>, Seq<char>)>, ConfigProblem>(
            seq![(name, url)],
        ),
{
    let line = name + seq!['|'] + url;
    assert forall|k: int| 0 <= k < line.len() implies line[k] != '\n' by {
        if k < name.len() {
            assert(line[k] == name[k]);
        } else if k > name.len() {
            assert(line[k] == url[k - name.len() - 1]);
        }
    }
    lemma_single_line(line);
    law_entry_line_roundtrip(name, url);
    let lines = lines_spec(line);
    assert(parse_lines_from(lines, 1) == Ok::<Seq<(Seq<char>, Seq<char>)>, ConfigProblem>(Seq::empty()));
    assert(seq![(name, url)] + Seq::<(Seq<char>, Seq<char>)>::empty() =~= seq![(name, url)]);
}

/// One entry written in the `name|url` format.
pub open spec fn entry_line(e: (Seq<char>, Seq<char>)) -> Seq<char> {
    e.0 + seq!['|'] + e.1
}

/// Entries written one per line, joined by line feeds.
pub open spec fn joined_entries(es: Seq<(Seq<char>, Seq<char>)>) -> Seq<char>
    decreases es.len(),
{
    if es.len() == 0 {
        Seq::empty()
    } else if es.len() == 1 {
        entry_line(es[0])
    } else {
        entry_line(es[0]) + seq!['\n'] + joined_entries(es.drop_first())
    }
}

/// Whether no character of `s` is a line feed.
pub open spec fn no_line_feed(s: Seq<char>) -> bool {
    forall|k: int| 0 <= k < s.len() ==> s[k] != '\n'
}

/// Whether every entry is accepted by the parser and fits on one line.
pub open spec fn writable_entries(es: Seq<(Seq<char>, Seq<char>)>) -> bool {
    forall|k: int|
        0 <= k < es.len() ==> well_formed_entry((#[trigger] es[k]).0, es[k].1) && no_line_feed(es[k].0)
            && no_line_feed(es[k].1)
}

/// A written entry has no line feed, is not empty and does not end in a
/// carriage return.
proof fn lemma_entry_line_shape(e: (Seq<char>, Seq<char>))
    requires
        well_formed_entry(e.0, e.1),
        no_line_feed(e.0),
        no_line_feed(e.1),
    ensures
        no_line_feed(entry_line(e)),
        entry_line(e).len() > 0,
        strip_cr(entry_line(e)) == entry_line(e),
{
    let l = entry_line(e);
    reveal_strlit("https://www.youtube.com/");
    reveal_strlit("https://youtube.com/");
    reveal_strlit("https://music.youtube.com/");
    assert(e.1.len() > 0);
    lemma_trimmed_ends(e.1);
    assert(l.last() == e.1.last());
    assert forall|k: int| 0 <= k < l.len() implies l[k] != '\n' by {
        if k < e.0.len() {
            assert(l[k] == e.0[k]);
        } else if k > e.0.len() {
            assert(l[k] == e.1[k - e.0.len() - 1]);
        }
    }
}

/// The lines of written entries are the entries' lines.
proof fn lemma_joined_lines(es: Seq<(Seq<char>, Seq<char>)>)
    requires
        writable_entries(es),
    ensures
        lines_spec(joined_entries(es)) == es.map_values(|e: (Seq<char>, Seq<char>)| entry_line(e)),
    decreases es.len(),
{
    if es.len() == 0 {
        assert(lines_spec(Seq::<char>::empty()) =~= Seq::<Seq<char>>::empty());
        assert(es.map_values(|e: (Seq<char>, Seq<char>)| entry_line(e)) =~= Seq::<Seq<char>>::empty());
    } else {
        lemma_entry_line_shape(es[0]);
        if es.len() == 1 {
            lemma_single_line(entry_line(es[0]));
            assert(es.map_values(|e: (Seq<char>, Seq<char>)| entry_line(e)) =~= seq![entry_line(es[0])]);
        } else {
            let rest = es.drop_first();
            assert forall|k: int| 0 <= k < rest.len() implies well_formed_entry((#[trigger] rest[k]).0, rest[k].1)
                && no_line_feed(rest[k].0) && no_line_feed(rest[k].1) by {
                assert(rest[k] == es[k + 1]);
            }
            lemma_joined_lines(rest);
            lemma_lines_from_split(entry_line(es[0]), joined_entries(rest), Seq::empty());
            assert(Seq::<char>::empty() + entry_line(es[0]) =~= entry_line(es[0]));
            assert(es.map_values(|e: (Seq<char>, Seq<char>)| entry_line(e)) =~= seq![entry_line(es[0])]
                + rest.map_values(|e: (Seq<char>, Seq<char>)| entry_line(e)));
        }
    }
}

/// Lines that are all entries parse, from position `i` on, to those entries.
proof fn lemma_parse_entry_lines(lines: Seq<Seq<char>>, es: Seq<(Seq<char>, Seq<char>)>, i: nat)
    requires
        lines.len() == es.len(),
        i <= lines.len(),
        forall|k: int| 0 <= k < lines.len() ==> classify_line(#[trigger] lines[k]) == LineVerdict::Entry(es[k].0, es[k].1),
    ensures
        parse_lines_from(lines, i) == Ok::<Seq<(Seq<char>, Seq<char>)>, ConfigProblem>(es.skip(i as int)),
    decreases lines.len() - i,
{
    if i < lines.len() {
        lemma_parse_entry_lines(lines, es, i + 1);
        assert(classify_line(lines[i as int]) == LineVerdict::Entry(es[i as int].0, es[i as int].1));
        assert(seq![(es[i as int].0, es[i as int].1)] + es.skip((i + 1) as int) =~= es.skip(i as int));
    } else {
        assert(es.skip(i as int) =~= Seq::<(Seq<char>, Seq<char>)>::empty());
    }
}

/// Entries written one per line (`name|url`, joined by line feeds) parse
/// back to the same entries, in order.
pub proof fn law_entries_roundtrip(es: Seq<(Seq<char>, Seq<char>)>)
    requires
        writable_entries(es),
    ensures
        parse_playlist_spec(joined_entries(es)) == Ok::<Seq<(Seq<char>, Seq<char>)>, ConfigProblem>(es),
{
    lemma_joined_lines(es);
    let lines = lines_spec(joined_entries(es));
    assert forall|k: int| 0 <= k < lines.len() implies classify_line(#[trigger] lines[k]) == LineVerdict::Entry(
        es[k].0,
        es[k].1,
    ) by {
        assert(lines[k] == entry_line(es[k]));
        law_entry_line_roundtrip(es[k].0, es[k].1);
    }
    lemma_parse_entry_lines(lines, es, 0);
    assert(es.skip(0) =~= es);
}

} // verus!
