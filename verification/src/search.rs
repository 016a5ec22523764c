//! The search-result cache: file naming by query key and freshness of entries.
//! Reading and writing the cache files is done by the caller.
use std::hash::BuildHasher;
use vstd::prelude::*;

use crate::paths::{joined_path, path_join};
use crate::text::{
    ascii_alnum, ascii_space, char_is_whitespace, hex_digits, is_ascii_alnum, is_ascii_space,
    is_whitespace_char, push_hex_digits, push_str, str_chars, string_from_chars, trim_chars,
    trim_spec,
};

verus! {

/// Disk cache for YouTube Music search results.
pub struct SearchCache {
    base_dir: String,
}

/// The lowercase form of `s`, as `str::to_lowercase` computes it.
pub uninterp spec fn lowercase_of(s: Seq<char>) -> Seq<char>;

/// `str::to_lowercase`: the Unicode lowercase mapping of `s`. The mapping
/// itself is named `lowercase_of(s)` and not written out here.
#[verifier::external_body]
fn to_lowercase(s: &str) -> (r: String)
    ensures
        r@ == lowercase_of(s@),
{
    s.to_lowercase()
}

/// The 64-bit hash that `DefaultHasher::new()` gives to the string `s`.
pub uninterp spec fn text_hash(s: Seq<char>) -> u64;

/// Hashes a string with a fresh `DefaultHasher` (through `hash_one` on
/// `BuildHasherDefault<DefaultHasher>`, which starts from `DefaultHasher::new()`).
/// Such a hasher starts from fixed keys, so the value depends on the string
/// alone; the value is named `text_hash(s)`.
#[verifier::external_body]
pub(crate) fn hash_text(s: &str) -> (h: u64)
    ensures
        h == text_hash(s@),
{
    std::hash::BuildHasherDefault::<std::collections::hash_map::DefaultHasher>::default().hash_one(s)
}

/// The slug after one more character: letters and digits are kept, a run of
/// whitespace, `-` or `_` becomes one `_`, anything else is dropped.
pub open spec fn slug_step(slug: Seq<char>, c: char) -> Seq<char> {
    if is_ascii_alnum(c) {
        slug.push(c)
    } else if is_ascii_space(c) || c == '-' || c == '_' {
        if slug.len() > 0 && slug.last() == '_' {
            slug
        } else {
            slug.push('_')
        }
    } else {
        slug
    }
}

/// The slug built from `slug` and the characters of `s`, stopping once it
/// reaches 40 characters.
pub open spec fn slug_from(s: Seq<char>, slug: Seq<char>) -> Seq<char>
    decreases s.len(),
{
    if s.len() == 0 {
        slug
    } else {
        let n = slug_step(slug, s[0]);
        if n.len() >= 40 {
            n
        } else {
            slug_from(s.drop_first(), n)
        }
    }
}

/// The cache key of a normalized query whose hash is `hash`: the slug, a dash
/// and the hash as 16 hexadecimal digits, or `query-` and the hash when the
/// slug is empty.
pub open spec fn cache_key_text(normalized: Seq<char>, hash: u64) -> Seq<char> {
    let slug = slug_from(normalized, Seq::empty());
    let hex = hex_digits(hash as nat, 16);
    if slug.len() == 0 {
        "query-"@ + hex
    } else {
        slug + seq!['-'] + hex
    }
}

/// `s` with each run of whitespace replaced by one space (a run at the
/// start is dropped), built onto `out`.
pub open spec fn collapse_from(s: Seq<char>, out: Seq<char>) -> Seq<char>
    decreases s.len(),
{
    if s.len() == 0 {
        out
    } else if is_whitespace_char(s[0]) {
        if out.len() == 0 || out.last() == ' ' {
            collapse_from(s.drop_first(), out)
        } else {
            collapse_from(s.drop_first(), out.push(' '))
        }
    } else {
        collapse_from(s.drop_first(), out.push(s[0]))
    }
}

/// The normalized form of a query: trimmed, each inner run of whitespace
/// made one space, then lowercased.
pub open spec fn normalize_query(query: Seq<char>) -> Seq<char> {
    lowercase_of(collapse_from(trim_spec(query), Seq::empty()))
}

/// `s` with each run of whitespace replaced by one space.
fn collapse_whitespace(s: &[char]) -> (r: Vec<char>)
    ensures
        r@ == collapse_from(s@, Seq::empty()),
{
    let n = s.len();
    let mut out: Vec<char> = Vec::new();
    let mut i: usize = 0;
    assert(s@.subrange(0, n as int) =~= s@);
    while i < n
        invariant
            n == s@.len(),
            i <= n,
            collapse_from(s@, Seq::empty()) == collapse_from(s@.subrange(i as int, n as int), out@),
        decreases n - i,
    {
        let ghost rest = s@.subrange(i as int, n as int);
        assert(rest.drop_first() =~= s@.subrange(i + 1, n as int));
        let c = s[i];
        if char_is_whitespace(c) {
            if !(out.len() == 0 || out[out.len() - 1] == ' ') {
                out.push(' ');
            }
        } else {
            out.push(c);
        }
        i += 1;
    }
    assert(s@.subrange(n as int, n as int) =~= Seq::<char>::empty());
    out
}

/// The cache key of `query`.
pub open spec fn cache_key_spec(query: Seq<char>) -> Seq<char> {
    cache_key_text(normalize_query(query), text_hash(normalize_query(query)))
}

/// The cache key built from a normalized query and its hash.
pub fn cache_key_from(normalized: &str, hash: u64) -> (r: String)
    ensures
        r@ == cache_key_text(normalized@, hash),
{
    let chars = str_chars(normalized);
    let n = chars.len();
    let mut slug: Vec<char> = Vec::new();
    let mut i: usize = 0;
    assert(chars@.subrange(0, n as int) =~= chars@);
    while i < n && slug.len() < 40
        invariant
            n == chars@.len(),
            i <= n,
            slug@.len() <= 40,
            slug_from(chars@, Seq::empty()) == if slug@.len() >= 40 {
                slug@
            } else {
                slug_from(chars@.subrange(i as int, n as int), slug@)
            },
        decreases n - i,
    {
        let ghost rest = chars@.subrange(i as int, n as int);
        assert(rest.drop_first() =~= chars@.subrange(i + 1, n as int));
        let ch = chars[i];
        if ascii_alnum(ch) {
            slug.push(ch);
        } else if ascii_space(ch) || ch == '-' || ch == '_' {
            if !(slug.len() > 0 && slug[slug.len() - 1] == '_') {
                slug.push('_');
            }
        }
        i += 1;
    }
    proof {
        if slug@.len() < 40 {
            assert(chars@.subrange(i as int, n as int) =~= Seq::<char>::empty());
        }
    }
    let mut out: Vec<char> = Vec::new();
    if slug.len() == 0 {
        push_str(&mut out, "query-");
    } else {
        out = slug;
        out.push('-');
    }
    push_hex_digits(&mut out, hash, 16);
    proof {
        reveal_strlit("query-");
        assert(out@ =~= cache_key_text(normalized@, hash));
    }
    string_from_chars(&out)
}

/// The cache key of a search query: its normalized form (trimmed, inner
/// whitespace runs made one space, lowercased) reduced to a slug of at most
/// 40 characters, followed by the hash of that form.
pub fn cache_key(query: &str) -> (r: String)
    ensures
        r@ == cache_key_spec(query@),
{
    let chars = str_chars(query);
    let collapsed = string_from_chars(&collapse_whitespace(&trim_chars(&chars)));
    let normalized = to_lowercase(collapsed.as_str());
    let hash = hash_text(normalized.as_str());
    cache_key_from(normalized.as_str(), hash)
}

/// The file name of a cache entry: the key followed by `.json`.
pub open spec fn cache_file_name(query: Seq<char>) -> Seq<char> {
    cache_key_spec(query) + ".json"@
}

/// Whether a stored entry answers `query` at time `now`: it was stored for
/// the same query, less than `ttl_secs` seconds ago (so nothing is fresh
/// with a time-to-live of zero).
pub open spec fn entry_fresh(
    stored_query: Seq<char>,
    fetched_at: u64,
    query: Seq<char>,
    now: u64,
    ttl_secs: u64,
) -> bool {
    stored_query == query && (if now >= fetched_at {
        now - fetched_at
    } else {
        0
    }) < ttl_secs
}

impl SearchCache {
    /// The base directory under which the cache lives.
    pub closed spec fn base(&self) -> Seq<char> {
        self.base_dir@
    }

    pub fn new(base_dir: &str) -> (r: Self)
        ensures
            r.base() == base_dir@,
    {
        SearchCache { base_dir: base_dir.to_string() }
    }

    /// The directory of the cache files.
    pub fn cache_dir(&self) -> (r: String)
        ensures
            r@ == joined_path(self.base(), "search"@),
    {
        path_join(self.base_dir.as_str(), "search")
    }

    /// The file that caches the results of `query`.
    pub fn cache_path(&self, query: &str) -> (r: String)
        ensures
            r@ == joined_path(joined_path(self.base(), "search"@), cache_file_name(query@)),
    {
        let mut key = cache_key(query);
        key.append(".json");
        let dir = self.cache_dir();
        path_join(dir.as_str(), key.as_str())
    }

    /// Whether an entry stored for `stored_query` at `fetched_at` answers
    /// `query` at time `now` with the time-to-live `ttl_secs`.
    pub fn entry_is_fresh(
        stored_query: &str,
        fetched_at: u64,
        query: &str,
        now: u64,
        ttl_secs: u64,
    ) -> (b: bool)
        ensures
            b == entry_fresh(stored_query@, fetched_at, query@, now, ttl_secs),
    {
        let a = stored_query.to_string();
        let b = query.to_string();
        if a != b {
            return false;
        }
        now.saturating_sub(fetched_at) < ttl_secs
    }
}

} // verus!
