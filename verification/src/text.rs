//! Character-level text helpers shared by the parsers and formatters.
//!
//! Strings are handled as sequences of `char`s: each helper states its result
//! over the `Seq<char>` view of its input.
use vstd::prelude::*;
use vstd::string::*;

verus! {

// ---------------------------------------------------------------------------
// Conversions between `str`/`String` and `Vec<char>`
// ---------------------------------------------------------------------------

/// The characters of `s`, in order.
pub fn str_chars(s: &str) -> (r: Vec<char>)
    ensures
        r@ == s@,
{
    let mut r: Vec<char> = Vec::new();
    for c in it: s.chars()
        invariant
            it.seq() == s@,
            r@ == it.seq().take(it.index()),
    {
        r.push(c);
    }
    r
}

/// `String::push`: appends one character at the end.
#[verifier::external_body]
fn push_char(s: &mut String, c: char)
    ensures
        final(s)@ == old(s)@.push(c),
{
    s.push(c);
}

/// A `String` holding exactly the characters of `v`.
pub fn string_from_chars(v: &[char]) -> (r: String)
    ensures
        r@ == v@,
{
    let mut r = String::new();
    let mut i: usize = 0;
    while i < v.len()
        invariant
            i <= v.len(),
            r@ == v@.take(i as int),
        decreases v.len() - i,
    {
        push_char(&mut r, v[i]);
        i += 1;
        assert(r@ =~= v@.take(i as int));
    }
    assert(v@.take(v.len() as int) =~= v@);
    r
}

/// A copy of `s` with `c` appended.
pub fn string_push(s: &String, c: char) -> (r: String)
    ensures
        r@ == s@.push(c),
{
    let mut r = s.clone();
    push_char(&mut r, c);
    r
}

// ---------------------------------------------------------------------------
// Whitespace and trimming
// ---------------------------------------------------------------------------

/// Whether `c` has the Unicode `White_Space` property, which is what
/// `char::is_whitespace` decides: tab, line feed, vertical tab, form feed,
/// carriage return, space, next line, no-break space, ogham space mark, the
/// spaces from en quad to hair space, line and paragraph separators, narrow
/// no-break space, medium mathematical space and ideographic space.
pub open spec fn is_whitespace_char(c: char) -> bool {
    let u = c as u32;
    ||| (0x09 <= u && u <= 0x0D)
    ||| u == 0x20
    ||| u == 0x85
    ||| u == 0xA0
    ||| u == 0x1680
    ||| (0x2000 <= u && u <= 0x200A)
    ||| u == 0x2028
    ||| u == 0x2029
    ||| u == 0x202F
    ||| u == 0x205F
    ||| u == 0x3000
}

/// Whether `c` is whitespace (the Unicode `White_Space` property).
pub(crate) fn char_is_whitespace(c: char) -> (b: bool)
    ensures
        b == is_whitespace_char(c),
{
    let u = c as u32;
    (0x09 <= u && u <= 0x0D) || u == 0x20 || u == 0x85 || u == 0xA0 || u == 0x1680 || (0x2000 <= u
        && u <= 0x200A) || u == 0x2028 || u == 0x2029 || u == 0x202F || u == 0x205F || u == 0x3000
}

/// `s` without its leading whitespace.
pub open spec fn trim_start_spec(s: Seq<char>) -> Seq<char>
    decreases s.len(),
{
    if s.len() > 0 && is_whitespace_char(s[0]) {
        trim_start_spec(s.drop_first())
    } else {
        s
    }
}

/// `s` without its trailing whitespace.
pub open spec fn trim_end_spec(s: Seq<char>) -> Seq<char>
    decreases s.len(),
{
    if s.len() > 0 && is_whitespace_char(s.last()) {
        trim_end_spec(s.drop_last())
    } else {
        s
    }
}

/// `s` without leading and trailing whitespace (what `str::trim` returns).
pub open spec fn trim_spec(s: Seq<char>) -> Seq<char> {
    trim_end_spec(trim_start_spec(s))
}

/// Removes leading and trailing whitespace.
pub fn trim_chars(v: &[char]) -> (r: Vec<char>)
    ensures
        r@ == trim_spec(v@),
{
    let n = v.len();
    let mut i: usize = 0;
    assert(v@.subrange(0, n as int) =~= v@);
    while i < n && char_is_whitespace(v[i])
        invariant
            n == v@.len(),
            i <= n,
            trim_start_spec(v@) == trim_start_spec(v@.subrange(i as int, n as int)),
        decreases n - i,
    {
        assert(v@.subrange(i as int, n as int).drop_first() =~= v@.subrange(i + 1, n as int));
        i += 1;
    }
    let ghost t = v@.subrange(i as int, n as int);
    assert(trim_start_spec(v@) == t);
    let mut j: usize = n;
    while j > i && char_is_whitespace(v[j - 1])
        invariant
            i <= j <= n,
            n == v@.len(),
            t == v@.subrange(i as int, n as int),
            trim_end_spec(t) == trim_end_spec(v@.subrange(i as int, j as int)),
        decreases j,
    {
        assert(v@.subrange(i as int, j as int).drop_last() =~= v@.subrange(i as int, j - 1));
        j -= 1;
    }
    let mut r: Vec<char> = Vec::new();
    let mut k: usize = i;
    while k < j
        invariant
            i <= k <= j <= n,
            n == v@.len(),
            r@ == v@.subrange(i as int, k as int),
        decreases j - k,
    {
        r.push(v[k]);
        k += 1;
        assert(r@ =~= v@.subrange(i as int, k as int));
    }
    r
}

/// Whether every character of `s` is whitespace.
pub open spec fn all_whitespace(s: Seq<char>) -> bool {
    forall|k: int| 0 <= k < s.len() ==> is_whitespace_char(#[trigger] s[k])
}

/// Trimming leaves nothing exactly when the text is all whitespace.
pub proof fn lemma_trim_start_empty(s: Seq<char>)
    ensures
        (trim_start_spec(s).len() == 0) == all_whitespace(s),
    decreases s.len(),
{
    if s.len() > 0 && is_whitespace_char(s[0]) {
        lemma_trim_start_empty(s.drop_first());
        if all_whitespace(s.drop_first()) {
            assert forall|k: int| 0 <= k < s.len() implies is_whitespace_char(#[trigger] s[k]) by {
                if k > 0 {
                    assert(s[k] == s.drop_first()[k - 1]);
                }
            }
        }
        if all_whitespace(s) {
            assert forall|k: int| 0 <= k < s.drop_first().len() implies is_whitespace_char(
                #[trigger] s.drop_first()[k],
            ) by {
                assert(s.drop_first()[k] == s[k + 1]);
            }
        }
    } else if s.len() > 0 {
        assert(!is_whitespace_char(s[0]));
    }
}

/// Trimming the end of a text that is not empty leaves it not empty.
pub proof fn lemma_trim_end_nonempty(s: Seq<char>)
    requires
        s.len() > 0,
        !is_whitespace_char(s[0]),
    ensures
        trim_end_spec(s).len() > 0,
        trim_end_spec(s)[0] == s[0],
    decreases s.len(),
{
    if is_whitespace_char(s.last()) {
        if s.len() == 1 {
            assert(s.last() == s[0]);
        } else {
            lemma_trim_end_nonempty(s.drop_last());
        }
    }
}

/// The trimmed text is empty exactly when the text is all whitespace.
pub proof fn lemma_trim_empty(s: Seq<char>)
    ensures
        (trim_spec(s).len() == 0) == all_whitespace(s),
{
    lemma_trim_start_empty(s);
    let t = trim_start_spec(s);
    lemma_trim_start_shape(s);
    if t.len() > 0 {
        lemma_trim_end_nonempty(t);
    }
}

/// What trimming the start leaves begins with a non-whitespace character.
pub proof fn lemma_trim_start_shape(s: Seq<char>)
    ensures
        trim_start_spec(s).len() > 0 ==> !is_whitespace_char(trim_start_spec(s)[0]),
    decreases s.len(),
{
    if s.len() > 0 && is_whitespace_char(s[0]) {
        lemma_trim_start_shape(s.drop_first());
    }
}

/// Trimming the start never lengthens a text, and shortens one that begins
/// with whitespace.
proof fn lemma_trim_start_len(s: Seq<char>)
    ensures
        trim_start_spec(s).len() <= s.len(),
        s.len() > 0 && is_whitespace_char(s[0]) ==> trim_start_spec(s).len() < s.len(),
    decreases s.len(),
{
    if s.len() > 0 && is_whitespace_char(s[0]) {
        lemma_trim_start_len(s.drop_first());
    }
}

/// Trimming the end never lengthens a text, and shortens one that ends
/// with whitespace.
proof fn lemma_trim_end_len(s: Seq<char>)
    ensures
        trim_end_spec(s).len() <= s.len(),
        s.len() > 0 && is_whitespace_char(s.last()) ==> trim_end_spec(s).len() < s.len(),
    decreases s.len(),
{
    if s.len() > 0 && is_whitespace_char(s.last()) {
        lemma_trim_end_len(s.drop_last());
    }
}

/// A text that trimming leaves as it is neither begins nor ends with whitespace.
pub proof fn lemma_trimmed_ends(s: Seq<char>)
    requires
        trim_spec(s) == s,
        s.len() > 0,
    ensures
        !is_whitespace_char(s[0]),
        !is_whitespace_char(s.last()),
{
    lemma_trim_start_len(s);
    lemma_trim_end_len(trim_start_spec(s));
    if !is_whitespace_char(s[0]) {
        assert(trim_start_spec(s) == s);
        lemma_trim_end_len(s);
    }
}

/// A text that neither begins nor ends with whitespace is its own trim.
pub proof fn lemma_trim_of_trimmed(s: Seq<char>)
    requires
        s.len() > 0,
        !is_whitespace_char(s[0]),
        !is_whitespace_char(s.last()),
    ensures
        trim_spec(s) == s,
{
    assert(trim_start_spec(s) == s);
}

// ---------------------------------------------------------------------------
// Lines
// ---------------------------------------------------------------------------

/// `s` without one trailing carriage return.
pub open spec fn strip_cr(s: Seq<char>) -> Seq<char> {
    if s.len() > 0 && s.last() == '\r' {
        s.drop_last()
    } else {
        s
    }
}

/// The lines of `cur + s`, where `cur` is the part of the current line seen so far:
/// lines end at `'\n'`, a `"\r\n"` ending counts as one, and an empty text after
/// the last line ending makes no line (what `str::lines` yields).
pub open spec fn lines_from(s: Seq<char>, cur: Seq<char>) -> Seq<Seq<char>>
    decreases s.len(),
{
    if s.len() == 0 {
        if cur.len() == 0 {
            Seq::empty()
        } else {
            seq![cur]
        }
    } else if s[0] == '\n' {
        seq![strip_cr(cur)] + lines_from(s.drop_first(), Seq::empty())
    } else {
        lines_from(s.drop_first(), cur.push(s[0]))
    }
}

/// The lines of `s`, as `str::lines` yields them.
pub open spec fn lines_spec(s: Seq<char>) -> Seq<Seq<char>> {
    lines_from(s, Seq::empty())
}

/// A text with no line feed that continues the line `cur` completes it as
/// the one line left.
proof fn lemma_lines_from_one(s: Seq<char>, cur: Seq<char>)
    requires
        forall|k: int| 0 <= k < s.len() ==> s[k] != '\n',
        cur.len() + s.len() > 0,
    ensures
        lines_from(s, cur) == seq![cur + s],
    decreases s.len(),
{
    if s.len() == 0 {
        assert(cur + s =~= cur);
    } else {
        assert(s[0] != '\n');
        assert forall|k: int| 0 <= k < s.drop_first().len() implies s.drop_first()[k] != '\n' by {
            assert(s.drop_first()[k] == s[k + 1]);
        }
        lemma_lines_from_one(s.drop_first(), cur.push(s[0]));
        assert(cur.push(s[0]) + s.drop_first() =~= cur + s);
    }
}

/// A line without a line feed that continues `cur`, then a line feed, then
/// `b`: the completed line (a carriage return before the feed dropped) comes
/// first, then the lines of `b`.
pub proof fn lemma_lines_from_split(a: Seq<char>, b: Seq<char>, cur: Seq<char>)
    requires
        forall|k: int| 0 <= k < a.len() ==> a[k] != '\n',
    ensures
        lines_from(a + seq!['\n'] + b, cur) == seq![strip_cr(cur + a)] + lines_from(b, Seq::empty()),
    decreases a.len(),
{
    let s = a + seq!['\n'] + b;
    if a.len() == 0 {
        assert(s[0] == '\n');
        assert(s.drop_first() =~= b);
        assert(cur + a =~= cur);
    } else {
        assert(s[0] == a[0]);
        assert(s.drop_first() =~= a.drop_first() + seq!['\n'] + b);
        assert forall|k: int| 0 <= k < a.drop_first().len() implies a.drop_first()[k] != '\n' by {
            assert(a.drop_first()[k] == a[k + 1]);
        }
        lemma_lines_from_split(a.drop_first(), b, cur.push(a[0]));
        assert(cur.push(a[0]) + a.drop_first() =~= cur + a);
    }
}

/// A text that is not empty and has no line feed is one line.
pub proof fn lemma_single_line(s: Seq<char>)
    requires
        s.len() > 0,
        forall|k: int| 0 <= k < s.len() ==> s[k] != '\n',
    ensures
        lines_spec(s) == seq![s],
{
    lemma_lines_from_one(s, Seq::empty());
    assert(Seq::<char>::empty() + s =~= s);
}

fn strip_cr_exec(cur: Vec<char>) -> (r: Vec<char>)
    ensures
        r@ == strip_cr(cur@),
{
    let mut cur = cur;
    if cur.len() > 0 && cur[cur.len() - 1] == '\r' {
        cur.pop();
    }
    cur
}

/// Splits `s` into its lines, as `str::lines` does.
pub fn split_lines(s: &[char]) -> (r: Vec<Vec<char>>)
    ensures
        r@.len() == lines_spec(s@).len(),
        forall|k: int| 0 <= k < r@.len() ==> #[trigger] r@[k]@ == lines_spec(s@)[k],
{
    let n = s.len();
    let mut out: Vec<Vec<char>> = Vec::new();
    let mut cur: Vec<char> = Vec::new();
    let ghost mut outv: Seq<Seq<char>> = Seq::empty();
    let mut i: usize = 0;
    assert(s@.subrange(0, n as int) =~= s@);
    assert(Seq::<Seq<char>>::empty() + lines_spec(s@) =~= lines_spec(s@));
    while i < n
        invariant
            n == s@.len(),
            i <= n,
            out@.len() == outv.len(),
            forall|k: int| 0 <= k < out@.len() ==> #[trigger] out@[k]@ == outv[k],
            lines_spec(s@) == outv + lines_from(s@.subrange(i as int, n as int), cur@),
        decreases n - i,
    {
        let ghost rest = s@.subrange(i as int, n as int);
        assert(rest.drop_first() =~= s@.subrange(i + 1, n as int));
        let c = s[i];
        if c == '\n' {
            let line = strip_cr_exec(cur);
            proof {
                assert(lines_from(rest, cur@) == seq![line@] + lines_from(rest.drop_first(), Seq::empty()));
                assert(outv + seq![line@] + lines_from(rest.drop_first(), Seq::empty())
                    =~= outv + (seq![line@] + lines_from(rest.drop_first(), Seq::empty())));
                outv = outv.push(line@);
            }
            out.push(line);
            cur = Vec::new();
        } else {
            cur.push(c);
        }
        i += 1;
    }
    proof {
        assert(s@.subrange(n as int, n as int) =~= Seq::<char>::empty());
    }
    if cur.len() > 0 {
        proof {
            assert(lines_from(Seq::empty(), cur@) == seq![cur@]);
            outv = outv.push(cur@);
        }
        out.push(cur);
    } else {
        assert(outv + Seq::<Seq<char>>::empty() =~= outv);
    }
    proof {
        assert(lines_spec(s@) =~= outv);
    }
    out
}

// ---------------------------------------------------------------------------
// Searching
// ---------------------------------------------------------------------------

/// Whether `s` begins with `p`.
pub open spec fn starts_with_spec(s: Seq<char>, p: Seq<char>) -> bool {
    p.len() <= s.len() && s.subrange(0, p.len() as int) == p
}

/// Whether `s` begins with `p`.
pub fn chars_start_with(s: &[char], p: &[char]) -> (b: bool)
    ensures
        b == starts_with_spec(s@, p@),
{
    if p.len() > s.len() {
        return false;
    }
    let mut i: usize = 0;
    while i < p.len()
        invariant
            p.len() <= s.len(),
            i <= p.len(),
            forall|k: int| 0 <= k < i ==> s@[k] == p@[k],
        decreases p.len() - i,
    {
        if s[i] != p[i] {
            assert(s@.subrange(0, p@.len() as int)[i as int] != p@[i as int]);
            return false;
        }
        i += 1;
    }
    assert(s@.subrange(0, p@.len() as int) =~= p@);
    true
}

/// Whether `p` occurs in `s` starting at position `i`.
pub open spec fn occurs_at(s: Seq<char>, p: Seq<char>, i: int) -> bool {
    0 <= i && i + p.len() <= s.len() && s.subrange(i, i + p.len()) == p
}

/// Whether `p` occurs somewhere in `s`.
pub open spec fn contains_spec(s: Seq<char>, p: Seq<char>) -> bool {
    exists|i: int| occurs_at(s, p, i)
}

fn occurs_at_exec(s: &[char], p: &[char], i: usize) -> (b: bool)
    requires
        i + p.len() <= s.len(),
    ensures
        b == occurs_at(s@, p@, i as int),
{
    let mut k: usize = 0;
    while k < p.len()
        invariant
            i + p.len() <= s.len(),
            k <= p.len(),
            forall|m: int| 0 <= m < k ==> s@[i + m] == p@[m],
        decreases p.len() - k,
    {
        if s[i + k] != p[k] {
            assert(s@.subrange(i as int, i + p@.len())[k as int] != p@[k as int]);
            return false;
        }
        k += 1;
    }
    assert(s@.subrange(i as int, i + p@.len()) =~= p@);
    true
}

/// Whether `p` occurs somewhere in `s`.
pub fn chars_contain(s: &[char], p: &[char]) -> (b: bool)
    ensures
        b == contains_spec(s@, p@),
{
    if p.len() > s.len() {
        assert forall|i: int| !occurs_at(s@, p@, i) by {}
        return false;
    }
    if p.len() == 0 {
        assert(s@.subrange(0, 0) =~= p@);
        assert(occurs_at(s@, p@, 0));
        return true;
    }
    let mut i: usize = 0;
    while i <= s.len() - p.len()
        invariant
            p.len() <= s.len(),
            p.len() >= 1,
            i <= s.len() - p.len() + 1,
            forall|j: int| 0 <= j < i ==> !occurs_at(s@, p@, j),
        decreases s.len() + 1 - i,
    {
        if occurs_at_exec(s, p, i) {
            return true;
        }
        i += 1;
    }
    assert forall|j: int| !occurs_at(s@, p@, j) by {
        if 0 <= j && j + p@.len() <= s@.len() {
            assert(j < i);
        }
    }
    false
}

/// How many times `c` occurs in `s`.
pub open spec fn count_char(s: Seq<char>, c: char) -> nat
    decreases s.len(),
{
    if s.len() == 0 {
        0
    } else {
        count_char(s.drop_last(), c) + if s.last() == c {
            1nat
        } else {
            0nat
        }
    }
}

/// How many times `c` occurs in `s`.
pub fn chars_count(s: &[char], c: char) -> (n: usize)
    ensures
        n == count_char(s@, c),
{
    let mut n: usize = 0;
    let mut i: usize = 0;
    while i < s.len()
        invariant
            i <= s.len(),
            n == count_char(s@.take(i as int), c),
            n <= i,
        decreases s.len() - i,
    {
        assert(s@.take(i + 1).drop_last() =~= s@.take(i as int));
        if s[i] == c {
            n += 1;
        }
        i += 1;
    }
    assert(s@.take(s.len() as int) =~= s@);
    n
}

/// The position of the first `c` in `s`, if any.
pub open spec fn first_index_of(s: Seq<char>, c: char) -> Option<int>
    decreases s.len(),
{
    if s.len() == 0 {
        None
    } else if s[0] == c {
        Some(0)
    } else {
        match first_index_of(s.drop_first(), c) {
            Some(k) => Some(k + 1),
            None => None,
        }
    }
}

proof fn lemma_first_index_of(s: Seq<char>, c: char)
    ensures
        first_index_of(s, c) matches Some(k) ==> 0 <= k < s.len() && s[k] == c && forall|
            j: int,
        |
            0 <= j < k ==> s[j] != c,
        first_index_of(s, c) is None ==> forall|j: int| 0 <= j < s.len() ==> s[j] != c,
    decreases s.len(),
{
    if s.len() > 0 && s[0] != c {
        lemma_first_index_of(s.drop_first(), c);
        assert forall|j: int| 1 <= j < s.len() implies s[j] == s.drop_first()[j - 1] by {}
    }
}

/// The position of the first `c` in `s`, if any.
pub fn chars_find(s: &[char], c: char) -> (r: Option<usize>)
    ensures
        r matches Some(k) ==> first_index_of(s@, c) == Some(k as int),
        r is None ==> first_index_of(s@, c) is None,
        r matches Some(k) ==> k < s.len(),
{
    let mut i: usize = 0;
    while i < s.len()
        invariant
            i <= s.len(),
            forall|j: int| 0 <= j < i ==> s@[j] != c,
        decreases s.len() - i,
    {
        if s[i] == c {
            proof {
                lemma_first_index_of(s@, c);
                lemma_first_index_unique(s@, c, i as int);
            }
            return Some(i);
        }
        i += 1;
    }
    proof {
        lemma_first_index_of(s@, c);
    }
    None
}

pub proof fn lemma_first_index_unique(s: Seq<char>, c: char, i: int)
    requires
        0 <= i < s.len(),
        s[i] == c,
        forall|j: int| 0 <= j < i ==> s[j] != c,
    ensures
        first_index_of(s, c) == Some(i),
    decreases s.len(),
{
    if i > 0 {
        assert forall|j: int| 0 <= j < i - 1 implies s.drop_first()[j] != c by {
            assert(s.drop_first()[j] == s[j + 1]);
        }
        lemma_first_index_unique(s.drop_first(), c, i - 1);
    }
}

/// A copy of the characters of `s` from `lo` up to `hi`.
pub fn chars_slice(s: &[char], lo: usize, hi: usize) -> (r: Vec<char>)
    requires
        lo <= hi <= s.len(),
    ensures
        r@ == s@.subrange(lo as int, hi as int),
{
    let mut r: Vec<char> = Vec::new();
    let mut k: usize = lo;
    while k < hi
        invariant
            lo <= k <= hi <= s.len(),
            r@ == s@.subrange(lo as int, k as int),
        decreases hi - k,
    {
        r.push(s[k]);
        k += 1;
        assert(r@ =~= s@.subrange(lo as int, k as int));
    }
    r
}

// ---------------------------------------------------------------------------
// Replacing
// ---------------------------------------------------------------------------

/// `s` with every occurrence of `from` replaced by `to`, scanning left to right
/// and skipping over each replaced occurrence (what `str::replace` returns for a
/// non-empty pattern).
pub open spec fn replace_spec(s: Seq<char>, from: Seq<char>, to: Seq<char>) -> Seq<char>
    recommends
        from.len() > 0,
    decreases s.len(),
{
    if from.len() == 0 || s.len() == 0 {
        s
    } else if starts_with_spec(s, from) {
        to + replace_spec(s.skip(from.len() as int), from, to)
    } else {
        seq![s[0]] + replace_spec(s.drop_first(), from, to)
    }
}

/// Replaces every occurrence of the non-empty pattern `from` by `to`.
pub fn chars_replace(s: &[char], from: &[char], to: &[char]) -> (r: Vec<char>)
    requires
        from.len() > 0,
    ensures
        r@ == replace_spec(s@, from@, to@),
{
    let n = s.len();
    let mut out: Vec<char> = Vec::new();
    let mut i: usize = 0;
    assert(s@.subrange(0, n as int) =~= s@);
    assert(Seq::<char>::empty() + replace_spec(s@, from@, to@) =~= replace_spec(s@, from@, to@));
    while i < n
        invariant
            n == s@.len(),
            i <= n,
            from@.len() > 0,
            replace_spec(s@, from@, to@) == out@ + replace_spec(
                s@.subrange(i as int, n as int),
                from@,
                to@,
            ),
        decreases n - i,
    {
        let ghost rest = s@.subrange(i as int, n as int);
        if from.len() <= n - i && occurs_at_exec(s, from, i) {
            proof {
                assert(rest.subrange(0, from@.len() as int) =~= s@.subrange(
                    i as int,
                    i + from@.len(),
                ));
                assert(rest.skip(from@.len() as int) =~= s@.subrange(i + from@.len(), n as int));
            }
            let mut k: usize = 0;
            let ghost out0 = out@;
            while k < to.len()
                invariant
                    k <= to.len(),
                    out@ == out0 + to@.take(k as int),
                decreases to.len() - k,
            {
                out.push(to[k]);
                k += 1;
                assert(out@ =~= out0 + to@.take(k as int));
            }
            assert(to@.take(to@.len() as int) =~= to@);
            assert(out0 + (to@ + replace_spec(rest.skip(from@.len() as int), from@, to@))
                =~= out@ + replace_spec(rest.skip(from@.len() as int), from@, to@));
            i += from.len();
        } else {
            proof {
                if starts_with_spec(rest, from@) {
                    assert(rest.subrange(0, from@.len() as int) =~= s@.subrange(
                        i as int,
                        i + from@.len(),
                    ));
                }
                assert(rest.drop_first() =~= s@.subrange(i + 1, n as int));
                assert(out@ + (seq![s@[i as int]] + replace_spec(rest.drop_first(), from@, to@))
                    =~= out@.push(s@[i as int]) + replace_spec(rest.drop_first(), from@, to@));
            }
            out.push(s[i]);
            i += 1;
        }
    }
    proof {
        assert(s@.subrange(n as int, n as int) =~= Seq::<char>::empty());
        assert(out@ + Seq::<char>::empty() =~= out@);
    }
    out
}

// ---------------------------------------------------------------------------
// Decimal numbers
// ---------------------------------------------------------------------------

/// The decimal digit character for `d`, which is below ten.
pub open spec fn digit_char(d: nat) -> char {
    if d == 0 {
        '0'
    } else if d == 1 {
        '1'
    } else if d == 2 {
        '2'
    } else if d == 3 {
        '3'
    } else if d == 4 {
        '4'
    } else if d == 5 {
        '5'
    } else if d == 6 {
        '6'
    } else if d == 7 {
        '7'
    } else if d == 8 {
        '8'
    } else {
        '9'
    }
}

/// The decimal notation of `n`, without leading zeros ("0" for zero).
pub open spec fn decimal_spec(n: nat) -> Seq<char>
    decreases n,
{
    if n < 10 {
        seq![digit_char(n)]
    } else {
        decimal_spec(n / 10).push(digit_char(n % 10))
    }
}

/// The decimal notation of `n`, padded with zeros to at least two digits
/// (what `format!("{n:02}")` writes).
pub open spec fn two_digit_spec(n: nat) -> Seq<char> {
    if n < 10 {
        seq!['0', digit_char(n)]
    } else {
        decimal_spec(n)
    }
}

/// Whether `c` is one of the ASCII digits `0` to `9`.
pub open spec fn is_digit(c: char) -> bool {
    '0' <= c && c <= '9'
}

/// The number that a run of decimal digits denotes, most significant first.
pub open spec fn decimal_value(s: Seq<char>) -> nat
    decreases s.len(),
{
    if s.len() == 0 {
        0
    } else {
        decimal_value(s.drop_last()) * 10 + ((s.last() as int) - ('0' as int)) as nat
    }
}

/// Every character of `s` is a digit.
pub open spec fn all_digits(s: Seq<char>) -> bool {
    forall|k: int| 0 <= k < s.len() ==> is_digit(#[trigger] s[k])
}

/// The decimal notation of `n` is a non-empty run of digits that reads back as `n`.
pub proof fn lemma_decimal_reads_back(n: nat)
    ensures
        decimal_spec(n).len() >= 1,
        all_digits(decimal_spec(n)),
        decimal_value(decimal_spec(n)) == n,
    decreases n,
{
    if n >= 10 {
        lemma_decimal_reads_back(n / 10);
        let p = decimal_spec(n / 10);
        let d = n % 10;
        assert(decimal_spec(n).drop_last() =~= p);
        assert(decimal_spec(n).last() == digit_char(d));
        assert(((digit_char(d) as int) - ('0' as int)) == d);
        assert(decimal_value(decimal_spec(n)) == decimal_value(p) * 10 + d);
        assert(decimal_value(p) == n / 10);
        assert((n / 10) * 10 + d == n);
        assert forall|k: int| 0 <= k < decimal_spec(n).len() implies is_digit(#[trigger] decimal_spec(n)[k]) by {
            if k < p.len() {
                assert(decimal_spec(n)[k] == p[k]);
            }
        }
    } else {
        let s = decimal_spec(n);
        assert(s.drop_last() =~= Seq::<char>::empty());
        assert(decimal_value(Seq::<char>::empty()) == 0);
        assert(s.last() == digit_char(n));
        assert(((digit_char(n) as int) - ('0' as int)) == n);
        assert(decimal_value(s) == decimal_value(s.drop_last()) * 10 + n);
    }
}

/// The two-digit notation of `n` is a run of at least two digits that reads
/// back as `n`; below one hundred it is exactly two digits.
pub proof fn lemma_two_digits_read_back(n: nat)
    ensures
        two_digit_spec(n).len() >= 2,
        n < 100 ==> two_digit_spec(n).len() == 2,
        all_digits(two_digit_spec(n)),
        decimal_value(two_digit_spec(n)) == n,
{
    lemma_decimal_reads_back(n);
    if n < 10 {
        let s = two_digit_spec(n);
        assert(s.drop_last() =~= seq!['0']);
        assert(seq!['0'].drop_last() =~= Seq::<char>::empty());
        assert(decimal_value(Seq::<char>::empty()) == 0);
        assert(decimal_value(seq!['0']) == 0);
        assert(s.last() == digit_char(n));
        assert(((digit_char(n) as int) - ('0' as int)) == n);
        assert(decimal_value(s) == decimal_value(s.drop_last()) * 10 + n);
    } else {
        if n < 100 {
            assert(decimal_spec(n / 10) == seq![digit_char(n / 10)]);
        } else {
            lemma_decimal_reads_back(n / 10);
        }
    }
}

fn digit_exec(d: u64) -> (c: char)
    requires
        d < 10,
    ensures
        c == digit_char(d as nat),
{
    if d == 0 {
        '0'
    } else if d == 1 {
        '1'
    } else if d == 2 {
        '2'
    } else if d == 3 {
        '3'
    } else if d == 4 {
        '4'
    } else if d == 5 {
        '5'
    } else if d == 6 {
        '6'
    } else if d == 7 {
        '7'
    } else if d == 8 {
        '8'
    } else {
        '9'
    }
}

/// Appends the decimal notation of `n` to `out`.
pub fn push_decimal(out: &mut Vec<char>, n: u64)
    ensures
        final(out)@ == old(out)@ + decimal_spec(n as nat),
    decreases n,
{
    if n >= 10 {
        push_decimal(out, n / 10);
    }
    out.push(digit_exec(n % 10));
    assert(final(out)@ =~= old(out)@ + decimal_spec(n as nat)) by {
        if n < 10 {
            assert(n % 10 == n);
        }
    }
}

/// Appends `n` zero-padded to at least two digits to `out`.
pub fn push_two_digits(out: &mut Vec<char>, n: u64)
    ensures
        final(out)@ == old(out)@ + two_digit_spec(n as nat),
{
    if n < 10 {
        out.push('0');
        out.push(digit_exec(n));
        assert(final(out)@ =~= old(out)@ + two_digit_spec(n as nat));
    } else {
        push_decimal(out, n);
    }
}

/// Appends the characters of `s` to `out`.
pub fn push_str(out: &mut Vec<char>, s: &str)
    ensures
        final(out)@ == old(out)@ + s@,
{
    let v = str_chars(s);
    let mut k: usize = 0;
    let ghost out0 = out@;
    while k < v.len()
        invariant
            k <= v.len(),
            v@ == s@,
            out@ == out0 + v@.take(k as int),
        decreases v.len() - k,
    {
        out.push(v[k]);
        k += 1;
        assert(out@ =~= out0 + v@.take(k as int));
    }
    assert(v@.take(v.len() as int) =~= v@);
}

// ---------------------------------------------------------------------------
// Hexadecimal numbers
// ---------------------------------------------------------------------------

/// The lowercase hexadecimal digit character for `d`, which is below sixteen.
pub open spec fn hex_char(d: nat) -> char {
    if d < 10 {
        digit_char(d)
    } else if d == 10 {
        'a'
    } else if d == 11 {
        'b'
    } else if d == 12 {
        'c'
    } else if d == 13 {
        'd'
    } else if d == 14 {
        'e'
    } else {
        'f'
    }
}

/// The last `n` hexadecimal digits of `h`, most significant first.
pub open spec fn hex_digits(h: nat, n: nat) -> Seq<char>
    decreases n,
{
    if n == 0 {
        Seq::empty()
    } else {
        hex_digits(h / 16, (n - 1) as nat).push(hex_char(h % 16))
    }
}

/// The lowercase hexadecimal notation of `h` without leading zeros
/// (what `format!("{h:x}")` writes).
pub open spec fn hex_spec(h: nat) -> Seq<char>
    decreases h,
{
    if h < 16 {
        seq![hex_char(h)]
    } else {
        hex_spec(h / 16).push(hex_char(h % 16))
    }
}

fn hex_exec(d: u64) -> (c: char)
    requires
        d < 16,
    ensures
        c == hex_char(d as nat),
{
    if d < 10 {
        digit_exec(d)
    } else if d == 10 {
        'a'
    } else if d == 11 {
        'b'
    } else if d == 12 {
        'c'
    } else if d == 13 {
        'd'
    } else if d == 14 {
        'e'
    } else {
        'f'
    }
}

/// Appends the last `n` hexadecimal digits of `h`, zero-padded, to `out`.
pub fn push_hex_digits(out: &mut Vec<char>, h: u64, n: u64)
    ensures
        final(out)@ == old(out)@ + hex_digits(h as nat, n as nat),
    decreases n,
{
    if n > 0 {
        push_hex_digits(out, h / 16, n - 1);
        out.push(hex_exec(h % 16));
        assert(final(out)@ =~= old(out)@ + hex_digits(h as nat, n as nat));
    } else {
        assert(final(out)@ =~= old(out)@ + hex_digits(h as nat, n as nat));
    }
}

/// Appends the hexadecimal notation of `h` to `out`.
pub fn push_hex(out: &mut Vec<char>, h: u64)
    ensures
        final(out)@ == old(out)@ + hex_spec(h as nat),
    decreases h,
{
    if h >= 16 {
        push_hex(out, h / 16);
    }
    out.push(hex_exec(h % 16));
    assert(final(out)@ =~= old(out)@ + hex_spec(h as nat)) by {
        if h < 16 {
            assert(h % 16 == h);
        }
    }
}

// ---------------------------------------------------------------------------
// ASCII classes
// ---------------------------------------------------------------------------

/// Whether `c` is an ASCII letter or digit (`char::is_ascii_alphanumeric`).
pub open spec fn is_ascii_alnum(c: char) -> bool {
    ('0' <= c && c <= '9') || ('a' <= c && c <= 'z') || ('A' <= c && c <= 'Z')
}

/// Whether `c` is ASCII whitespace: space, tab, line feed, form feed or
/// carriage return (`char::is_ascii_whitespace`).
pub open spec fn is_ascii_space(c: char) -> bool {
    c == ' ' || c == '\t' || c == '\n' || c == '\u{0C}' || c == '\r'
}

pub fn ascii_alnum(c: char) -> (b: bool)
    ensures
        b == is_ascii_alnum(c),
{
    ('0' <= c && c <= '9') || ('a' <= c && c <= 'z') || ('A' <= c && c <= 'Z')
}

pub fn ascii_space(c: char) -> (b: bool)
    ensures
        b == is_ascii_space(c),
{
    c == ' ' || c == '\t' || c == '\n' || c == '\u{0C}' || c == '\r'
}

} // verus!
