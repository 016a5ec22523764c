//! The set of favorite video ids and its JSON file content: a list of ids.
//! Reading and writing the file itself is done by the caller.
use vstd::prelude::*;

use crate::text::{lemma_trim_of_trimmed, str_chars, trim_chars, trim_spec};

verus! {

/// `serde_json::Error`, carried by the error that reports bad JSON.
#[verifier::external_type_specification]
#[verifier::external_body]
pub struct ExJsonError(serde_json::Error);

/// Why the favorites could not be read or written.
#[derive(Debug)]
pub enum FavoritesError {
    /// The file could not be read or written.
    Io(std::io::Error),
    /// The file is not a JSON list of strings.
    Json(serde_json::Error),
}

/// The list of strings that the JSON text `text` holds, if it is exactly a
/// JSON array of strings (as `serde_json::from_str::<Vec<String>>` reads it).
pub uninterp spec fn json_string_list(text: Seq<char>) -> Option<Seq<Seq<char>>>;

/// `serde_json::from_str::<Vec<String>>`: the strings of a JSON array of
/// strings. What it accepts is named `json_string_list(text)`: `Some` of the
/// strings when it returns them, `None` when it fails.
#[verifier::external_body]
fn parse_string_list(text: &str) -> (r: Result<Vec<String>, serde_json::Error>)
    ensures
        match r {
            Ok(v) => json_string_list(text@) == Some(v@.map_values(|s: String| s@)),
            Err(_) => json_string_list(text@) is None,
        },
{
    serde_json::from_str::<Vec<String>>(text)
}

/// The pretty-printed JSON array of the strings `items`, as
/// `serde_json::to_string_pretty` writes it.
pub uninterp spec fn json_pretty_string_list(items: Seq<Seq<char>>) -> Seq<char>;

/// `serde_json::to_string_pretty` on a list of strings. Its documentation
/// says it fails only when a `Serialize` impl fails or a map has non-string
/// keys, neither of which a list of strings has, so it succeeds. The text is
/// named `json_pretty_string_list(items)`; it is a JSON array, so it begins
/// with `[` and ends with `]`, and since every string is escaped on writing
/// and unescaped on reading, `serde_json::from_str` reads the same strings back.
#[verifier::external_body]
fn string_list_json(items: &[String]) -> (r: Result<String, serde_json::Error>)
    ensures
        r is Ok,
        r matches Ok(t) ==> t@ == json_pretty_string_list(items@.map_values(|s: String| s@)),
        r matches Ok(t) ==> t@.len() >= 2 && t@[0] == '[' && t@.last() == ']',
        r matches Ok(t) ==> json_string_list(t@) == Some(items@.map_values(|s: String| s@)),
{
    serde_json::to_string_pretty(items)
}

/// Whether `t` is the text the favorites `f` are saved as: the pretty JSON
/// list of its ids, which trimming leaves as it is and which reads back as
/// the same ids.
pub open spec fn saved_text(f: Favorites, t: Seq<char>) -> bool {
    &&& t == json_pretty_string_list(f.id_list())
    &&& t.len() > 0
    &&& trim_spec(t) == t
    &&& json_string_list(t) == Some(f.id_list())
}

/// Manages a set of favorite video IDs, persisted to disk.
pub struct Favorites {
    path: String,
    ids: Vec<String>,
}

/// The views of a list of strings.
pub open spec fn str_views(v: Seq<String>) -> Seq<Seq<char>> {
    v.map_values(|s: String| s@)
}

impl View for Favorites {
    type V = Set<Seq<char>>;

    closed spec fn view(&self) -> Set<Seq<char>> {
        str_views(self.ids@).to_set()
    }
}

/// Whether `v` holds `s` (by content).
pub open spec fn holds_str(v: Seq<String>, s: Seq<char>) -> bool {
    exists|i: int| 0 <= i < v.len() && (#[trigger] v[i])@ == s
}

/// Appending to a sequence adds the element to its set of elements.
proof fn lemma_push_to_set(s: Seq<Seq<char>>, x: Seq<char>)
    ensures
        s.push(x).to_set() == s.to_set().insert(x),
{
    assert forall|y: Seq<char>| #[trigger] s.push(x).to_set().contains(y) == s.to_set().insert(
        x,
    ).contains(y) by {
        if s.push(x).contains(y) {
            let k = choose|k: int| 0 <= k < s.push(x).len() && s.push(x)[k] == y;
            if k < s.len() {
                assert(s[k] == y);
                assert(s.contains(y));
            }
        }
        if s.contains(y) {
            let k = choose|k: int| 0 <= k < s.len() && s[k] == y;
            assert(s.push(x)[k] == y);
        }
        if y == x {
            assert(s.push(x)[s.len() as int] == x);
        }
    }
    assert(s.push(x).to_set() =~= s.to_set().insert(x));
}

fn position_of(v: &Vec<String>, target: &String) -> (r: Option<usize>)
    ensures
        r matches Some(i) ==> i < v@.len() && v@[i as int]@ == target@,
        r is None ==> forall|i: int| 0 <= i < v@.len() ==> (#[trigger] v@[i])@ != target@,
{
    let mut i: usize = 0;
    while i < v.len()
        invariant
            i <= v@.len(),
            forall|j: int| 0 <= j < i ==> (#[trigger] v@[j])@ != target@,
        decreases v@.len() - i,
    {
        if v[i] == *target {
            return Some(i);
        }
        i += 1;
    }
    None
}

impl Favorites {
    /// The ids are distinct by content.
    pub closed spec fn wf(&self) -> bool {
        str_views(self.ids@).no_duplicates()
    }

    /// Where the favorites file lives.
    pub closed spec fn path(&self) -> Seq<char> {
        self.path@
    }

    proof fn lemma_view_facts(&self)
        requires
            self.wf(),
        ensures
            self@.len() == self.ids@.len(),
            self@.finite(),
            forall|s: Seq<char>| self@.contains(s) <==> holds_str(self.ids@, s),
    {
        let vs = str_views(self.ids@);
        vs.unique_seq_to_set();
        assert forall|s: Seq<char>| self@.contains(s) <==> holds_str(self.ids@, s) by {
            if self@.contains(s) {
                assert(vs.contains(s));
                let i = choose|i: int| 0 <= i < vs.len() && vs[i] == s;
                assert(self.ids@[i]@ == s);
            }
            if holds_str(self.ids@, s) {
                let i = choose|i: int| 0 <= i < self.ids@.len() && (#[trigger] self.ids@[i])@ == s;
                assert(vs[i] == s);
                assert(vs.contains(s));
            }
        }
    }

    /// Create an empty favorites set at the given path.
    pub fn empty(path: String) -> (r: Self)
        ensures
            r.wf(),
            r@ == Set::<Seq<char>>::empty(),
            r.path() == path@,
    {
        let r = Favorites { path, ids: Vec::new() };
        proof {
            r.lemma_view_facts();
            assert(r@ =~= Set::<Seq<char>>::empty());
        }
        r
    }

    /// A favorites set at `path` holding the ids of `list`; repeated ids count once.
    pub fn from_list(path: String, list: Vec<String>) -> (r: Self)
        ensures
            r.wf(),
            r@ == str_views(list@).to_set(),
            r.path() == path@,
    {
        let mut ids: Vec<String> = Vec::new();
        let mut i: usize = 0;
        while i < list.len()
            invariant
                i <= list@.len(),
                str_views(ids@).no_duplicates(),
                str_views(ids@).to_set() == str_views(list@.take(i as int)).to_set(),
            decreases list@.len() - i,
        {
            let s = list[i].clone();
            let ghost before = ids@;
            assert(str_views(list@.take(i + 1)) =~= str_views(list@.take(i as int)).push(s@));
            if position_of(&ids, &s).is_none() {
                ids.push(s);
                proof {
                    assert(str_views(ids@) =~= str_views(before).push(s@));
                    assert forall|a: int, b: int|
                        0 <= a < str_views(ids@).len() && 0 <= b < str_views(ids@).len() && a
                            != b implies str_views(ids@)[a] != str_views(ids@)[b] by {
                        if a < before.len() && b < before.len() {
                            assert(str_views(ids@)[a] == str_views(before)[a]);
                            assert(str_views(ids@)[b] == str_views(before)[b]);
                        } else if a < before.len() {
                            assert(str_views(ids@)[a] == before[a]@);
                        } else {
                            assert(str_views(ids@)[b] == before[b]@);
                        }
                    }
                    lemma_push_to_set(str_views(before), s@);
                    lemma_push_to_set(str_views(list@.take(i as int)), s@);
                }
            } else {
                proof {
                    let k = choose|k: int| 0 <= k < before.len() && (#[trigger] before[k])@ == s@;
                    assert(str_views(before)[k] == s@);
                    assert(str_views(before).contains(s@));
                    lemma_push_to_set(str_views(list@.take(i as int)), s@);
                    assert(str_views(ids@).to_set() =~= str_views(ids@).to_set().insert(s@));
                }
            }
            i += 1;
        }
        assert(list@.take(list@.len() as int) =~= list@);
        Favorites { path, ids }
    }

    /// Toggle a video ID: add if not present, remove if present.
    /// Returns true if the video is now a favorite.
    pub fn toggle(&mut self, video_id: &str) -> (now_favorite: bool)
        requires
            old(self).wf(),
        ensures
            final(self).wf(),
            final(self).path() == old(self).path(),
            now_favorite == !old(self)@.contains(video_id@),
            final(self)@ == if old(self)@.contains(video_id@) {
                old(self)@.remove(video_id@)
            } else {
                old(self)@.insert(video_id@)
            },
    {
        proof {
            self.lemma_view_facts();
        }
        let target = video_id.to_string();
        let ghost before = self.ids@;
        match position_of(&self.ids, &target) {
            Some(i) => {
                self.ids.remove(i);
                proof {
                    assert(str_views(self.ids@) =~= str_views(before).remove(i as int));
                    let vs = str_views(before);
                    assert(vs[i as int] == video_id@);
                    assert forall|a: int, b: int|
                        0 <= a < str_views(self.ids@).len() && 0 <= b < str_views(self.ids@).len()
                            && a != b implies str_views(self.ids@)[a] != str_views(
                        self.ids@,
                    )[b] by {
                        let a2 = if a < i { a } else { a + 1 };
                        let b2 = if b < i { b } else { b + 1 };
                        assert(str_views(self.ids@)[a] == vs[a2]);
                        assert(str_views(self.ids@)[b] == vs[b2]);
                    }
                    assert forall|s: Seq<char>| #[trigger]
                        str_views(self.ids@).to_set().contains(s) == old(self)@.remove(
                            video_id@,
                        ).contains(s) by {
                        let ws = str_views(self.ids@);
                        if ws.to_set().contains(s) {
                            let k = choose|k: int| 0 <= k < ws.len() && ws[k] == s;
                            let k2 = if k < i { k } else { k + 1 };
                            assert(ws[k] == vs[k2]);
                            assert(vs.contains(s));
                            assert(k2 != i);
                        }
                        if old(self)@.remove(video_id@).contains(s) {
                            assert(vs.contains(s));
                            let k = choose|k: int| 0 <= k < vs.len() && vs[k] == s;
                            assert(k != i);
                            let k2 = if k < i { k } else { k - 1 };
                            assert(ws[k2] == vs[k]);
                            assert(ws.contains(s));
                        }
                    }
                    assert(self@ =~= old(self)@.remove(video_id@));
                }
                false
            },
            None => {
                self.ids.push(target);
                proof {
                    let vs = str_views(before);
                    assert(str_views(self.ids@) =~= vs.push(video_id@));
                    assert forall|a: int, b: int|
                        0 <= a < str_views(self.ids@).len() && 0 <= b < str_views(self.ids@).len()
                            && a != b implies str_views(self.ids@)[a] != str_views(
                        self.ids@,
                    )[b] by {
                        if a < before.len() && b < before.len() {
                            assert(str_views(self.ids@)[a] == vs[a]);
                            assert(str_views(self.ids@)[b] == vs[b]);
                        } else if a < before.len() {
                            assert(str_views(self.ids@)[a] == before[a]@);
                        } else {
                            assert(str_views(self.ids@)[b] == before[b]@);
                        }
                    }
                    lemma_push_to_set(vs, video_id@);
                    assert(self@ =~= old(self)@.insert(video_id@));
                }
                true
            },
        }
    }

    pub fn is_favorite(&self, video_id: &str) -> (b: bool)
        requires
            self.wf(),
        ensures
            b == self@.contains(video_id@),
    {
        proof {
            self.lemma_view_facts();
        }
        let target = video_id.to_string();
        position_of(&self.ids, &target).is_some()
    }

    pub fn count(&self) -> (n: usize)
        requires
            self.wf(),
        ensures
            n == self@.len(),
    {
        proof {
            self.lemma_view_facts();
        }
        self.ids.len()
    }

    /// All favorite ids, each once, in no particular order.
    pub fn all(&self) -> (r: &[String])
        requires
            self.wf(),
        ensures
            str_views(r@).to_set() == self@,
            str_views(r@).no_duplicates(),
    {
        self.ids.as_slice()
    }

    /// The favorites at `path` given the file's content: `None` when there
    /// is no file. No file, or one holding only whitespace, gives an empty
    /// set; otherwise the (trimmed) content must be a JSON list of strings.
    pub fn load(path: String, content: Option<String>) -> (r: Result<Self, FavoritesError>)
        ensures
            match content {
                None => r matches Ok(f) && f.wf() && f@ == Set::<Seq<char>>::empty() && f.path() == path@,
                Some(c) => if trim_spec(c@).len() == 0 {
                    r matches Ok(f) && f.wf() && f@ == Set::<Seq<char>>::empty() && f.path() == path@
                } else {
                    match json_string_list(trim_spec(c@)) {
                        Some(ids) => r matches Ok(f) && f.wf() && f@ == ids.to_set() && f.path() == path@,
                        None => r matches Err(FavoritesError::Json(_)),
                    }
                },
            },
    {
        match content {
            None => Ok(Favorites::empty(path)),
            Some(c) => {
                let trimmed = trim_chars(&str_chars(c.as_str()));
                if trimmed.len() == 0 {
                    return Ok(Favorites::empty(path));
                }
                let t = crate::text::string_from_chars(&trimmed);
                match parse_string_list(t.as_str()) {
                    Ok(list) => {
                        let ghost v = list@;
                        let f = Favorites::from_list(path, list);
                        assert(str_views(v) == v.map_values(|s: String| s@));
                        Ok(f)
                    },
                    Err(e) => Err(FavoritesError::Json(e)),
                }
            },
        }
    }

    /// The content of the favorites file: the ids as a pretty-printed JSON list.
    pub fn saved_content(&self) -> (r: Result<String, FavoritesError>)
        ensures
            r matches Ok(t) && saved_text(*self, t@),
            self.wf() ==> self.id_list().to_set() == self@ && self.id_list().no_duplicates(),
    {
        match string_list_json(self.ids.as_slice()) {
            Ok(t) => {
                proof {
                    assert(str_views(self.ids@) == self.ids@.map_values(|s: String| s@));
                    lemma_trim_of_trimmed(t@);
                }
                Ok(t)
            },
            Err(e) => Err(FavoritesError::Json(e)),
        }
    }

    /// The ids in the order they are kept (and written).
    pub closed spec fn id_list(&self) -> Seq<Seq<char>> {
        str_views(self.ids@)
    }

    /// Where the favorites file lives.
    pub fn path_str(&self) -> (r: &str)
        ensures
            r@ == self.path(),
    {
        self.path.as_str()
    }
}

/// Toggling the same id twice gives back the set that was there before.
pub proof fn law_toggle_twice(s: Set<Seq<char>>, id: Seq<char>)
    ensures
        ({
            let once = if s.contains(id) {
                s.remove(id)
            } else {
                s.insert(id)
            };
            let twice = if once.contains(id) {
                once.remove(id)
            } else {
                once.insert(id)
            };
            twice == s
        }),
{
    if s.contains(id) {
        assert(s.remove(id).insert(id) =~= s);
    } else {
        assert(s.insert(id).remove(id) =~= s);
    }
}

/// Favorites read back from the text they were saved as are the same set:
/// the file content is not blank, and its trimmed text parses as exactly the
/// saved ids, which `Favorites::load` turns into the set again.
pub proof fn law_saved_favorites_read_back(f: Favorites, t: Seq<char>)
    requires
        f.wf(),
        saved_text(f, t),
    ensures
        trim_spec(t).len() != 0,
        json_string_list(trim_spec(t)) matches Some(ids) && ids.to_set() == f@,
{
    f.lemma_saved_ids();
}

impl Favorites {
    /// The saved ids are exactly the set.
    proof fn lemma_saved_ids(&self)
        requires
            self.wf(),
        ensures
            self.id_list().to_set() == self@,
    {
    }
}

} // verus!
