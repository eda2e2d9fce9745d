use vstd::prelude::*;
use vstd::string::*;

use crate::disk::{resolve, Resolution};

verus! {

/// What `std::path::Path::join` gives for `base` and `part`, read back as text.
pub uninterp spec fn joined_path(base: Seq<char>, part: Seq<char>) -> Seq<char>;

/// Joins `part` onto `base` with `std::path::Path::join` and renders the result
/// with `Path::display`. Claimed: the result is `joined_path(base@, part@)`, a
/// function of the two arguments alone (the platform's path rules are fixed
/// when the library is built). Both inputs are valid UTF-8, so the rendering
/// loses nothing.
#[verifier::external_body]
pub(crate) fn join_path(base: &str, part: &str) -> (res: String)
    ensures
        res@ == joined_path(base@, part@),
{
    std::path::Path::new(base).join(part).display().to_string()
}

/// `base` with every part of `parts` joined on, in order.
pub open spec fn join_all(base: Seq<char>, parts: Seq<Seq<char>>) -> Seq<char>
    decreases parts.len(),
{
    if parts.len() == 0 {
        base
    } else {
        joined_path(join_all(base, parts.drop_last()), parts.last())
    }
}

/// The views of a list of string slices.
pub open spec fn views(parts: Seq<&str>) -> Seq<Seq<char>> {
    parts.map_values(|p: &str| p@)
}

/// Joins every part of `parts` onto `base`, in order.
pub fn join_parts(base: &str, parts: &[&str]) -> (res: String)
    ensures
        res@ == join_all(base@, views(parts@)),
{
    let mut res = String::from_str(base);
    let mut i: usize = 0;
    while i < parts.len()
        invariant
            i <= parts@.len(),
            res@ == join_all(base@, views(parts@.take(i as int))),
        decreases parts@.len() - i,
    {
        let next = join_path(res.as_str(), parts[i]);
        proof {
            assert(views(parts@.take(i + 1)).drop_last() =~= views(parts@.take(i as int)));
        }
        res = next;
        i = i + 1;
    }
    assert(parts@.take(parts@.len() as int) =~= parts@);
    res
}

/// The prefix that Windows puts in front of a canonical ("verbatim") path.
pub open spec fn verbatim_prefix() -> Seq<char> {
    seq!['\\', '\\', '?', '\\']
}

/// Whether `s` starts with the verbatim prefix.
pub open spec fn has_verbatim_prefix(s: Seq<char>) -> bool {
    s.len() >= 4 && s.take(4) == verbatim_prefix()
}

/// `s` with every leading repetition of the verbatim prefix removed.
pub open spec fn strip_verbatim(s: Seq<char>) -> Seq<char>
    decreases s.len(),
{
    if has_verbatim_prefix(s) {
        strip_verbatim(s.skip(4))
    } else {
        s
    }
}

/// What remains of a stripped path never starts with the verbatim prefix.
pub proof fn lemma_strip_verbatim_clean(s: Seq<char>)
    ensures
        !has_verbatim_prefix(strip_verbatim(s)),
    decreases s.len(),
{
    if has_verbatim_prefix(s) {
        lemma_strip_verbatim_clean(s.skip(4));
    }
}

/// Stripping twice strips no more than stripping once.
pub proof fn lemma_strip_verbatim_idempotent(s: Seq<char>)
    ensures
        strip_verbatim(strip_verbatim(s)) == strip_verbatim(s),
{
    lemma_strip_verbatim_clean(s);
}

/// A verbatim prefix in front of a path changes nothing in what is shown.
pub proof fn lemma_strip_verbatim_prefixed(s: Seq<char>)
    ensures
        strip_verbatim(verbatim_prefix() + s) == strip_verbatim(s),
{
    let t = verbatim_prefix() + s;
    assert(t.take(4) =~= verbatim_prefix());
    assert(t.skip(4) =~= s);
}

/// Whether the characters of `s` from position `i` on start with the verbatim prefix.
fn verbatim_at(s: &str, n: usize, i: usize) -> (res: bool)
    requires
        n == s@.len(),
        i <= n,
    ensures
        res == has_verbatim_prefix(s@.skip(i as int)),
{
    if n - i < 4 {
        return false;
    }
    let t = Ghost(s@.skip(i as int));
    let a = s.get_char(i);
    let b = s.get_char(i + 1);
    let c = s.get_char(i + 2);
    let d = s.get_char(i + 3);
    proof {
        assert(t@.take(4)[0] == a);
        assert(t@.take(4)[1] == b);
        assert(t@.take(4)[2] == c);
        assert(t@.take(4)[3] == d);
        if a == '\\' && b == '\\' && c == '?' && d == '\\' {
            assert(t@.take(4) =~= verbatim_prefix());
        }
    }
    a == '\\' && b == '\\' && c == '?' && d == '\\'
}

/// Removes every leading `\\?\` from `s`, as `str::trim_start_matches` does.
pub fn trim_verbatim_prefix(s: &str) -> (res: String)
    ensures
        res@ == strip_verbatim(s@),
{
    let n = s.unicode_len();
    let mut i: usize = 0;
    assert(s@.skip(0) =~= s@);
    while verbatim_at(s, n, i)
        invariant
            n == s@.len(),
            i <= n,
            strip_verbatim(s@) == strip_verbatim(s@.skip(i as int)),
        decreases n - i,
    {
        proof {
            let t = s@.skip(i as int);
            assert(t.skip(4) =~= s@.skip(i + 4));
        }
        i = i + 4;
    }
    let rest = s.substring_char(i, n);
    assert(rest@ =~= s@.skip(i as int));
    String::from_str(rest)
}

/// The resolved form where there is one, else the path as given.
pub open spec fn shown_text(path: Seq<char>, resolved: Option<String>) -> Seq<char> {
    match resolved {
        Some(r) => r@,
        None => path,
    }
}

/// The text shown for `path`: the canonical form where the file system gave
/// one (`resolved`), else `path` itself, without any verbatim prefix.
pub fn canonical_display(path: &str, resolved: &Option<String>) -> (res: String)
    ensures
        res@ == strip_verbatim(shown_text(path@, *resolved)),
{
    match resolved {
        Some(r) => trim_verbatim_prefix(r.as_str()),
        None => trim_verbatim_prefix(path),
    }
}

/// A path as shown in messages, with the look-up of its canonical form.
pub struct Canonical {
    lookup: Resolution,
    text: String,
}

impl Canonical {
    /// The path the file system was asked to resolve.
    pub closed spec fn asked(&self) -> Seq<char> {
        self.lookup.asked()
    }

    /// The canonical form the file system gave, if it gave one.
    pub closed spec fn resolution(&self) -> Option<String> {
        self.lookup.answer()
    }

    /// The text shown.
    pub closed spec fn shown(&self) -> Seq<char> {
        self.text@
    }

    /// The canonical form the file system gave, if it gave one.
    pub fn resolved(&self) -> (res: &Option<String>)
        ensures
            *res == self.resolution(),
    {
        self.lookup.resolved()
    }

    /// The text shown.
    pub fn text(&self) -> (res: &str)
        ensures
            res@ == self.shown(),
    {
        self.text.as_str()
    }
}

/// Asks the file system for the canonical form of `path` and renders it for
/// messages, without the verbatim prefix; where it cannot be resolved, `path`
/// itself is used. The file system decides the resolution; the text is
/// decided from its answer.
pub fn canonicalize(path: &str) -> (res: Canonical)
    ensures
        res.asked() == path@,
        res.shown() == strip_verbatim(shown_text(path@, res.resolution())),
        !has_verbatim_prefix(res.shown()),
{
    let lookup = resolve(path);
    let text = canonical_display(path, lookup.resolved());
    proof {
        lemma_strip_verbatim_clean(shown_text(path@, lookup.answer()));
    }
    Canonical { lookup, text }
}

} // verus!
