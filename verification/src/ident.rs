use vstd::prelude::*;
use vstd::string::*;

verus! {

/// A character that may start a Rust identifier in ASCII: a letter or `_`.
pub open spec fn is_ident_start(c: char) -> bool {
    ('a' <= c && c <= 'z') || ('A' <= c && c <= 'Z') || c == '_'
}

/// A character that may follow in an ASCII Rust identifier: a letter, a digit or `_`.
pub open spec fn is_ident_continue(c: char) -> bool {
    is_ident_start(c) || ('0' <= c && c <= '9')
}

/// `s` is a non-empty ASCII identifier: it starts with a letter or `_` and
/// every later character is a letter, a digit or `_`.
pub open spec fn is_ident(s: Seq<char>) -> bool {
    &&& s.len() > 0
    &&& is_ident_start(s[0])
    &&& forall|i: int| 1 <= i < s.len() ==> #[trigger] is_ident_continue(s[i])
}

/// Whether `s` may be used as a project (addon) name: the rules of an ASCII
/// Rust identifier.
pub fn is_ascii_rust_ident(s: &str) -> (res: bool)
    ensures
        res == is_ident(s@),
{
    let n = s.unicode_len();
    if n == 0 {
        return false;
    }
    let first = s.get_char(0);
    if !(('a' <= first && first <= 'z') || ('A' <= first && first <= 'Z') || first == '_') {
        return false;
    }
    let mut i: usize = 1;
    while i < n
        invariant
            n == s@.len(),
            1 <= i <= n,
            is_ident_start(s@[0]),
            forall|j: int| 1 <= j < i ==> #[trigger] is_ident_continue(s@[j]),
        decreases n - i,
    {
        let c = s.get_char(i);
        if !(('a' <= c && c <= 'z') || ('A' <= c && c <= 'Z') || c == '_' || ('0' <= c && c <= '9')) {
            assert(!is_ident_continue(s@[i as int]));
            return false;
        }
        i = i + 1;
    }
    true
}

/// The characters a project name is made of: ASCII letters of either case,
/// digits and `_`.
pub open spec fn is_name_char(c: char) -> bool {
    ('a' <= c && c <= 'z') || ('A' <= c && c <= 'Z') || ('0' <= c && c <= '9') || c == '_'
}

/// A single ASCII letter of either case, or `_`, is a valid name.
pub proof fn lemma_ident_single(c: char)
    requires
        ('a' <= c && c <= 'z') || ('A' <= c && c <= 'Z') || c == '_',
    ensures
        is_ident(seq![c]),
{
}

/// Appending an ASCII letter of either case, a digit or `_` to a valid name
/// keeps it valid; in particular an upper-case letter after the first
/// position never makes a name invalid.
pub proof fn lemma_ident_extend(s: Seq<char>, c: char)
    requires
        is_ident(s),
        is_name_char(c),
    ensures
        is_ident(s.push(c)),
{
    let t = s.push(c);
    assert forall|i: int| 1 <= i < t.len() implies #[trigger] is_ident_continue(t[i]) by {
        if i < s.len() {
            assert(t[i] == s[i]);
        }
    }
}

/// A valid name is made of letters, digits and `_` only, and does not start
/// with a digit.
pub proof fn lemma_ident_chars(s: Seq<char>, i: int)
    requires
        is_ident(s),
        0 <= i < s.len(),
    ensures
        is_name_char(s[i]),
        i == 0 ==> !('0' <= s[i] && s[i] <= '9'),
{
    if i > 0 {
        assert(is_ident_continue(s[i]));
    }
}

/// A name is valid exactly when it is non-empty, its first character is an
/// ASCII letter or `_`, and every character is an ASCII letter, a digit or `_`.
pub proof fn lemma_ident_iff(s: Seq<char>)
    ensures
        is_ident(s) <==> (s.len() > 0 && (('a' <= s[0] && s[0] <= 'z') || ('A' <= s[0] && s[0]
            <= 'Z') || s[0] == '_') && forall|i: int| 0 <= i < s.len() ==> #[trigger] is_name_char(s[i])),
{
    if is_ident(s) {
        assert forall|i: int| 0 <= i < s.len() implies #[trigger] is_name_char(s[i]) by {
            lemma_ident_chars(s, i);
        }
    }
    if s.len() > 0 && (('a' <= s[0] && s[0] <= 'z') || ('A' <= s[0] && s[0] <= 'Z') || s[0] == '_')
        && forall|i: int| 0 <= i < s.len() ==> #[trigger] is_name_char(s[i]) {
        assert forall|i: int| 1 <= i < s.len() implies #[trigger] is_ident_continue(s[i]) by {
            assert(is_name_char(s[i]));
        }
    }
}

} // verus!
