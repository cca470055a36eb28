//! Verified helpers on strings: equality, an ASCII trim, and the test for the
//! engine's reserved non-speech token marker.

use vstd::prelude::*;

verus! {

/// ASCII whitespace, the characters stripped by [`trim_ascii`].
pub open spec fn spec_is_ws(c: char) -> bool {
    c == ' ' || c == '\t' || c == '\n' || c == '\r'
}

/// `s` with leading ASCII whitespace removed.
pub open spec fn spec_trim_front(s: Seq<char>) -> Seq<char>
    decreases s.len(),
{
    if s.len() > 0 && spec_is_ws(s[0]) {
        spec_trim_front(s.drop_first())
    } else {
        s
    }
}

/// `s` with trailing ASCII whitespace removed.
pub open spec fn spec_trim_back(s: Seq<char>) -> Seq<char>
    decreases s.len(),
{
    if s.len() > 0 && spec_is_ws(s[s.len() - 1]) {
        spec_trim_back(s.drop_last())
    } else {
        s
    }
}

/// `s` with both leading and trailing ASCII whitespace removed.
pub open spec fn spec_trim(s: Seq<char>) -> Seq<char> {
    spec_trim_back(spec_trim_front(s))
}

/// Token text the engine marks as non-speech: it begins with `[_`.
pub open spec fn spec_is_marker(s: Seq<char>) -> bool {
    s.len() >= 2 && s[0] == '[' && s[1] == '_'
}

/// Character-wise string equality.
pub fn str_eq(a: &str, b: &str) -> (r: bool)
    ensures
        r == (a@ == b@),
{
    let alen = a.unicode_len();
    let blen = b.unicode_len();
    if alen != blen {
        return false;
    }
    let mut i: usize = 0;
    while i < alen
        invariant
            i <= alen,
            alen == a@.len(),
            blen == b@.len(),
            alen == blen,
            forall|j: int| 0 <= j < i ==> a@[j] == b@[j],
        decreases alen - i,
    {
        if a.get_char(i) != b.get_char(i) {
            return false;
        }
        i = i + 1;
    }
    proof {
        assert(a@ =~= b@);
    }
    true
}

/// Whether `s` begins with the engine's reserved `[_` marker.
pub fn has_marker_prefix(s: &str) -> (r: bool)
    ensures
        r == spec_is_marker(s@),
{
    let n = s.unicode_len();
    if n < 2 {
        return false;
    }
    s.get_char(0) == '[' && s.get_char(1) == '_'
}

fn is_ws_char(c: char) -> (r: bool)
    ensures
        r == spec_is_ws(c),
{
    c == ' ' || c == '\t' || c == '\n' || c == '\r'
}

proof fn lemma_trim_front_is_suffix(s: Seq<char>, i: int)
    requires
        0 <= i <= s.len(),
        forall|j: int| 0 <= j < i ==> spec_is_ws(s[j]),
        i < s.len() ==> !spec_is_ws(s[i]),
    ensures
        spec_trim_front(s) == s.subrange(i, s.len() as int),
    decreases s.len(),
{
    if i == 0 {
        if s.len() == 0 || !spec_is_ws(s[0]) {
            assert(s.subrange(0, s.len() as int) =~= s);
        }
    } else {
        let d = s.drop_first();
        lemma_trim_front_is_suffix(d, i - 1);
        assert(d.subrange(i - 1, d.len() as int) =~= s.subrange(i, s.len() as int));
    }
}

proof fn lemma_trim_back_is_prefix(s: Seq<char>, j: int)
    requires
        0 <= j <= s.len(),
        forall|k: int| j <= k < s.len() ==> spec_is_ws(s[k]),
        j > 0 ==> !spec_is_ws(s[j - 1]),
    ensures
        spec_trim_back(s) == s.subrange(0, j),
    decreases s.len(),
{
    if j == s.len() {
        if s.len() == 0 || !spec_is_ws(s[s.len() - 1]) {
            assert(s.subrange(0, s.len() as int) =~= s);
        } else {
            assert(!spec_is_ws(s[j - 1]));
        }
    } else {
        let d = s.drop_last();
        lemma_trim_back_is_prefix(d, j);
        assert(d.subrange(0, j) =~= s.subrange(0, j));
    }
}

/// `s` with leading and trailing ASCII whitespace (space, tab, newline,
/// carriage return) removed.
pub fn trim_ascii<'a>(s: &'a str) -> (r: &'a str)
    ensures
        r@ == spec_trim(s@),
{
    let n = s.unicode_len();
    let mut i: usize = 0;
    loop
        invariant
            i <= n,
            n == s@.len(),
            forall|j: int| 0 <= j < i ==> spec_is_ws(s@[j]),
        ensures
            i <= n,
            n == s@.len(),
            forall|j: int| 0 <= j < i ==> spec_is_ws(s@[j]),
            i < n ==> !spec_is_ws(s@[i as int]),
        decreases n - i,
    {
        if i >= n {
            break;
        }
        if !is_ws_char(s.get_char(i)) {
            break;
        }
        i = i + 1;
    }
    if i == n {
        proof {
            reveal_strlit("");
            lemma_trim_front_is_suffix(s@, n as int);
            lemma_trim_back_is_prefix(s@.subrange(n as int, n as int), 0);
            assert(spec_trim(s@) =~= ""@);
        }
        return "";
    }
    let mut j: usize = n;
    loop
        invariant
            i < j <= n,
            n == s@.len(),
            !spec_is_ws(s@[i as int]),
            forall|k: int| j <= k < n ==> spec_is_ws(s@[k]),
        ensures
            i < j <= n,
            n == s@.len(),
            forall|k: int| j <= k < n ==> spec_is_ws(s@[k]),
            !spec_is_ws(s@[j - 1]),
        decreases j,
    {
        if !is_ws_char(s.get_char(j - 1)) {
            break;
        }
        j = j - 1;
    }
    let r = s.substring_char(i, j);
    proof {
        lemma_trim_front_is_suffix(s@, i as int);
        let t = s@.subrange(i as int, n as int);
        lemma_trim_back_is_prefix(t, j - i);
        assert(t.subrange(0, j - i) =~= s@.subrange(i as int, j as int));
    }
    r
}

} // verus!
