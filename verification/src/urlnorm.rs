//! URL normalization.
//!
//! The cache keys its metadata by URL with the fragment removed: fragments
//! are client-side only, so URLs that differ only in their fragment name the
//! same resource.  Normalization here is exactly "drop the first `#` and
//! everything after it"; the rest of the URL is kept verbatim.

use vstd::prelude::*;

verus! {

/// Index of the first `#` in `s`, or `s.len()` if there is none.
pub open spec fn fragment_index(s: Seq<char>) -> int
    decreases s.len(),
{
    if s.len() == 0 {
        0
    } else if s[0] == '#' {
        0
    } else {
        1 + fragment_index(s.skip(1))
    }
}

/// The URL with its fragment (the first `#` and all that follows) removed.
pub open spec fn spec_strip_fragment(s: Seq<char>) -> Seq<char> {
    s.take(fragment_index(s))
}

/// `fragment_index` really is the position of the first `#`.
pub proof fn lemma_fragment_index_bounds(s: Seq<char>)
    ensures
        0 <= fragment_index(s) <= s.len(),
        forall|j: int| 0 <= j < fragment_index(s) ==> s[j] != '#',
        fragment_index(s) < s.len() ==> s[fragment_index(s)] == '#',
    decreases s.len(),
{
    if s.len() == 0 {
    } else if s[0] == '#' {
    } else {
        lemma_fragment_index_bounds(s.skip(1));
        assert forall|j: int| 0 <= j < fragment_index(s) implies s[j] != '#' by {
            if j > 0 {
                assert(s.skip(1)[j - 1] == s[j]);
            }
        }
        if fragment_index(s) < s.len() {
            assert(s.skip(1)[fragment_index(s) - 1] == s[fragment_index(s)]);
        }
    }
}

/// Any position that has no `#` before it and a `#` (or the end) at it
/// is the position `fragment_index` names.
pub proof fn lemma_fragment_index_unique(s: Seq<char>, i: int)
    requires
        0 <= i <= s.len(),
        forall|j: int| 0 <= j < i ==> s[j] != '#',
        i < s.len() ==> s[i] == '#',
    ensures
        fragment_index(s) == i,
    decreases s.len(),
{
    if s.len() == 0 {
    } else if s[0] == '#' {
        assert(i == 0);
    } else {
        assert(s[0] != '#');
        assert(i >= 1);
        assert forall|j: int| 0 <= j < i - 1 implies s.skip(1)[j] != '#' by {
            assert(s.skip(1)[j] == s[j + 1]);
        }
        if i - 1 < s.skip(1).len() {
            assert(s.skip(1)[i - 1] == s[i]);
        }
        lemma_fragment_index_unique(s.skip(1), i - 1);
    }
}

/// Remove the fragment (the first `#` and everything after it) from a URL.
pub fn strip_fragment(s: &str) -> (r: String)
    ensures
        r@ == spec_strip_fragment(s@),
{
    let len = s.unicode_len();
    let mut i: usize = 0;
    let mut seen_hash = false;
    while i < len && !seen_hash
        invariant
            0 <= i <= len,
            len == s@.len(),
            forall|j: int| 0 <= j < i ==> s@[j] != '#',
            seen_hash ==> i < len && s@[i as int] == '#',
        decreases len - i + (if seen_hash { 0int } else { 1int }),
    {
        if s.get_char(i) == '#' {
            seen_hash = true;
        } else {
            i += 1;
        }
    }
    proof {
        lemma_fragment_index_unique(s@, i as int);
    }
    let prefix = s.substring_char(0, i);
    String::from_str(prefix)
}

/// Stripping the fragment twice is the same as stripping it once.
pub proof fn lemma_strip_fragment_idempotent(s: Seq<char>)
    ensures
        spec_strip_fragment(spec_strip_fragment(s)) == spec_strip_fragment(s),
{
    lemma_fragment_index_bounds(s);
    let t = spec_strip_fragment(s);
    assert forall|j: int| 0 <= j < t.len() implies t[j] != '#' by {
        assert(t[j] == s[j]);
    }
    lemma_fragment_index_unique(t, t.len() as int);
    assert(spec_strip_fragment(t) =~= t);
}

/// URLs that differ only in their fragment normalize to the same key:
/// for a URL `u` with no `#` of its own, `u`, `u#a` and `u#b` all strip
/// to `u` itself, whatever the fragments `a` and `b` are.
pub proof fn lemma_fragment_equivalence(u: Seq<char>, frag: Seq<char>)
    requires
        forall|j: int| 0 <= j < u.len() ==> u[j] != '#',
    ensures
        spec_strip_fragment(u + seq!['#'] + frag) == u,
        spec_strip_fragment(u) == u,
{
    let full = u + seq!['#'] + frag;
    assert forall|j: int| 0 <= j < u.len() implies full[j] != '#' by {
        assert(full[j] == u[j]);
    }
    assert(full[u.len() as int] == '#');
    lemma_fragment_index_unique(full, u.len() as int);
    assert(spec_strip_fragment(full) =~= u);
    lemma_fragment_index_unique(u, u.len() as int);
    assert(spec_strip_fragment(u) =~= u);
}

} // verus!
