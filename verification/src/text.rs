//! Verified text utilities: character-exact equality and substring search
//! over string slices, the two operations the classifiers are built on.

use vstd::prelude::*;

verus! {

use vstd::string::StrSliceExecFns;

/// `needle` occurs in `hay` starting at character position `i`.
pub open spec fn occurs_at(hay: Seq<char>, needle: Seq<char>, i: int) -> bool {
    0 <= i && i + needle.len() <= hay.len() && hay.subrange(i, i + needle.len() as int) == needle
}

/// `needle` occurs somewhere in `hay`.
pub open spec fn has_substring(hay: Seq<char>, needle: Seq<char>) -> bool {
    exists|i: int| occurs_at(hay, needle, i)
}

/// Character-for-character, case-sensitive equality of two string slices.
pub fn str_eq(a: &str, b: &str) -> (equal: bool)
    ensures
        equal == (a@ == b@),
{
    let a_len = a.unicode_len();
    let b_len = b.unicode_len();
    if a_len != b_len {
        return false;
    }
    let mut i: usize = 0;
    while i < a_len
        invariant
            i <= a_len,
            a_len as nat == a@.len(),
            b_len as nat == b@.len(),
            a_len == b_len,
            forall|k: int| 0 <= k < i ==> a@[k] == b@[k],
        decreases a_len - i,
    {
        if a.get_char(i) != b.get_char(i) {
            return false;
        }
        i = i + 1;
    }
    proof {
        assert(a@ =~= b@);
    }
    true
}

/// Does `needle` occur in `hay` at character position `start`?
fn occurs_here(hay: &str, needle: &str, start: usize) -> (occurs: bool)
    requires
        hay@.len() <= usize::MAX,
        start + needle@.len() <= hay@.len(),
    ensures
        occurs == occurs_at(hay@, needle@, start as int),
{
    let needle_len = needle.unicode_len();
    let mut j: usize = 0;
    while j < needle_len
        invariant
            j <= needle_len,
            needle_len as nat == needle@.len(),
            hay@.len() <= usize::MAX,
            start + needle_len as nat <= hay@.len(),
            forall|l: int| 0 <= l < j ==> hay@[start + l] == needle@[l],
        decreases needle_len - j,
    {
        if hay.get_char(start + j) != needle.get_char(j) {
            proof {
                assert(hay@.subrange(start as int, start + needle@.len() as int)[j as int]
                    == hay@[start + j]);
            }
            return false;
        }
        j = j + 1;
    }
    proof {
        assert(hay@.subrange(start as int, start + needle@.len() as int) =~= needle@);
    }
    true
}

/// Substring search: whether `hay` contains `needle`, by characters,
/// case-sensitively. An empty `needle` is contained in every `hay`.
pub fn str_contains(hay: &str, needle: &str) -> (found: bool)
    ensures
        found == has_substring(hay@, needle@),
{
    let hay_len = hay.unicode_len();
    let needle_len = needle.unicode_len();
    if needle_len > hay_len {
        proof {
            assert forall|i: int| !occurs_at(hay@, needle@, i) by {}
        }
        return false;
    }
    let mut i: usize = 0;
    while i <= hay_len - needle_len
        invariant
            needle_len <= hay_len,
            hay_len as nat == hay@.len(),
            needle_len as nat == needle@.len(),
            i <= hay_len - needle_len + 1,
            forall|k: int| 0 <= k < i ==> !occurs_at(hay@, needle@, k),
        decreases hay_len - needle_len - i + 1,
    {
        if occurs_here(hay, needle, i) {
            proof {
                assert(occurs_at(hay@, needle@, i as int));
            }
            return true;
        }
        proof {
            // An empty needle would have matched just now, so here the
            // needle is non-empty and the increment cannot overflow.
            if needle_len == 0 {
                assert(hay@.subrange(i as int, i as int) =~= needle@);
            }
        }
        i = i + 1;
    }
    proof {
        assert forall|k: int| !occurs_at(hay@, needle@, k) by {
            if 0 <= k < i {
            } else if k >= i {
                assert(k + needle@.len() > hay@.len());
            }
        }
    }
    false
}

} // verus!
