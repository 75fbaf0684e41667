use vstd::prelude::*;

verus! {

/// `p` occurs in `s` starting at position `i`.
pub open spec fn matches_at(p: Seq<char>, s: Seq<char>, i: int) -> bool {
    0 <= i && i + p.len() <= s.len() && s.subrange(i, i + p.len()) == p
}

/// `p` occurs somewhere in `s` as a contiguous run of characters.
/// The empty sequence is a substring of every sequence.
pub open spec fn is_substring_of(p: Seq<char>, s: Seq<char>) -> bool {
    exists|i: int| matches_at(p, s, i)
}

/// Every sequence contains itself (at position 0).
pub proof fn lemma_substring_self(s: Seq<char>)
    ensures
        is_substring_of(s, s),
{
    assert(s.subrange(0, s.len() as int) =~= s);
    assert(matches_at(s, s, 0));
}

/// Every sequence contains the empty sequence.
pub proof fn lemma_empty_substring(s: Seq<char>)
    ensures
        is_substring_of(Seq::<char>::empty(), s),
{
    assert(s.subrange(0, 0) =~= Seq::<char>::empty());
    assert(matches_at(Seq::<char>::empty(), s, 0));
}

/// Substring search: decides whether `pattern` occurs in `text`,
/// comparing character by character.
pub fn contains_pattern(text: &str, pattern: &str) -> (r: bool)
    ensures
        r == is_substring_of(pattern@, text@),
{
    let n: usize = text.unicode_len();
    let m: usize = pattern.unicode_len();
    if m == 0 {
        proof {
            assert(text@.subrange(0, 0) =~= pattern@);
            assert(matches_at(pattern@, text@, 0));
        }
        return true;
    }
    if m > n {
        proof {
            assert(forall|k: int| !matches_at(pattern@, text@, k));
        }
        return false;
    }
    let limit: usize = n - m;
    let mut i: usize = 0;
    while i <= limit
        invariant
            1 <= m <= n,
            limit == n - m,
            i <= limit + 1,
            n == text@.len(),
            m == pattern@.len(),
            forall|k: int| 0 <= k < i ==> !matches_at(pattern@, text@, k),
        decreases limit + 1 - i,
    {
        let mut j: usize = 0;
        let mut mismatch = false;
        while j < m
            invariant
                i <= limit,
                limit == n - m,
                m <= n,
                n == text@.len(),
                m == pattern@.len(),
                j <= m,
                !mismatch ==> forall|t: int| 0 <= t < j ==> text@[i + t] == pattern@[t],
                mismatch ==> !matches_at(pattern@, text@, i as int),
            decreases m - j,
        {
            if text.get_char(i + j) != pattern.get_char(j) {
                proof {
                    assert(text@.subrange(i as int, i + m)[j as int] == text@[i + j]);
                }
                mismatch = true;
                j = m;
            } else {
                j = j + 1;
            }
        }
        if !mismatch {
            proof {
                assert(text@.subrange(i as int, i + m) =~= pattern@);
                assert(matches_at(pattern@, text@, i as int));
            }
            return true;
        }
        i = i + 1;
    }
    proof {
        assert(forall|k: int| i <= k ==> !matches_at(pattern@, text@, k));
    }
    false
}

} // verus!
