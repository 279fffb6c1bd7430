//! Case-sensitive substring matching over strings, the primitive behind the
//! keyword-driven response table.

use vstd::prelude::*;

verus! {

/// The marker `m` occurs in `s` starting at character position `i`.
pub open spec fn is_match_at(s: Seq<char>, m: Seq<char>, i: int) -> bool {
    0 <= i && i + m.len() <= s.len() && s.subrange(i, i + m.len() as int) == m
}

/// The marker `m` occurs somewhere in `s` (case-sensitive).
pub open spec fn contains_seq(s: Seq<char>, m: Seq<char>) -> bool {
    exists|i: int| is_match_at(s, m, i)
}

/// Whether `marker` occurs in `text` starting at character position `i`.
fn match_at(text: &str, marker: &str, i: usize, m: usize) -> (r: bool)
    requires
        m == marker@.len(),
        i + m <= text@.len(),
        i + m <= usize::MAX,
    ensures
        r == is_match_at(text@, marker@, i as int),
{
    let mut j: usize = 0;
    while j < m
        invariant
            j <= m,
            m == marker@.len(),
            i + m <= text@.len(),
            i + m <= usize::MAX,
            forall|t: int| 0 <= t < j ==> text@[i + t] == marker@[t],
        decreases m - j,
    {
        if text.get_char(i + j) != marker.get_char(j) {
            proof {
                assert(!is_match_at(text@, marker@, i as int)) by {
                    if text@.subrange(i as int, i + m as int) == marker@ {
                        assert(text@.subrange(i as int, i + m as int)[j as int] == text@[i + j]);
                    }
                }
            }
            return false;
        }
        j += 1;
    }
    proof {
        assert(text@.subrange(i as int, i + m as int) =~= marker@);
    }
    true
}

/// Whether `text` contains `marker` as a (case-sensitive) substring.
pub fn contains_marker(text: &str, marker: &str) -> (r: bool)
    ensures
        r == contains_seq(text@, marker@),
{
    let n = text.unicode_len();
    let m = marker.unicode_len();
    if m == 0 {
        proof {
            assert(text@.subrange(0, 0) =~= marker@);
            assert(is_match_at(text@, marker@, 0));
        }
        return true;
    }
    if m > n {
        proof {
            assert(forall|i: int| !is_match_at(text@, marker@, i));
        }
        return false;
    }
    let mut i: usize = 0;
    while i <= n - m
        invariant
            1 <= m <= n,
            n == text@.len(),
            m == marker@.len(),
            i <= n - m + 1,
            forall|k: int| 0 <= k < i ==> !is_match_at(text@, marker@, k),
        decreases n - m + 1 - i,
    {
        if match_at(text, marker, i, m) {
            return true;
        }
        i += 1;
    }
    proof {
        assert forall|k: int| !is_match_at(text@, marker@, k) by {
            if 0 <= k < i {
                assert(!is_match_at(text@, marker@, k));
            }
        }
    }
    false
}

} // verus!
