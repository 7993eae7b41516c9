//! Bounded binary search over a sequence of cumulative offsets.

use vstd::prelude::*;

verus! {

/// Whether `s` never decreases from one entry to the next.
pub open spec fn is_sorted(s: Seq<u128>) -> bool {
    forall|i: int, j: int| 0 <= i <= j < s.len() ==> s[i] <= s[j]
}

/// The number of entries of `s` that are strictly below `x`.
pub open spec fn count_below(s: Seq<u128>, x: int) -> nat
    decreases s.len(),
{
    if s.len() == 0 {
        0
    } else {
        let rest = count_below(s.drop_last(), x);
        if s.last() < x {
            rest + 1
        } else {
            rest
        }
    }
}

/// No more entries are below `x` than there are entries.
pub proof fn lemma_count_below_bound(s: Seq<u128>, x: int)
    ensures
        count_below(s, x) <= s.len(),
    decreases s.len(),
{
    if s.len() > 0 {
        lemma_count_below_bound(s.drop_last(), x);
    }
}

/// In a sorted sequence, the number of entries below `x` splits the
/// sequence: the entries before that position are below `x`, the entries
/// from it on are not.
pub proof fn lemma_count_below_splits(s: Seq<u128>, x: int)
    requires
        is_sorted(s),
    ensures
        count_below(s, x) <= s.len(),
        forall|j: int| 0 <= j < count_below(s, x) ==> s[j] < x,
        forall|j: int| count_below(s, x) <= j < s.len() ==> s[j] >= x,
    decreases s.len(),
{
    if s.len() > 0 {
        let t = s.drop_last();
        lemma_count_below_splits(t, x);
        let p = count_below(t, x);
        assert forall|j: int| 0 <= j < t.len() implies t[j] == s[j] by {}
        if s.last() < x {
            if p < t.len() {
                assert(t[p as int] >= x);
                assert(s[p as int] <= s[s.len() - 1]);
            }
            assert forall|j: int| 0 <= j < count_below(s, x) implies s[j] < x by {
                assert(s[j] <= s[s.len() - 1]);
            }
        } else {
            assert forall|j: int| 0 <= j < count_below(s, x) implies s[j] < x by {
                assert(t[j] < x);
            }
            assert forall|j: int| count_below(s, x) <= j < s.len() implies s[j] >= x by {
                if j < t.len() {
                    assert(t[j] >= x);
                }
            }
        }
    }
}

/// In a sorted sequence, a position that separates the entries below `x`
/// from the entries at or above `x` is the number of entries below `x`.
pub proof fn lemma_boundary_is_count_below(s: Seq<u128>, x: int, p: int)
    requires
        is_sorted(s),
        0 <= p <= s.len(),
        p > 0 ==> s[p - 1] < x,
        p < s.len() ==> s[p] >= x,
    ensures
        count_below(s, x) == p,
    decreases s.len(),
{
    if s.len() > 0 {
        let t = s.drop_last();
        if p == s.len() {
            lemma_boundary_is_count_below(t, x, p - 1);
        } else {
            lemma_boundary_is_count_below(t, x, p);
        }
    }
}

/// Finds where `x` belongs in `arr` by halving the candidate interval.
///
/// The returned position always sits between an entry below `x` (if any
/// precedes it) and an entry at or above `x` (if any follows it). When `arr`
/// is sorted this is the leftmost insertion point for `x`: the number of
/// entries strictly below `x`, which is also the index of the first match
/// when `x` occurs in `arr`.
pub fn binary_search_sorted(arr: &[u128], x: u128) -> (pos: usize)
    ensures
        pos <= arr@.len(),
        pos > 0 ==> arr@[pos - 1] < x,
        pos < arr@.len() ==> arr@[pos as int] >= x,
        is_sorted(arr@) ==> pos == count_below(arr@, x as int),
{
    let mut lo: usize = 0;
    let mut hi: usize = arr.len();
    while lo < hi
        invariant
            lo <= hi <= arr@.len(),
            lo > 0 ==> arr@[lo - 1] < x,
            hi < arr@.len() ==> arr@[hi as int] >= x,
        decreases hi - lo,
    {
        let mid: usize = lo + (hi - lo) / 2;
        if arr[mid] < x {
            lo = mid + 1;
        } else {
            hi = mid;
        }
    }
    proof {
        if is_sorted(arr@) {
            lemma_boundary_is_count_below(arr@, x as int, lo as int);
        }
    }
    lo
}

} // verus!
