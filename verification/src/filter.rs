//! The mathematical model of filtering and of the accepted result: ordered
//! index sequences selected by a predicate, and facts about them.

use vstd::prelude::*;
use crate::text::contains_sub;

verus! {

/// A sequence of integers is strictly ascending.
pub open spec fn strictly_increasing(s: Seq<int>) -> bool {
    forall|a: int, b: int| 0 <= a < b < s.len() ==> s[a] < s[b]
}

/// A sequence of item indices as mathematical integers.
pub open spec fn as_ints(s: Seq<usize>) -> Seq<int> {
    s.map_values(|x: usize| x as int)
}

/// The indices `j < n` whose label contains `pat`, in ascending order.
pub open spec fn matching_upto(labels: Seq<Seq<char>>, pat: Seq<char>, n: int) -> Seq<int>
    decreases n,
{
    if n <= 0 {
        Seq::empty()
    } else {
        let prev = matching_upto(labels, pat, n - 1);
        if contains_sub(labels[n - 1], pat) {
            prev.push(n - 1)
        } else {
            prev
        }
    }
}

/// The filtered index set: every item index whose label contains the search
/// pattern as a substring, in ascending order.
pub open spec fn matching_indices(labels: Seq<Seq<char>>, pat: Seq<char>) -> Seq<int> {
    matching_upto(labels, pat, labels.len() as int)
}

/// The indices `j < n` with `flags[j]`, in ascending order.
pub open spec fn true_upto(flags: Seq<bool>, n: int) -> Seq<int>
    decreases n,
{
    if n <= 0 {
        Seq::empty()
    } else {
        let prev = true_upto(flags, n - 1);
        if flags[n - 1] {
            prev.push(n - 1)
        } else {
            prev
        }
    }
}

/// The accepted result: every checked item index, in ascending order.
pub open spec fn checked_indices(flags: Seq<bool>) -> Seq<int> {
    true_upto(flags, flags.len() as int)
}

/// Every element of `matching_upto` lies in `[0, n)`, the sequence is
/// strictly ascending, and it holds exactly the matching indices below `n`.
pub proof fn lemma_matching_upto(labels: Seq<Seq<char>>, pat: Seq<char>, n: int)
    ensures
        matching_upto(labels, pat, n).len() <= if n <= 0 { 0int } else { n },
        forall|k: int| 0 <= k < matching_upto(labels, pat, n).len()
            ==> 0 <= #[trigger] matching_upto(labels, pat, n)[k] < n,
        strictly_increasing(matching_upto(labels, pat, n)),
        forall|j: int| matching_upto(labels, pat, n).contains(j)
            <==> 0 <= j < n && contains_sub(labels[j], pat),
    decreases n,
{
    if n > 0 {
        lemma_matching_upto(labels, pat, n - 1);
        let prev = matching_upto(labels, pat, n - 1);
        let cur = matching_upto(labels, pat, n);
        if contains_sub(labels[n - 1], pat) {
            assert(forall|j: int| prev.contains(j) ==> cur.contains(j)) by {
                assert(forall|k: int| 0 <= k < prev.len() ==> cur[k] == prev[k]);
            }
            assert(cur.contains(n - 1)) by {
                assert(cur[cur.len() - 1] == n - 1);
            }
            assert(forall|j: int| cur.contains(j) ==> prev.contains(j) || j == n - 1);
        }
    }
}

/// The same facts for `true_upto`.
pub proof fn lemma_true_upto(flags: Seq<bool>, n: int)
    ensures
        true_upto(flags, n).len() <= if n <= 0 { 0int } else { n },
        forall|k: int| 0 <= k < true_upto(flags, n).len()
            ==> 0 <= #[trigger] true_upto(flags, n)[k] < n,
        strictly_increasing(true_upto(flags, n)),
        forall|j: int| true_upto(flags, n).contains(j) <==> 0 <= j < n && flags[j],
    decreases n,
{
    if n > 0 {
        lemma_true_upto(flags, n - 1);
        let prev = true_upto(flags, n - 1);
        let cur = true_upto(flags, n);
        if flags[n - 1] {
            assert(forall|j: int| prev.contains(j) ==> cur.contains(j)) by {
                assert(forall|k: int| 0 <= k < prev.len() ==> cur[k] == prev[k]);
            }
            assert(cur.contains(n - 1)) by {
                assert(cur[cur.len() - 1] == n - 1);
            }
            assert(forall|j: int| cur.contains(j) ==> prev.contains(j) || j == n - 1);
        }
    }
}

/// In a strictly ascending sequence an element determines its position:
/// `index_of` returns the one index where it stands.
pub proof fn lemma_increasing_index_of(s: Seq<int>, p: int)
    requires
        strictly_increasing(s),
        0 <= p < s.len(),
    ensures
        s.contains(s[p]),
        s.index_of(s[p]) == p,
{
    assert(s.contains(s[p]));
    let q = s.index_of(s[p]);
    assert(0 <= q < s.len() && s[q] == s[p]);
    if q < p {
        assert(s[q] < s[p]);
    }
    if p < q {
        assert(s[p] < s[q]);
    }
}

} // verus!
