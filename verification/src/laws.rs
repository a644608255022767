//! Laws of the widget as a whole, stated over the same spec functions its
//! operations' contracts use, and proved once and for all.

use vstd::prelude::*;
use crate::filter::{checked_indices, lemma_increasing_index_of, lemma_matching_upto,
    lemma_true_upto, strictly_increasing};
use crate::keys::{next_down, toggled};
use crate::state::SelectState;
use crate::text::contains_sub;

verus! {

/// Law: once the filtered set is up to date, it holds exactly the indices
/// whose label contains the current search string as a substring, in
/// ascending order — however the search string came about.
pub proof fn lemma_filter_exact(s: SelectState)
    requires
        s.wf(),
        !s.dirty,
    ensures
        forall|j: int| s.filter_view().contains(j) <==> 0 <= j < s.labels_view().len()
            && contains_sub(s.labels_view()[j], s.search@),
        strictly_increasing(s.filter_view()),
{
    lemma_matching_upto(s.labels_view(), s.search@, s.labels_view().len() as int);
}

/// Law: while the filtered set is up to date and non-empty, the cursor rests
/// on one of its members — never on a hidden row.
pub proof fn lemma_cursor_on_member(s: SelectState)
    requires
        s.wf(),
        !s.dirty,
        s.filter@.len() > 0,
    ensures
        s.cursor is Some,
        s.filter_view().contains(s.cursor_val()),
{
}

/// The cursor after pressing the down key `n` times over the filtered set
/// `f`, starting from item index `cur`.
pub open spec fn down_n(f: Seq<int>, cur: int, n: nat) -> int
    decreases n,
{
    if n == 0 {
        cur
    } else {
        next_down(f, down_n(f, cur, (n - 1) as nat))
    }
}

proof fn lemma_down_n_shift(f: Seq<int>, p: int, k: nat)
    requires
        strictly_increasing(f),
        f.len() > 0,
        0 <= p < f.len(),
        k <= f.len(),
    ensures
        down_n(f, f[p], k) == if p + k < f.len() {
            f[p + k]
        } else {
            f[p + k - f.len()]
        },
    decreases k,
{
    if k > 0 {
        lemma_down_n_shift(f, p, (k - 1) as nat);
        let q = if p + k - 1 < f.len() {
            p + k - 1
        } else {
            p + k - 1 - f.len()
        };
        assert(down_n(f, f[p], (k - 1) as nat) == f[q]);
        lemma_increasing_index_of(f, q);
    }
}

/// Law: with a non-empty filtered set, pressing the down key once per member
/// of the filtered set walks the whole set circularly and brings the cursor
/// back to the member it started on.
pub proof fn lemma_cursor_down_cycle(f: Seq<int>, cur: int)
    requires
        strictly_increasing(f),
        f.len() > 0,
        f.contains(cur),
    ensures
        down_n(f, cur, f.len() as nat) == cur,
{
    let w = choose|w: int| 0 <= w < f.len() && f[w] == cur;
    lemma_down_n_shift(f, w, f.len() as nat);
}

/// Law: toggling the same item twice leaves the checked flags exactly as
/// they were.
pub proof fn lemma_toggle_twice(checked: Seq<bool>, at: int)
    requires
        0 <= at < checked.len(),
    ensures
        toggled(toggled(checked, at), at) =~= checked,
{
}

/// Law: the accepted result is strictly ascending — so free of duplicates —
/// and holds exactly the checked indices, whatever order the toggles
/// happened in.
pub proof fn lemma_accept_exact(checked: Seq<bool>)
    ensures
        strictly_increasing(checked_indices(checked)),
        forall|j: int| checked_indices(checked).contains(j) <==> 0 <= j < checked.len()
            && checked[j],
{
    lemma_true_upto(checked, checked.len() as int);
}

} // verus!
