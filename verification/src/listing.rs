//! The technology listing: the remote catalogue arrives as one
//! comma-separated body, and the labels offered for selection are its
//! comma-separated segments, in order.

use vstd::prelude::*;

verus! {

/// The comma-separated segments of `s`, in order. A body with no comma is a
/// single segment; every comma ends a segment, so adjacent commas and
/// commas at either end yield empty segments.
pub open spec fn split_commas(s: Seq<char>) -> Seq<Seq<char>>
    decreases s.len(),
{
    if s.len() == 0 {
        seq![Seq::<char>::empty()]
    } else if s[0] == ',' {
        seq![Seq::<char>::empty()] + split_commas(s.subrange(1, s.len() as int))
    } else {
        let rest = split_commas(s.subrange(1, s.len() as int));
        seq![seq![s[0]] + rest[0]] + rest.subrange(1, rest.len() as int)
    }
}

pub proof fn lemma_split_commas_len(s: Seq<char>)
    ensures
        split_commas(s).len() >= 1,
    decreases s.len(),
{
    if s.len() != 0 && s[0] != ',' {
        lemma_split_commas_len(s.subrange(1, s.len() as int));
    }
}

/// A body without a comma is one single segment.
pub proof fn lemma_split_no_comma(s: Seq<char>)
    requires
        forall|j: int| 0 <= j < s.len() ==> s[j] != ',',
    ensures
        split_commas(s) =~~= seq![s],
    decreases s.len(),
{
    if s.len() == 0 {
        assert(s =~= Seq::<char>::empty());
    } else {
        let s1 = s.subrange(1, s.len() as int);
        lemma_split_no_comma(s1);
        let rest = split_commas(s1);
        assert(seq![s[0]] + rest[0] =~= s);
        assert(rest.subrange(1, rest.len() as int) =~= Seq::<Seq<char>>::empty());
    }
}

/// The first comma, at `k`, cuts the body into the segment before it and the
/// segments of what follows it.
pub proof fn lemma_split_at_comma(s: Seq<char>, k: int)
    requires
        0 <= k < s.len(),
        s[k] == ',',
        forall|j: int| 0 <= j < k ==> s[j] != ',',
    ensures
        split_commas(s) =~~= seq![s.subrange(0, k)] + split_commas(
            s.subrange(k + 1, s.len() as int),
        ),
    decreases k,
{
    if k == 0 {
        assert(s.subrange(0, 0) =~= Seq::<char>::empty());
    } else {
        let s1 = s.subrange(1, s.len() as int);
        lemma_split_at_comma(s1, k - 1);
        lemma_split_commas_len(s1.subrange(k, s1.len() as int));
        let rest = split_commas(s1);
        assert(s1.subrange(k, s1.len() as int) =~= s.subrange(k + 1, s.len() as int));
        assert(rest[0] == s1.subrange(0, k - 1));
        assert(seq![s[0]] + s1.subrange(0, k - 1) =~= s.subrange(0, k));
        assert(rest.subrange(1, rest.len() as int) =~~= split_commas(
            s.subrange(k + 1, s.len() as int),
        ));
    }
}

/// Cuts a catalogue body into its comma-separated labels, in order.
pub fn technology_list(body: &str) -> (r: Vec<String>)
    ensures
        r.deep_view() == split_commas(body@),
{
    let n = body.unicode_len();
    let mut r: Vec<String> = Vec::new();
    let mut seg_start: usize = 0;
    let mut i: usize = 0;
    proof {
        assert(body@.subrange(0, n as int) =~= body@);
        assert(r.deep_view() + split_commas(body@) =~~= split_commas(body@));
    }
    while i < n
        invariant
            n == body@.len(),
            seg_start <= i <= n,
            forall|j: int| seg_start <= j < i ==> body@[j] != ',',
            split_commas(body@) =~~= r.deep_view() + split_commas(
                body@.subrange(seg_start as int, n as int),
            ),
        decreases n - i,
    {
        if body.get_char(i) == ',' {
            let ghost t = body@.subrange(seg_start as int, n as int);
            let ghost pre = r.deep_view();
            proof {
                lemma_split_at_comma(t, i - seg_start);
                assert(t.subrange(0, i - seg_start) =~= body@.subrange(
                    seg_start as int,
                    i as int,
                ));
                assert(t.subrange(i - seg_start + 1, t.len() as int) =~= body@.subrange(
                    i + 1,
                    n as int,
                ));
            }
            let seg = body.substring_char(seg_start, i);
            let owned: String = <String as StringExecFns>::from_str(seg);
            r.push(owned);
            proof {
                assert(r.deep_view() =~~= pre.push(body@.subrange(seg_start as int, i as int)));
                assert(split_commas(body@) =~~= r.deep_view() + split_commas(
                    body@.subrange(i + 1, n as int),
                ));
            }
            seg_start = i + 1;
        }
        i += 1;
    }
    let ghost pre = r.deep_view();
    let seg = body.substring_char(seg_start, n);
    let owned: String = <String as StringExecFns>::from_str(seg);
    r.push(owned);
    proof {
        lemma_split_no_comma(body@.subrange(seg_start as int, n as int));
        assert(r.deep_view() =~~= pre.push(body@.subrange(seg_start as int, n as int)));
        assert(r.deep_view() =~~= split_commas(body@));
    }
    r
}

} // verus!
