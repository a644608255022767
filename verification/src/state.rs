//! The selection state: the immutable labels, the checked flags, the cursor,
//! the page, the live search string and the filtered index set, together with
//! the well-formedness invariant that ties them together.

use vstd::prelude::*;
use crate::filter::{as_ints, matching_indices, matching_upto, lemma_matching_upto,
    lemma_increasing_index_of};
use crate::text::str_contains;

verus! {

/// One of the four mutually exclusive ways a row is drawn.
#[derive(Clone, Copy, Debug, PartialEq, Eq, Structural)]
pub enum RowStyle {
    UncheckedUnselected,
    UncheckedSelected,
    CheckedUnselected,
    CheckedSelected,
}

/// The style a row with the given flags is drawn in.
pub open spec fn style_spec(is_checked: bool, is_selected: bool) -> RowStyle {
    if is_checked {
        if is_selected {
            RowStyle::CheckedSelected
        } else {
            RowStyle::CheckedUnselected
        }
    } else {
        if is_selected {
            RowStyle::UncheckedSelected
        } else {
            RowStyle::UncheckedUnselected
        }
    }
}

/// The whole state of one interactive multi-select session.
///
/// The cursor is absent only while the filtered set is empty; it never holds
/// a sentinel value. The `dirty` flag records that the search string changed
/// after the filtered set was last computed; while it is clear, the filtered
/// set, the cursor and the page agree with the search string.
pub struct SelectState {
    pub labels: Vec<String>,
    pub checked: Vec<bool>,
    pub cursor: Option<usize>,
    pub page: usize,
    pub search: Vec<char>,
    pub filter: Vec<usize>,
    pub dirty: bool,
    pub capacity: usize,
}

impl SelectState {
    /// The labels as sequences of characters.
    pub open spec fn labels_view(&self) -> Seq<Seq<char>> {
        self.labels.deep_view()
    }

    /// The filtered index set as mathematical integers.
    pub open spec fn filter_view(&self) -> Seq<int> {
        as_ints(self.filter@)
    }

    /// The cursor's item index.
    pub open spec fn cursor_val(&self) -> int {
        self.cursor->0 as int
    }

    /// The cursor's position within the filtered set.
    pub open spec fn cursor_pos(&self) -> int {
        self.filter_view().index_of(self.cursor_val())
    }

    /// Well-formedness: the checked flags cover the labels, the capacity is
    /// positive, the cursor names an existing item, and — while the filter is
    /// up to date — the filtered set is exactly the set of matching indices,
    /// a non-empty filtered set keeps the cursor on one of its members, and
    /// the page is derived from the cursor's filtered position.
    pub open spec fn wf(&self) -> bool {
        &&& self.checked@.len() == self.labels@.len()
        &&& self.capacity >= 1
        &&& (self.cursor is Some ==> self.cursor_val() < self.labels@.len())
        &&& self.page * self.capacity <= self.labels@.len()
        &&& (!self.dirty ==> self.filter_view() == matching_indices(
            self.labels_view(),
            self.search@,
        ))
        &&& (!self.dirty && self.filter@.len() > 0 ==> self.cursor is Some
            && self.filter_view().contains(self.cursor_val()))
        &&& (!self.dirty && self.filter@.len() > 0 ==> self.page == self.cursor_pos() / (
        self.capacity as int))
    }

    /// A fresh session over no items: everything empty, the filter not yet
    /// computed. The page capacity must be positive; a capacity of zero is a
    /// caller error and is rejected here, at construction.
    pub fn new(capacity: usize) -> (s: SelectState)
        requires
            capacity >= 1,
        ensures
            s.wf(),
            s.labels@.len() == 0,
            s.checked@.len() == 0,
            s.search@ == Seq::<char>::empty(),
            s.cursor is None,
            s.page == 0,
            s.dirty,
            s.capacity == capacity,
    {
        SelectState {
            labels: Vec::new(),
            checked: Vec::new(),
            cursor: None,
            page: 0,
            search: Vec::new(),
            filter: Vec::new(),
            dirty: true,
            capacity,
        }
    }

    /// Appends items to the list, unchecked, and marks the filter stale.
    pub fn items(&mut self, items: &Vec<String>)
        requires
            old(self).wf(),
        ensures
            final(self).wf(),
            final(self).labels_view() == old(self).labels_view() + items.deep_view(),
            final(self).checked@ == old(self).checked@ + Seq::new(items@.len(), |i: int| false),
            final(self).cursor == old(self).cursor,
            final(self).page == old(self).page,
            final(self).search == old(self).search,
            final(self).capacity == old(self).capacity,
            final(self).dirty,
    {
        let n = items.len();
        let mut i: usize = 0;
        while i < n
            invariant
                old(self).wf(),
                n == items@.len(),
                i <= n,
                self.labels.deep_view() =~~= old(self).labels.deep_view() + items.deep_view()
                    .subrange(0, i as int),
                self.checked@ =~= old(self).checked@ + Seq::new(i as nat, |k: int| false),
                self.cursor == old(self).cursor,
                self.page == old(self).page,
                self.search == old(self).search,
                self.filter == old(self).filter,
                self.dirty == old(self).dirty,
                self.capacity == old(self).capacity,
            decreases n - i,
        {
            let ghost pre_labels = self.labels.deep_view();
            self.labels.push(items[i].clone());
            self.checked.push(false);
            proof {
                assert(self.labels.deep_view() =~~= pre_labels.push(
                    items.deep_view()[i as int],
                ));
                assert(items.deep_view().subrange(0, i + 1) =~~= items.deep_view().subrange(
                    0,
                    i as int,
                ).push(items.deep_view()[i as int]));
            }
            i += 1;
            proof {
                assert(self.labels.deep_view() =~~= old(self).labels.deep_view()
                    + items.deep_view().subrange(0, i as int));
                assert(self.checked@ =~= old(self).checked@ + Seq::new(i as nat, |k: int| false));
            }
        }
        self.dirty = true;
        proof {
            assert(items.deep_view().subrange(0, n as int) =~~= items.deep_view());
        }
    }

    /// Recomputes the filtered index set from the labels and the search
    /// string, if the search string changed since it was last computed.
    /// When the new filtered set is non-empty, the cursor snaps to its first
    /// member and the page resets; when it is empty, cursor and page are left
    /// alone. When nothing changed, nothing happens.
    pub fn refresh_filter(&mut self)
        requires
            old(self).wf(),
        ensures
            final(self).wf(),
            !final(self).dirty,
            final(self).labels == old(self).labels,
            final(self).checked == old(self).checked,
            final(self).search == old(self).search,
            final(self).capacity == old(self).capacity,
            final(self).filter_view() == matching_indices(
                old(self).labels_view(),
                old(self).search@,
            ),
            !old(self).dirty ==> *final(self) == *old(self),
            old(self).dirty && matching_indices(old(self).labels_view(), old(self).search@).len()
                > 0 ==> final(self).cursor == Some(
                matching_indices(old(self).labels_view(), old(self).search@)[0] as usize,
            ) && final(self).page == 0,
            old(self).dirty && matching_indices(old(self).labels_view(), old(self).search@).len()
                == 0 ==> final(self).cursor == old(self).cursor && final(self).page == old(
                self,
            ).page,
    {
        if !self.dirty {
            return ;
        }
        let ghost lv = self.labels.deep_view();
        let ghost pat = self.search@;
        let n = self.labels.len();
        self.filter = Vec::new();
        let mut idx: usize = 0;
        while idx < n
            invariant
                old(self).wf(),
                lv == old(self).labels.deep_view(),
                pat == old(self).search@,
                n == self.labels@.len(),
                idx <= n,
                self.labels == old(self).labels,
                self.checked == old(self).checked,
                self.search == old(self).search,
                self.cursor == old(self).cursor,
                self.page == old(self).page,
                self.dirty == old(self).dirty,
                self.capacity == old(self).capacity,
                as_ints(self.filter@) =~= matching_upto(lv, pat, idx as int),
            decreases n - idx,
        {
            if str_contains(self.labels[idx].as_str(), &self.search) {
                self.filter.push(idx);
            }
            idx += 1;
            proof {
                assert(as_ints(self.filter@) =~= matching_upto(lv, pat, idx as int));
            }
        }
        proof {
            lemma_matching_upto(lv, pat, n as int);
        }
        if self.filter.len() > 0 {
            let first = self.filter[0];
            self.cursor = Some(first);
            self.page = 0;
            proof {
                lemma_increasing_index_of(self.filter_view(), 0);
            }
        }
        self.dirty = false;
    }

    /// The number of items.
    pub fn item_count(&self) -> (n: usize)
        ensures
            n == self.labels@.len(),
    {
        self.labels.len()
    }

    /// The label of the item at `idx`.
    pub fn label_at(&self, idx: usize) -> (r: &String)
        requires
            idx < self.labels@.len(),
        ensures
            r@ == self.labels_view()[idx as int],
    {
        &self.labels[idx]
    }

    /// The live search string, as characters.
    pub fn search_chars(&self) -> (r: &Vec<char>)
        ensures
            r@ == self.search@,
    {
        &self.search
    }

    /// The item index the cursor rests on, if any.
    pub fn current_item(&self) -> (c: Option<usize>)
        ensures
            c == self.cursor,
    {
        self.cursor
    }

    /// The current page number.
    pub fn current_page(&self) -> (p: usize)
        ensures
            p == self.page,
    {
        self.page
    }

    /// Whether the item at `idx` is checked.
    pub fn is_checked(&self, idx: usize) -> (r: bool)
        requires
            self.wf(),
            idx < self.labels@.len(),
        ensures
            r == self.checked@[idx as int],
    {
        self.checked[idx]
    }

    /// Whether the filtered set is stale.
    pub fn is_dirty(&self) -> (r: bool)
        ensures
            r == self.dirty,
    {
        self.dirty
    }

    /// Where the current page starts within the filtered set.
    pub open spec fn page_start(&self) -> int {
        if self.page * self.capacity <= self.filter@.len() {
            self.page * self.capacity
        } else {
            self.filter@.len() as int
        }
    }

    /// Where the current page ends within the filtered set.
    pub open spec fn page_end(&self) -> int {
        if self.page_start() + self.capacity <= self.filter@.len() {
            self.page_start() + self.capacity
        } else {
            self.filter@.len() as int
        }
    }

    /// The item indices drawn on the current page: the slice of the filtered
    /// set starting at `page * capacity`, at most `capacity` long.
    pub fn visible_rows(&self) -> (r: Vec<usize>)
        requires
            self.wf(),
            !self.dirty,
        ensures
            r@ == self.filter@.subrange(self.page_start(), self.page_end()),
            r@.len() <= self.capacity,
    {
        let fl = self.filter.len();
        let total = self.labels.len();
        proof {
            assert(self.page * self.capacity <= total);
        }
        let raw = self.page * self.capacity;
        let start = if raw <= fl {
            raw
        } else {
            fl
        };
        let end = if fl - start > self.capacity {
            start + self.capacity
        } else {
            fl
        };
        let mut r: Vec<usize> = Vec::new();
        let mut k = start;
        while k < end
            invariant
                start <= k <= end <= fl,
                fl == self.filter@.len(),
                r@ =~= self.filter@.subrange(start as int, k as int),
            decreases end - k,
        {
            r.push(self.filter[k]);
            k += 1;
            proof {
                assert(r@ =~= self.filter@.subrange(start as int, k as int));
            }
        }
        proof {
            assert(start == self.page_start());
            assert(end == self.page_end());
        }
        r
    }

    /// The style the row for item `idx` is drawn in: checked or not, and
    /// selected exactly when the cursor rests on it.
    pub fn row_style(&self, idx: usize) -> (st: RowStyle)
        requires
            self.wf(),
            idx < self.labels@.len(),
        ensures
            st == style_spec(self.checked@[idx as int], self.cursor == Some(idx)),
    {
        let selected = match self.cursor {
            Some(c) => c == idx,
            None => false,
        };
        if self.checked[idx] {
            if selected {
                RowStyle::CheckedSelected
            } else {
                RowStyle::CheckedUnselected
            }
        } else {
            if selected {
                RowStyle::UncheckedSelected
            } else {
                RowStyle::UncheckedUnselected
            }
        }
    }
}

} // verus!
