//! The key-to-mutation table: how one key event changes the selection state,
//! and what ends the session.

use vstd::prelude::*;
use crate::filter::{as_ints, checked_indices, true_upto, lemma_matching_upto,
    lemma_increasing_index_of, strictly_increasing};
use crate::state::SelectState;

verus! {

/// One key event, as the session loop hands it to the state.
#[derive(Clone, Copy, Debug)]
pub enum KeyEvent {
    ArrowDown,
    ArrowUp,
    Char(char),
    Backspace,
    Enter,
    Escape,
    Other,
}

/// What a key press leads to: the session goes on, ends with the checked
/// indices, or ends cancelled with nothing selected.
pub enum Outcome {
    Continue,
    Accept(Vec<usize>),
    Cancel,
}

/// The checked flags with the flag at `at` flipped.
pub open spec fn toggled(checked: Seq<bool>, at: int) -> Seq<bool> {
    checked.update(at, !checked[at])
}

/// The filtered-set member after `cur`, walking down with wrap-around.
pub open spec fn next_down(f: Seq<int>, cur: int) -> int {
    let p = f.index_of(cur);
    if p == f.len() - 1 {
        f[0]
    } else {
        f[p + 1]
    }
}

/// The filtered-set member before `cur`, walking up with wrap-around.
pub open spec fn next_up(f: Seq<int>, cur: int) -> int {
    let p = f.index_of(cur);
    if p == 0 {
        f[f.len() - 1]
    } else {
        f[p - 1]
    }
}

/// The indices an ended session hands back: the accepted set as it stands,
/// or — on cancellation — the empty set, whatever was checked beforehand.
pub fn session_result(out: Outcome) -> (r: Vec<usize>)
    requires
        !(out is Continue),
    ensures
        out matches Outcome::Accept(v) ==> r == v,
        out is Cancel ==> r@.len() == 0,
{
    match out {
        Outcome::Accept(v) => v,
        _ => Vec::new(),
    }
}

/// The position of `x` in `filter`, which must hold it.
fn position_of(filter: &Vec<usize>, x: usize) -> (p: usize)
    requires
        filter@.contains(x),
    ensures
        p < filter@.len(),
        filter@[p as int] == x,
{
    let n = filter.len();
    let mut i: usize = 0;
    while i < n
        invariant
            n == filter@.len(),
            i <= n,
            filter@.contains(x),
            forall|k: int| 0 <= k < i ==> filter@[k] != x,
        decreases n - i,
    {
        if filter[i] == x {
            return i;
        }
        i += 1;
    }
    proof {
        let w = choose|w: int| 0 <= w < filter@.len() && filter@[w] == x;
        assert(false);
    }
    0
}

/// Collects the checked item indices, in ascending order.
fn collect_checked(checked: &Vec<bool>) -> (r: Vec<usize>)
    ensures
        as_ints(r@) == checked_indices(checked@),
{
    let n = checked.len();
    let mut r: Vec<usize> = Vec::new();
    let mut i: usize = 0;
    while i < n
        invariant
            n == checked@.len(),
            i <= n,
            as_ints(r@) =~= true_upto(checked@, i as int),
        decreases n - i,
    {
        if checked[i] {
            r.push(i);
        }
        i += 1;
        proof {
            assert(as_ints(r@) =~= true_upto(checked@, i as int));
        }
    }
    r
}

impl SelectState {
    /// Applies one key press to the state, with the filtered set up to date,
    /// and says whether the session goes on.
    ///
    /// Arrow keys move the cursor to the nearest filtered-set member in the
    /// chosen direction, wrapping circularly; with an empty filtered set they
    /// do nothing. Space toggles the item under the cursor. Any other
    /// character extends the search string, and backspace shortens it; both
    /// leave the filtered set to be recomputed. Enter ends the session with
    /// the checked indices, ascending; escape ends it with nothing. Anything
    /// else is ignored.
    pub fn apply_key(&mut self, key: KeyEvent) -> (out: Outcome)
        requires
            old(self).wf(),
            !old(self).dirty,
        ensures
            final(self).wf(),
            final(self).labels == old(self).labels,
            final(self).capacity == old(self).capacity,
            final(self).filter == old(self).filter,
            (out is Continue) == !(key is Enter || key is Escape),
            key is ArrowDown && old(self).filter@.len() > 0 ==> *final(self) == (SelectState {
                cursor: Some(next_down(old(self).filter_view(), old(self).cursor_val()) as usize),
                page: final(self).page,
                ..*old(self)
            }),
            key is ArrowUp && old(self).filter@.len() > 0 ==> *final(self) == (SelectState {
                cursor: Some(next_up(old(self).filter_view(), old(self).cursor_val()) as usize),
                page: final(self).page,
                ..*old(self)
            }),
            (key is ArrowDown || key is ArrowUp) && old(self).filter@.len() == 0 ==> *final(self)
                == *old(self),
            key == KeyEvent::Char(' ') && old(self).cursor is Some ==> *final(self) == (SelectState {
                checked: final(self).checked,
                ..*old(self)
            }) && final(self).checked@ == toggled(old(self).checked@, old(self).cursor_val()),
            key == KeyEvent::Char(' ') && old(self).cursor is None ==> *final(self) == *old(self),
            (key matches KeyEvent::Char(c) && c != ' ') ==> *final(self) == (SelectState {
                search: final(self).search,
                dirty: true,
                ..*old(self)
            }) && final(self).search@ == old(self).search@.push(key->Char_0),
            key is Backspace ==> *final(self) == (SelectState {
                search: final(self).search,
                dirty: true,
                ..*old(self)
            }) && final(self).search@ == (if old(self).search@.len() > 0 {
                old(self).search@.drop_last()
            } else {
                old(self).search@
            }),
            key is Enter ==> *final(self) == *old(self) && (out matches Outcome::Accept(v)
                && as_ints(v@) == checked_indices(old(self).checked@)),
            key is Escape ==> *final(self) == *old(self) && out is Cancel,
            key is Other ==> *final(self) == *old(self),
    {
        match key {
            KeyEvent::ArrowDown => {
                if self.filter.len() > 0 {
                    self.move_cursor(true);
                }
                Outcome::Continue
            },
            KeyEvent::ArrowUp => {
                if self.filter.len() > 0 {
                    self.move_cursor(false);
                }
                Outcome::Continue
            },
            KeyEvent::Char(c) => {
                if c == ' ' {
                    match self.cursor {
                        Some(at) => {
                            let was = self.checked[at];
                            self.checked.set(at, !was);
                        },
                        None => {},
                    }
                } else {
                    self.search.push(c);
                    self.dirty = true;
                }
                Outcome::Continue
            },
            KeyEvent::Backspace => {
                if self.search.len() > 0 {
                    self.search.pop();
                }
                self.dirty = true;
                Outcome::Continue
            },
            KeyEvent::Enter => Outcome::Accept(collect_checked(&self.checked)),
            KeyEvent::Escape => Outcome::Cancel,
            KeyEvent::Other => Outcome::Continue,
        }
    }

    /// Moves the cursor one filtered-set member down (or up), with circular
    /// wrap-around, and re-derives the page from its new filtered position.
    fn move_cursor(&mut self, down: bool)
        requires
            old(self).wf(),
            !old(self).dirty,
            old(self).filter@.len() > 0,
        ensures
            final(self).wf(),
            !final(self).dirty,
            *final(self) == (SelectState {
                cursor: final(self).cursor,
                page: final(self).page,
                ..*old(self)
            }),
            down ==> final(self).cursor == Some(
                next_down(old(self).filter_view(), old(self).cursor_val()) as usize,
            ),
            !down ==> final(self).cursor == Some(
                next_up(old(self).filter_view(), old(self).cursor_val()) as usize,
            ),
    {
        let ghost f = self.filter_view();
        proof {
            lemma_matching_upto(self.labels_view(), self.search@, self.labels@.len() as int);
            assert(strictly_increasing(f));
            let w = choose|w: int| 0 <= w < f.len() && f[w] == self.cursor_val();
            assert(self.filter@[w] == self.cursor->0);
            assert(self.filter@.contains(self.cursor->0));
        }
        let at = match self.cursor {
            Some(c) => c,
            None => {
                proof {
                    assert(false);
                }
                0
            },
        };
        let m = self.filter.len();
        let p = position_of(&self.filter, at);
        proof {
            lemma_increasing_index_of(f, p as int);
        }
        let np = if down {
            if p == m - 1 {
                0
            } else {
                p + 1
            }
        } else {
            if p == 0 {
                m - 1
            } else {
                p - 1
            }
        };
        self.cursor = Some(self.filter[np]);
        self.page = np / self.capacity;
        proof {
            lemma_increasing_index_of(f, np as int);
            assert(self.filter_view()[np as int] == self.filter@[np as int] as int);
            let c = self.capacity as int;
            let q = np as int / c;
            vstd::arithmetic::div_mod::lemma_fundamental_div_mod(np as int, c);
            vstd::arithmetic::div_mod::lemma_mod_bound(np as int, c);
            assert(c * q <= np);
            assert(q * c == c * q) by (nonlinear_arith);
            assert(self.page * self.capacity <= np);
        }
    }
}

} // verus!
