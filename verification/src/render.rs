//! Redraw-height bookkeeping: how many terminal lines the prompt band and the
//! per-frame body occupy, and exactly how many trailing lines to erase.
//!
//! The renderer that owns the output device records every line it writes
//! here; before redrawing it asks how many lines to erase, so that the erase
//! always matches what the previous frame put on screen.

use vstd::prelude::*;
use crate::text::{newline_count, count_newlines};

verus! {

/// Addition on line counters, stuck at the top of `usize` instead of
/// wrapping.
pub open spec fn sat_add(a: int, b: int) -> int {
    if a + b <= usize::MAX {
        a + b
    } else {
        usize::MAX as int
    }
}

/// The number of terminal lines a written buffer occupies: one, plus one per
/// embedded newline.
pub open spec fn lines_of(s: Seq<char>) -> int {
    sat_add(newline_count(s) as int, 1)
}

/// How many of the given widths exceed the terminal width: each such label
/// may wrap onto one extra physical line.
pub open spec fn overflow_count(sizes: Seq<usize>, width: usize, n: int) -> int
    decreases n,
{
    if n <= 0 {
        0
    } else {
        overflow_count(sizes, width, n - 1) + if sizes[n - 1] > width {
            1int
        } else {
            0int
        }
    }
}

pub proof fn lemma_overflow_count_bounds(sizes: Seq<usize>, width: usize, n: int)
    ensures
        0 <= overflow_count(sizes, width, n),
        overflow_count(sizes, width, n) <= if n <= 0 {
            0int
        } else {
            n
        },
    decreases n,
{
    if n > 0 {
        lemma_overflow_count_bounds(sizes, width, n - 1);
    }
}

/// The two line counters of the renderer: the height of the one-time prompt
/// band, and the height of the body drawn since the last erase.
pub struct RenderLog {
    pub prompt_height: usize,
    pub body_height: usize,
}

impl RenderLog {
    /// A fresh log: nothing written yet.
    pub fn new() -> (log: RenderLog)
        ensures
            log.prompt_height == 0,
            log.body_height == 0,
    {
        RenderLog { prompt_height: 0, body_height: 0 }
    }

    /// Records a written prompt line: its height accumulates into the prompt
    /// band, which later body erases leave standing.
    pub fn record_prompt(&mut self, text: &str)
        ensures
            final(self).prompt_height == sat_add(
                old(self).prompt_height as int,
                lines_of(text@),
            ),
            final(self).body_height == old(self).body_height,
    {
        let lines = Self::line_span(text);
        self.prompt_height = Self::add_clamped(self.prompt_height, lines);
    }

    /// Records a written body line (the search line or one item row): its
    /// height counts towards the next body erase.
    pub fn record_line(&mut self, text: &str)
        ensures
            final(self).body_height == sat_add(old(self).body_height as int, lines_of(text@)),
            final(self).prompt_height == old(self).prompt_height,
    {
        let lines = Self::line_span(text);
        self.body_height = Self::add_clamped(self.body_height, lines);
    }

    /// How many lines to erase to remove everything, prompt band included;
    /// both counters drop to zero. Used once, at session end.
    pub fn clear(&mut self) -> (n: usize)
        ensures
            n == sat_add(old(self).body_height as int, old(self).prompt_height as int),
            final(self).prompt_height == 0,
            final(self).body_height == 0,
    {
        let n = Self::add_clamped(self.body_height, self.prompt_height);
        self.prompt_height = 0;
        self.body_height = 0;
        n
    }

    /// How many lines to erase to remove the body but keep the prompt band:
    /// the body height, plus one line for every label wider than the
    /// terminal, which may have wrapped onto an extra physical line. That
    /// allowance is a deliberate overestimate, not an exact wrap emulation.
    /// The body counter drops to zero.
    pub fn clear_preserve_prompt(&mut self, sizes: &Vec<usize>, width: usize) -> (n: usize)
        ensures
            n == sat_add(
                old(self).body_height as int,
                overflow_count(sizes@, width, sizes@.len() as int),
            ),
            final(self).prompt_height == old(self).prompt_height,
            final(self).body_height == 0,
    {
        let m = sizes.len();
        let mut over: usize = 0;
        let mut i: usize = 0;
        while i < m
            invariant
                m == sizes@.len(),
                i <= m,
                over == overflow_count(sizes@, width, i as int),
                over <= i,
            decreases m - i,
        {
            proof {
                lemma_overflow_count_bounds(sizes@, width, i as int);
            }
            if sizes[i] > width {
                over += 1;
            }
            i += 1;
        }
        let n = Self::add_clamped(self.body_height, over);
        self.body_height = 0;
        n
    }

    /// The number of terminal lines one written buffer occupies.
    fn line_span(text: &str) -> (n: usize)
        ensures
            n == lines_of(text@),
    {
        let newlines = count_newlines(text);
        Self::add_clamped(newlines, 1)
    }

    /// Saturating addition on line counters.
    fn add_clamped(a: usize, b: usize) -> (r: usize)
        ensures
            r == sat_add(a as int, b as int),
    {
        if a <= usize::MAX - b {
            a + b
        } else {
            usize::MAX
        }
    }
}

} // verus!
