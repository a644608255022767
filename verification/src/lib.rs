//! An interactive terminal checklist: a multi-select list over a fixed set of
//! labels, with live substring filtering, circular cursor navigation that
//! skips filtered-out rows, paging, and precise redraw-height bookkeeping.
//!
//! The library holds the widget's state and all of its logic; the caller owns
//! the terminal, feeds key events in, and draws the lines the library hands
//! back.

pub mod filter;
pub mod keys;
pub mod laws;
pub mod listing;
pub mod render;
pub mod state;
pub mod text;
