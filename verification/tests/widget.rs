use checklist::keys::{KeyEvent, Outcome};
use checklist::state::{RowStyle, SelectState};

fn session(labels: &[&str], capacity: usize) -> SelectState {
    let mut s = SelectState::new(capacity);
    let mut owned: Vec<String> = Vec::new();
    for l in labels {
        owned.push((*l).to_string());
    }
    s.items(&owned);
    s.refresh_filter();
    s
}

fn accept(s: &mut SelectState) -> Vec<usize> {
    s.refresh_filter();
    match s.apply_key(KeyEvent::Enter) {
        Outcome::Accept(v) => v,
        _ => panic!("enter must accept"),
    }
}

#[test]
fn toggle_first_then_accept() {
    let mut s = session(&["Python", "C", "Go"], 10);
    s.apply_key(KeyEvent::Char(' '));
    assert_eq!(accept(&mut s), vec![0]);
}

#[test]
fn move_toggle_two_then_accept() {
    let mut s = session(&["Python", "C", "Go"], 10);
    s.apply_key(KeyEvent::ArrowDown);
    s.apply_key(KeyEvent::Char(' '));
    s.apply_key(KeyEvent::ArrowDown);
    s.apply_key(KeyEvent::Char(' '));
    assert_eq!(accept(&mut s), vec![1, 2]);
}

#[test]
fn search_filters_and_snaps_cursor() {
    let mut s = session(&["Python", "C", "Go"], 10);
    s.apply_key(KeyEvent::Char('o'));
    s.refresh_filter();
    assert_eq!(*s.search_chars(), vec!['o']);
    assert_eq!(s.visible_rows(), vec![0, 2]);
    assert_eq!(s.current_item(), Some(0));
    s.apply_key(KeyEvent::ArrowDown);
    assert_eq!(s.current_item(), Some(2));
}

#[test]
fn empty_list_accepts_empty() {
    let mut s = session(&[], 10);
    assert_eq!(s.visible_rows(), Vec::<usize>::new());
    assert_eq!(accept(&mut s), Vec::<usize>::new());
}

#[test]
fn cancel_discards_checked() {
    let mut s = session(&["Python", "C", "Go"], 10);
    s.apply_key(KeyEvent::Char(' '));
    s.apply_key(KeyEvent::ArrowDown);
    s.apply_key(KeyEvent::Char(' '));
    let out = s.apply_key(KeyEvent::Escape);
    match &out {
        Outcome::Cancel => {}
        _ => panic!("escape must cancel"),
    }
    assert_eq!(checklist::keys::session_result(out), Vec::<usize>::new());
}

#[test]
fn cursor_down_cycles_filtered_set() {
    let mut s = session(&["Python", "C", "Go"], 10);
    let start = s.current_item();
    for _ in 0..3 {
        s.apply_key(KeyEvent::ArrowDown);
    }
    assert_eq!(s.current_item(), start);
    // under a filter the cycle length is the filtered set's size
    s.apply_key(KeyEvent::Char('o'));
    s.refresh_filter();
    let filtered_start = s.current_item();
    for _ in 0..2 {
        s.apply_key(KeyEvent::ArrowDown);
    }
    assert_eq!(s.current_item(), filtered_start);
}

#[test]
fn toggle_twice_restores() {
    let mut s = session(&["Python", "C", "Go"], 10);
    assert!(!s.is_checked(0));
    s.apply_key(KeyEvent::Char(' '));
    assert!(s.is_checked(0));
    s.apply_key(KeyEvent::Char(' '));
    assert!(!s.is_checked(0));
}

#[test]
fn filter_matches_exactly_after_edits() {
    let mut s = session(&["Python", "C", "Go"], 10);
    s.apply_key(KeyEvent::Char('o'));
    s.apply_key(KeyEvent::Char('n'));
    s.refresh_filter();
    assert_eq!(s.visible_rows(), vec![0]);
    s.apply_key(KeyEvent::Backspace);
    s.refresh_filter();
    assert_eq!(s.visible_rows(), vec![0, 2]);
    s.apply_key(KeyEvent::Backspace);
    s.refresh_filter();
    assert_eq!(s.visible_rows(), vec![0, 1, 2]);
}

#[test]
fn cursor_lands_in_filter_after_change() {
    let mut s = session(&["Python", "C", "Go"], 10);
    s.apply_key(KeyEvent::ArrowDown);
    assert_eq!(s.current_item(), Some(1));
    s.apply_key(KeyEvent::Char('o'));
    s.refresh_filter();
    assert_eq!(s.current_item(), Some(0));
}

#[test]
fn accept_ascending_regardless_of_toggle_order() {
    let mut s = session(&["Python", "C", "Go"], 10);
    s.apply_key(KeyEvent::ArrowUp);
    s.apply_key(KeyEvent::Char(' '));
    s.apply_key(KeyEvent::ArrowUp);
    s.apply_key(KeyEvent::Char(' '));
    s.apply_key(KeyEvent::ArrowUp);
    s.apply_key(KeyEvent::Char(' '));
    assert_eq!(accept(&mut s), vec![0, 1, 2]);
}

#[test]
fn search_no_match_keeps_state_safe() {
    let mut s = session(&["Python", "C", "Go"], 10);
    s.apply_key(KeyEvent::Char('z'));
    s.refresh_filter();
    assert_eq!(s.visible_rows(), Vec::<usize>::new());
    s.apply_key(KeyEvent::ArrowDown);
    s.apply_key(KeyEvent::ArrowUp);
    assert_eq!(s.current_item(), Some(0));
    assert_eq!(accept(&mut s), Vec::<usize>::new());
}

#[test]
fn unrecognized_key_changes_nothing() {
    let mut s = session(&["Python", "C", "Go"], 10);
    s.apply_key(KeyEvent::Char(' '));
    match s.apply_key(KeyEvent::Other) {
        Outcome::Continue => {}
        _ => panic!("other keys must not end the session"),
    }
    assert_eq!(s.current_item(), Some(0));
    assert!(s.is_checked(0));
    assert_eq!(accept(&mut s), vec![0]);
}

#[test]
fn paging_follows_cursor() {
    let mut s = session(&["a", "b", "c", "d", "e"], 2);
    assert_eq!(s.current_page(), 0);
    s.apply_key(KeyEvent::ArrowDown);
    assert_eq!(s.current_page(), 0);
    s.apply_key(KeyEvent::ArrowDown);
    assert_eq!(s.current_page(), 1);
    assert_eq!(s.visible_rows(), vec![2, 3]);
    s.apply_key(KeyEvent::ArrowUp);
    assert_eq!(s.current_page(), 0);
    s.apply_key(KeyEvent::ArrowUp);
    s.apply_key(KeyEvent::ArrowUp);
    assert_eq!(s.current_page(), 2);
    assert_eq!(s.visible_rows(), vec![4]);
}

#[test]
fn capacity_larger_than_items_is_one_page() {
    let mut s = session(&["Python", "C", "Go"], 10);
    s.apply_key(KeyEvent::ArrowUp);
    assert_eq!(s.current_item(), Some(2));
    assert_eq!(s.current_page(), 0);
    assert_eq!(s.visible_rows(), vec![0, 1, 2]);
}

#[test]
fn row_styles_reflect_cursor_and_checks() {
    let mut s = session(&["Python", "C", "Go"], 10);
    s.apply_key(KeyEvent::Char(' '));
    assert_eq!(s.row_style(0), RowStyle::CheckedSelected);
    assert_eq!(s.row_style(1), RowStyle::UncheckedUnselected);
    s.apply_key(KeyEvent::ArrowDown);
    assert_eq!(s.row_style(0), RowStyle::CheckedUnselected);
    assert_eq!(s.row_style(1), RowStyle::UncheckedSelected);
}

#[test]
fn labels_are_kept_in_order() {
    let s = session(&["Python", "C", "Go"], 10);
    assert_eq!(s.item_count(), 3);
    assert_eq!(s.label_at(0), "Python");
    assert_eq!(s.label_at(1), "C");
    assert_eq!(s.label_at(2), "Go");
}
