use checklist::text::{count_newlines, str_contains};

#[test]
fn contains_finds_inner_substring() {
    assert!(str_contains("Python", &vec!['y', 't', 'h']));
    assert!(!str_contains("Python", &vec!['z']));
}

#[test]
fn empty_needle_always_matches() {
    assert!(str_contains("", &Vec::new()));
    assert!(str_contains("Go", &Vec::new()));
}

#[test]
fn needle_longer_than_haystack_never_matches() {
    assert!(!str_contains("Go", &vec!['G', 'o', 'o']));
}

#[test]
fn match_is_case_sensitive() {
    assert!(!str_contains("Python", &vec!['p']));
    assert!(str_contains("Python", &vec!['P']));
}

#[test]
fn newline_count_is_exact() {
    assert_eq!(count_newlines("no newline"), 0);
    assert_eq!(count_newlines("a\nb\nc"), 2);
    assert_eq!(count_newlines("\n"), 1);
}
