use checklist::listing::technology_list;

#[test]
fn splits_comma_separated_body() {
    assert_eq!(technology_list("python,c,go"), vec!["python", "c", "go"]);
}

#[test]
fn empty_body_is_one_empty_label() {
    assert_eq!(technology_list(""), vec![""]);
}

#[test]
fn adjacent_and_trailing_commas_yield_empty_labels() {
    assert_eq!(technology_list("a,,b,"), vec!["a", "", "b", ""]);
}

#[test]
fn body_without_comma_is_single_label() {
    assert_eq!(technology_list("rust"), vec!["rust"]);
}
