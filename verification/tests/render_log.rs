use checklist::render::RenderLog;

#[test]
fn prompt_band_accumulates() {
    let mut log = RenderLog::new();
    log.record_prompt("first prompt");
    log.record_prompt("second prompt");
    assert_eq!(log.prompt_height, 2);
    assert_eq!(log.body_height, 0);
}

#[test]
fn body_counts_embedded_newlines() {
    let mut log = RenderLog::new();
    log.record_line("one\ntwo");
    log.record_line("three");
    assert_eq!(log.body_height, 3);
}

#[test]
fn clear_erases_everything_and_resets() {
    let mut log = RenderLog::new();
    log.record_prompt("p");
    log.record_line("a");
    log.record_line("b");
    assert_eq!(log.clear(), 3);
    assert_eq!(log.prompt_height, 0);
    assert_eq!(log.body_height, 0);
}

#[test]
fn body_erase_keeps_prompt_and_pads_for_wide_labels() {
    let mut log = RenderLog::new();
    log.record_prompt("p");
    log.record_line("search");
    log.record_line("row");
    let sizes = vec![3, 120, 200];
    assert_eq!(log.clear_preserve_prompt(&sizes, 80), 4);
    assert_eq!(log.prompt_height, 1);
    assert_eq!(log.body_height, 0);
    log.record_line("row");
    assert_eq!(log.clear_preserve_prompt(&sizes, 300), 1);
}
