use move_preview::display::{split_lines, Screen};

fn rows(s: &Screen, upto: usize) -> Vec<String> {
    (0..upto).map(|i| s.line_text(i)).collect()
}

#[test]
fn split_lines_matches_line_semantics() {
    assert_eq!(split_lines(""), Vec::<String>::new());
    assert_eq!(split_lines("a"), vec!["a"]);
    assert_eq!(split_lines("a\nb"), vec!["a", "b"]);
    assert_eq!(split_lines("a\nb\n"), vec!["a", "b"]);
    assert_eq!(split_lines("\n"), vec![""]);
    assert_eq!(split_lines("\n\n"), vec!["", ""]);
}

#[test]
fn repaint_writes_the_new_region() {
    let mut s = Screen::new();
    s.repaint(3, 0, "top\nbottom");
    assert_eq!(s.line_text(2), "");
    assert_eq!(s.line_text(3), "top");
    assert_eq!(s.line_text(4), "bottom");
    assert_eq!(s.line_text(5), "");
}

#[test]
fn repaint_clears_the_old_extent_fully() {
    let mut s = Screen::new();
    s.repaint(2, 0, "one\ntwo\nthree");
    // the new content is shorter than the old: the leftover rows go blank
    s.repaint(2, 3, "short");
    assert_eq!(s.line_text(2), "short");
    assert_eq!(s.line_text(3), "");
    assert_eq!(s.line_text(4), "");
}

#[test]
fn clearing_zero_lines_changes_nothing() {
    let mut s = Screen::new();
    s.repaint(1, 0, "a\nb\nc");
    let before = rows(&s, 8);
    s.clear_lines(2, 0);
    assert_eq!(rows(&s, 8), before);
    s.clear_lines(100, 0);
    assert_eq!(rows(&s, 8), before);
}

#[test]
fn clearing_blanks_exactly_the_named_rows() {
    let mut s = Screen::new();
    s.repaint(0, 0, "a\nb\nc\nd");
    s.clear_lines(1, 2);
    assert_eq!(rows(&s, 4), vec!["a", "", "", "d"]);
}

#[test]
fn repainting_twice_shows_the_same_region_as_once() {
    let mut once = Screen::new();
    once.repaint(0, 0, "x\ny\nz");
    once.repaint(1, 2, "p\nq");
    let mut twice = Screen::new();
    twice.repaint(0, 0, "x\ny\nz");
    twice.repaint(1, 2, "p\nq");
    twice.repaint(1, 2, "p\nq");
    assert_eq!(rows(&twice, 8), rows(&once, 8));
}
