use jolt::log::{excerpt, line_count, search_lines, selection_down, selection_range, selection_to, selection_up, split_lines};

#[test]
fn lines_split_like_str_lines() {
    assert_eq!(split_lines("a\r\nb\n\nc\n"), vec!["a", "b", "", "c"]);
    assert_eq!(split_lines(""), Vec::<String>::new());
    assert_eq!(split_lines("x\r"), vec!["x\r"]);
    assert_eq!(line_count("one\ntwo"), 2);
}

#[test]
fn search_finds_lines_ignoring_case() {
    let text = "Error: boom\nok\nanother ERROR here\nfine";
    assert_eq!(search_lines(text, "error"), vec![0, 2]);
    assert_eq!(search_lines(text, "ÉRROR"), Vec::<usize>::new());
    assert_eq!(search_lines(text, ""), Vec::<usize>::new());
    assert_eq!(search_lines("ÄBC\näbc", "äB"), vec![0, 1]);
}

#[test]
fn selection_range_is_ordered() {
    assert_eq!(selection_range(5, 2), (2, 5));
    assert_eq!(selection_range(2, 5), (2, 5));
    assert_eq!(selection_range(3, 3), (3, 3));
}

#[test]
fn plain_moves_collapse_the_selection() {
    assert_eq!(selection_up(7, 4, false), (3, 3));
    assert_eq!(selection_up(7, 4, true), (7, 3));
    assert_eq!(selection_down(1, 4, 10, false), (5, 5));
    assert_eq!(selection_down(1, 9, 10, false), (9, 9));
    assert_eq!(selection_up(7, 0, false), (0, 0));
    assert_eq!(selection_up(7, 0, true), (7, 0));
    assert_eq!(selection_to(8, 0, false), (0, 0));
}

#[test]
fn excerpt_takes_the_selected_lines() {
    let text = "l0\nl1\nl2\nl3";
    assert_eq!(excerpt(text, 1, 2), "l1\nl2");
    assert_eq!(excerpt(text, 3, 9), "l3");
    assert_eq!(excerpt(text, 5, 9), "");
}
