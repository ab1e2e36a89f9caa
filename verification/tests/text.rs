use editor::text::{join, split};

fn lines(parts: &[&str]) -> Vec<Vec<char>> {
    parts.iter().map(|part| part.chars().collect()).collect()
}

#[test]
fn split_of_the_empty_text_is_one_empty_line() {
    assert_eq!(split(""), lines(&[""]));
}

#[test]
fn split_at_each_line_break() {
    assert_eq!(split("line1\nline2"), lines(&["line1", "line2"]));
    assert_eq!(split("a\n\nb"), lines(&["a", "", "b"]));
}

#[test]
fn split_keeps_an_empty_last_line() {
    assert_eq!(split("a\n"), lines(&["a", ""]));
    assert_eq!(split("\n"), lines(&["", ""]));
    assert_eq!(split("\n\n"), lines(&["", "", ""]));
}

#[test]
fn split_leaves_carriage_returns_alone() {
    assert_eq!(split("a\r\nb"), lines(&["a\r", "b"]));
}

#[test]
fn join_puts_a_break_between_lines_only() {
    assert_eq!(join(&lines(&["line1", "line2"])), "line1\nline2");
    assert_eq!(join(&lines(&["only"])), "only");
    assert_eq!(join(&lines(&["a", ""])), "a\n");
    assert_eq!(join(&lines(&["", "", ""])), "\n\n");
    assert_eq!(join(&lines(&[""])), "");
    assert_eq!(join(&Vec::new()), "");
}

#[test]
fn join_undoes_split() {
    for text in ["", "abc", "a\nb", "\n", "a\n", "\na", "x\n\n\ny\n", "tab\tand\r\nreturn", "héllo\nwörld ✓"] {
        assert_eq!(join(&split(text)), text);
    }
}

#[test]
fn split_undoes_join() {
    for parts in [vec![""], vec!["a"], vec!["a", "b"], vec!["", ""], vec!["a", "", "b", ""]] {
        let before = lines(&parts);
        assert_eq!(split(&join(&before)), before);
    }
}
