use editor::document::{Action, Direction, Document, Position};

fn at(line: usize, column: usize) -> Position {
    Position { line, column }
}

fn loaded(text: &str) -> Document {
    let mut document = Document::new();
    document.load(text);
    document
}

fn go(document: &mut Document, direction: Direction) {
    assert!(!document.apply(Action::MoveCursor { direction, extend: false }));
}

fn extend(document: &mut Document, direction: Direction) {
    assert!(!document.apply(Action::MoveCursor { direction, extend: true }));
}

fn place(document: &mut Document, line: usize, column: usize) {
    let here = at(line, column);
    assert!(!document.apply(Action::SelectRange { anchor: here, head: here }));
}

fn select(document: &mut Document, anchor: Position, head: Position) {
    assert!(!document.apply(Action::SelectRange { anchor, head }));
}

#[test]
fn a_new_document_is_one_empty_line() {
    let document = Document::new();
    assert_eq!(document.text(), "");
    assert_eq!(document.line_count(), 1);
    assert_eq!(document.cursor(), at(0, 0));
    assert_eq!(document.cursor_position(), (1, 1));
    assert_eq!(document.selection(), None);
}

#[test]
fn load_replaces_everything() {
    let mut document = loaded("old text");
    place(&mut document, 0, 3);
    extend(&mut document, Direction::Right);
    document.load("line1\nline2");
    assert_eq!(document.text(), "line1\nline2");
    assert_eq!(document.line_count(), 2);
    assert_eq!(document.cursor(), at(0, 0));
    assert_eq!(document.selection(), None);
}

#[test]
fn load_and_text_lose_nothing() {
    for text in ["", "\n", "a\n", "\n\nb", "line1\nline2", "one\r\ntwo\r\n", "  spaced\t\n", "ünï\ncödé"] {
        assert_eq!(loaded(text).text(), text);
    }
}

#[test]
fn typing_puts_characters_at_the_cursor() {
    let mut document = loaded("ad");
    place(&mut document, 0, 1);
    assert!(document.apply(Action::InsertCharacter('b')));
    assert!(document.apply(Action::InsertCharacter('c')));
    assert_eq!(document.text(), "abcd");
    assert_eq!(document.cursor(), at(0, 3));
    assert_eq!(document.cursor_position(), (1, 4));
}

#[test]
fn newline_splits_the_line_at_the_cursor() {
    let mut document = loaded("hello world");
    place(&mut document, 0, 5);
    assert!(document.apply(Action::InsertNewline));
    assert_eq!(document.text(), "hello\n world");
    assert_eq!(document.line_count(), 2);
    assert_eq!(document.cursor(), at(1, 0));
}

#[test]
fn newline_at_the_end_appends_an_empty_line() {
    let mut document = loaded("a\nb");
    go(&mut document, Direction::DocumentEnd);
    assert!(document.apply(Action::InsertNewline));
    assert_eq!(document.text(), "a\nb\n");
    assert_eq!(document.line_count(), 3);
    assert_eq!(document.cursor(), at(2, 0));
}

#[test]
fn a_typed_line_break_breaks_the_line() {
    let mut document = loaded("ab");
    place(&mut document, 0, 1);
    assert!(document.apply(Action::InsertCharacter('\n')));
    assert_eq!(document.text(), "a\nb");
    assert_eq!(document.line_count(), 2);
    assert_eq!(document.cursor(), at(1, 0));
}

#[test]
fn delete_backward_at_the_start_changes_nothing() {
    let mut document = loaded("abc\ndef");
    assert!(document.apply(Action::DeleteBackward));
    assert_eq!(document.text(), "abc\ndef");
    assert_eq!(document.cursor(), at(0, 0));
}

#[test]
fn delete_backward_removes_the_character_before_the_cursor() {
    let mut document = loaded("abc");
    place(&mut document, 0, 2);
    assert!(document.apply(Action::DeleteBackward));
    assert_eq!(document.text(), "ac");
    assert_eq!(document.cursor(), at(0, 1));
}

#[test]
fn delete_backward_at_a_line_start_joins_the_lines() {
    let mut document = loaded("abc\ndef\nghi");
    place(&mut document, 1, 0);
    assert!(document.apply(Action::DeleteBackward));
    assert_eq!(document.text(), "abcdef\nghi");
    assert_eq!(document.line_count(), 2);
    assert_eq!(document.cursor(), at(0, 3));
}

#[test]
fn delete_forward_removes_the_character_at_the_cursor() {
    let mut document = loaded("abc");
    place(&mut document, 0, 1);
    assert!(document.apply(Action::DeleteForward));
    assert_eq!(document.text(), "ac");
    assert_eq!(document.cursor(), at(0, 1));
}

#[test]
fn delete_forward_at_a_line_end_joins_the_lines() {
    let mut document = loaded("abc\ndef\nghi");
    place(&mut document, 1, 3);
    assert!(document.apply(Action::DeleteForward));
    assert_eq!(document.text(), "abc\ndefghi");
    assert_eq!(document.line_count(), 2);
    assert_eq!(document.cursor(), at(1, 3));
}

#[test]
fn delete_forward_at_the_end_changes_nothing() {
    let mut document = loaded("abc\ndef");
    go(&mut document, Direction::DocumentEnd);
    assert!(document.apply(Action::DeleteForward));
    assert_eq!(document.text(), "abc\ndef");
    assert_eq!(document.cursor(), at(1, 3));
}

#[test]
fn left_and_right_cross_line_breaks() {
    let mut document = loaded("ab\ncd");
    place(&mut document, 0, 2);
    go(&mut document, Direction::Right);
    assert_eq!(document.cursor(), at(1, 0));
    go(&mut document, Direction::Left);
    assert_eq!(document.cursor(), at(0, 2));
    go(&mut document, Direction::Left);
    assert_eq!(document.cursor(), at(0, 1));
    go(&mut document, Direction::Right);
    assert_eq!(document.cursor(), at(0, 2));
}

#[test]
fn movement_stops_at_the_bounds() {
    let mut document = loaded("ab\ncd");
    go(&mut document, Direction::Left);
    assert_eq!(document.cursor(), at(0, 0));
    place(&mut document, 0, 1);
    go(&mut document, Direction::Up);
    assert_eq!(document.cursor(), at(0, 1));
    go(&mut document, Direction::DocumentEnd);
    assert_eq!(document.cursor(), at(1, 2));
    go(&mut document, Direction::Right);
    assert_eq!(document.cursor(), at(1, 2));
    go(&mut document, Direction::Down);
    assert_eq!(document.cursor(), at(1, 2));
    assert_eq!(document.text(), "ab\ncd");
}

#[test]
fn up_and_down_keep_the_column_where_the_line_is_long_enough() {
    let mut document = loaded("long line\nab\nlonger line");
    place(&mut document, 0, 6);
    go(&mut document, Direction::Down);
    assert_eq!(document.cursor(), at(1, 2));
    go(&mut document, Direction::Down);
    assert_eq!(document.cursor(), at(2, 2));
    place(&mut document, 2, 11);
    go(&mut document, Direction::Up);
    assert_eq!(document.cursor(), at(1, 2));
    place(&mut document, 2, 4);
    go(&mut document, Direction::Up);
    go(&mut document, Direction::Up);
    assert_eq!(document.cursor(), at(0, 2));
}

#[test]
fn home_end_and_the_ends_of_the_document() {
    let mut document = loaded("first\nsecond\nthird");
    place(&mut document, 1, 3);
    go(&mut document, Direction::Home);
    assert_eq!(document.cursor(), at(1, 0));
    go(&mut document, Direction::End);
    assert_eq!(document.cursor(), at(1, 6));
    go(&mut document, Direction::DocumentStart);
    assert_eq!(document.cursor(), at(0, 0));
    go(&mut document, Direction::DocumentEnd);
    assert_eq!(document.cursor(), at(2, 5));
    assert_eq!(document.cursor_position(), (3, 6));
}

#[test]
fn a_range_outside_the_text_is_moved_into_it() {
    let mut document = loaded("ab\ncdef");
    select(&mut document, at(0, 9), at(7, 2));
    assert_eq!(document.cursor(), at(1, 2));
    assert_eq!(document.selection(), Some((at(0, 2), at(1, 2))));
    select(&mut document, at(5, 50), at(usize::MAX, usize::MAX));
    assert_eq!(document.cursor(), at(1, 4));
    assert_eq!(document.selection(), None);
}

#[test]
fn selecting_with_movements() {
    let mut document = loaded("abc\ndef");
    place(&mut document, 0, 1);
    extend(&mut document, Direction::Right);
    extend(&mut document, Direction::Down);
    assert_eq!(document.cursor(), at(1, 2));
    assert_eq!(document.selection(), Some((at(0, 1), at(1, 2))));
    extend(&mut document, Direction::DocumentStart);
    assert_eq!(document.cursor(), at(0, 0));
    assert_eq!(document.selection(), Some((at(0, 0), at(0, 1))));
    extend(&mut document, Direction::Right);
    assert_eq!(document.selection(), None);
    assert_eq!(document.cursor(), at(0, 1));
    assert_eq!(document.text(), "abc\ndef");
}

#[test]
fn a_plain_movement_drops_the_selection() {
    let mut document = loaded("abcdef\nxyz");
    select(&mut document, at(0, 4), at(0, 2));
    go(&mut document, Direction::Left);
    assert_eq!(document.selection(), None);
    assert_eq!(document.cursor(), at(0, 2));

    select(&mut document, at(0, 4), at(0, 2));
    go(&mut document, Direction::Right);
    assert_eq!(document.selection(), None);
    assert_eq!(document.cursor(), at(0, 4));

    select(&mut document, at(0, 2), at(1, 1));
    go(&mut document, Direction::Up);
    assert_eq!(document.cursor(), at(0, 2));

    select(&mut document, at(1, 1), at(0, 2));
    go(&mut document, Direction::Down);
    assert_eq!(document.cursor(), at(1, 1));

    select(&mut document, at(0, 4), at(0, 2));
    go(&mut document, Direction::End);
    assert_eq!(document.selection(), None);
    assert_eq!(document.cursor(), at(0, 6));

    select(&mut document, at(0, 4), at(0, 2));
    go(&mut document, Direction::Home);
    assert_eq!(document.cursor(), at(0, 0));
}

#[test]
fn typing_replaces_the_selection() {
    let mut document = loaded("hello world");
    select(&mut document, at(0, 0), at(0, 5));
    assert!(document.apply(Action::InsertCharacter('J')));
    assert_eq!(document.text(), "J world");
    assert_eq!(document.cursor(), at(0, 1));
    assert_eq!(document.selection(), None);
}

#[test]
fn deleting_removes_the_selection_only() {
    let mut document = loaded("one\ntwo\nthree\nfour");
    select(&mut document, at(0, 2), at(2, 3));
    assert!(document.apply(Action::DeleteBackward));
    assert_eq!(document.text(), "onee\nfour");
    assert_eq!(document.cursor(), at(0, 2));
    assert_eq!(document.line_count(), 2);

    let mut document = loaded("one\ntwo\nthree\nfour");
    select(&mut document, at(2, 3), at(0, 2));
    assert!(document.apply(Action::DeleteForward));
    assert_eq!(document.text(), "onee\nfour");
    assert_eq!(document.cursor(), at(0, 2));

    let mut document = loaded("abcdef");
    select(&mut document, at(0, 1), at(0, 4));
    assert!(document.apply(Action::DeleteForward));
    assert_eq!(document.text(), "aef");
    assert_eq!(document.cursor(), at(0, 1));
}

#[test]
fn newline_replaces_the_selection() {
    let mut document = loaded("ab\ncd\nef");
    select(&mut document, at(0, 1), at(2, 1));
    assert!(document.apply(Action::InsertNewline));
    assert_eq!(document.text(), "a\nf");
    assert_eq!(document.cursor(), at(1, 0));
    assert_eq!(document.selection(), None);
}

#[test]
fn only_inserts_and_deletes_count_as_changes() {
    assert!(Action::InsertCharacter('x').is_edit());
    assert!(Action::InsertNewline.is_edit());
    assert!(Action::DeleteBackward.is_edit());
    assert!(Action::DeleteForward.is_edit());
    for direction in [
        Direction::Left,
        Direction::Right,
        Direction::Up,
        Direction::Down,
        Direction::Home,
        Direction::End,
        Direction::DocumentStart,
        Direction::DocumentEnd,
    ] {
        assert!(!Action::MoveCursor { direction, extend: false }.is_edit());
        assert!(!Action::MoveCursor { direction, extend: true }.is_edit());
    }
    assert!(!Action::SelectRange { anchor: at(0, 0), head: at(3, 3) }.is_edit());
}

#[test]
fn the_cursor_stays_in_the_text_after_every_action() {
    let actions = [
        Action::InsertCharacter('a'),
        Action::InsertNewline,
        Action::InsertCharacter('b'),
        Action::MoveCursor { direction: Direction::Up, extend: false },
        Action::MoveCursor { direction: Direction::End, extend: true },
        Action::DeleteBackward,
        Action::DeleteBackward,
        Action::DeleteBackward,
        Action::MoveCursor { direction: Direction::Down, extend: false },
        Action::SelectRange { anchor: at(9, 9), head: at(0, 7) },
        Action::DeleteForward,
        Action::DeleteForward,
        Action::MoveCursor { direction: Direction::Right, extend: false },
        Action::InsertCharacter('\n'),
        Action::MoveCursor { direction: Direction::DocumentStart, extend: true },
        Action::InsertCharacter('z'),
    ];
    let mut document = loaded("xy\n\nlonger");
    for action in actions {
        document.apply(action);
        let cursor = document.cursor();
        let text = document.text();
        let lines: Vec<&str> = text.split('\n').collect();
        assert_eq!(lines.len(), document.line_count());
        assert!(cursor.line < lines.len());
        assert!(cursor.column <= lines[cursor.line].chars().count());
        if let Some((start, end)) = document.selection() {
            assert!(start != end);
            assert!(end.line < lines.len());
            assert!(end.column <= lines[end.line].chars().count());
            assert!(cursor == start || cursor == end);
        }
    }
    assert_eq!(document.text(), "z");
}

#[test]
fn columns_count_characters() {
    let mut document = loaded("héé");
    go(&mut document, Direction::End);
    assert_eq!(document.cursor(), at(0, 3));
    assert!(document.apply(Action::InsertCharacter('✓')));
    assert_eq!(document.cursor(), at(0, 4));
    assert_eq!(document.text(), "héé✓");
}
