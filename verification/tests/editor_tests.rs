use whiskey::editor::{Direction, Editor, TAB_SIZE};

fn line_string(e: &Editor, i: usize) -> String {
    e.line(i).iter().collect()
}

fn type_str(e: &mut Editor, s: &str) {
    for c in s.chars() {
        e.insert_char(c);
    }
}

#[test]
fn fresh_editor_is_one_empty_line() {
    let e = Editor::new();
    assert_eq!(e.line_count(), 1);
    assert_eq!(line_string(&e, 0), "");
    assert_eq!(e.cursor_x(), 0);
    assert_eq!(e.cursor_y(), 0);
}

#[test]
fn insert_plain_char_advances_cursor() {
    let mut e = Editor::new();
    e.insert_char('a');
    e.insert_char('b');
    assert_eq!(line_string(&e, 0), "ab");
    assert_eq!(e.cursor_x(), 2);
    assert_eq!(e.cursor_y(), 0);
}

#[test]
fn insert_openers_insert_pairs() {
    let cases = [('(', "()"), ('[', "[]"), ('{', "{}"), ('"', "\"\""), ('\'', "''")];
    for (c, expected) in cases {
        let mut e = Editor::new();
        e.insert_char(c);
        assert_eq!(line_string(&e, 0), expected);
        assert_eq!(e.cursor_x(), 1, "cursor sits between the pair for {c:?}");
    }
}

#[test]
fn insert_then_backspace_restores_line_and_cursor() {
    let mut e = Editor::new();
    type_str(&mut e, "hello");
    e.move_cursor(Direction::Left);
    e.move_cursor(Direction::Left);
    e.insert_char('x');
    assert_eq!(line_string(&e, 0), "helxlo");
    e.backspace();
    assert_eq!(line_string(&e, 0), "hello");
    assert_eq!(e.cursor_x(), 3);
    assert_eq!(e.cursor_y(), 0);
}

#[test]
fn insert_pair_then_backspace_leaves_closer_orphaned() {
    let mut e = Editor::new();
    type_str(&mut e, "ab");
    e.insert_char('(');
    assert_eq!(line_string(&e, 0), "ab()");
    assert_eq!(e.cursor_x(), 3);
    e.backspace();
    // one backspace removes only the opener; the closer stays at the cursor
    assert_eq!(line_string(&e, 0), "ab)");
    assert_eq!(e.cursor_x(), 2);
}

#[test]
fn insert_tab_inserts_four_spaces() {
    let mut e = Editor::new();
    e.insert_tab();
    assert_eq!(line_string(&e, 0), "    ");
    assert_eq!(e.cursor_x(), TAB_SIZE);
}

#[test]
fn tab_then_backspace_removes_whole_run() {
    let mut e = Editor::new();
    type_str(&mut e, "ab");
    e.insert_tab();
    assert_eq!(line_string(&e, 0), "ab    ");
    assert_eq!(e.cursor_x(), 6);
    e.backspace();
    assert_eq!(line_string(&e, 0), "ab");
    assert_eq!(e.cursor_x(), 2);
}

#[test]
fn backspace_removes_single_char_without_space_run() {
    let mut e = Editor::new();
    type_str(&mut e, "abcd");
    e.backspace();
    assert_eq!(line_string(&e, 0), "abc");
    assert_eq!(e.cursor_x(), 3);
}

#[test]
fn backspace_merges_with_previous_line() {
    let mut e = Editor::new();
    type_str(&mut e, "ab");
    e.new_line();
    type_str(&mut e, "cd");
    assert_eq!(e.line_count(), 2);
    // move to the start of the second line
    e.move_cursor(Direction::Left);
    e.move_cursor(Direction::Left);
    assert_eq!((e.cursor_y(), e.cursor_x()), (1, 0));
    e.backspace();
    assert_eq!(e.line_count(), 1);
    assert_eq!(line_string(&e, 0), "abcd");
    assert_eq!((e.cursor_y(), e.cursor_x()), (0, 2));
}

#[test]
fn backspace_at_origin_is_a_noop_any_number_of_times() {
    let mut e = Editor::new();
    for _ in 0..5 {
        e.backspace();
        assert_eq!(e.line_count(), 1);
        assert_eq!(line_string(&e, 0), "");
        assert_eq!((e.cursor_y(), e.cursor_x()), (0, 0));
    }
}

#[test]
fn new_line_splits_and_copies_indentation() {
    let mut e = Editor::new();
    e.insert_tab();
    type_str(&mut e, "ab");
    e.move_cursor(Direction::Left);
    assert_eq!(e.cursor_x(), 5);
    e.new_line();
    assert_eq!(e.line_count(), 2);
    assert_eq!(line_string(&e, 0), "    a");
    assert_eq!(line_string(&e, 1), "    b");
    assert_eq!((e.cursor_y(), e.cursor_x()), (1, 4));
}

#[test]
fn new_line_then_backspace_restores_line_and_cursor() {
    let mut e = Editor::new();
    type_str(&mut e, "hello");
    e.move_cursor(Direction::Left);
    e.move_cursor(Direction::Left);
    assert_eq!(e.cursor_x(), 3);
    e.new_line();
    assert_eq!(e.line_count(), 2);
    e.backspace();
    assert_eq!(e.line_count(), 1);
    assert_eq!(line_string(&e, 0), "hello");
    assert_eq!((e.cursor_y(), e.cursor_x()), (0, 3));
}

#[test]
fn new_line_between_braces_expands_block() {
    let mut e = Editor::new();
    type_str(&mut e, "if (x");
    e.move_cursor(Direction::Right);
    type_str(&mut e, " {");
    assert_eq!(line_string(&e, 0), "if (x) {}");
    assert_eq!(e.cursor_x(), 8);
    e.new_line();
    assert_eq!(e.line_count(), 3);
    assert_eq!(line_string(&e, 0), "if (x) {");
    assert_eq!(line_string(&e, 1), "    ");
    assert_eq!(line_string(&e, 2), "}");
    assert_eq!((e.cursor_y(), e.cursor_x()), (1, 4));
}

#[test]
fn new_line_after_open_brace_indents_one_level() {
    let mut e = Editor::new();
    e.insert_char('{');
    e.move_cursor(Direction::Right);
    e.backspace();
    assert_eq!(line_string(&e, 0), "{");
    assert_eq!(e.cursor_x(), 1);
    e.new_line();
    assert_eq!(e.line_count(), 2);
    assert_eq!(line_string(&e, 0), "{");
    assert_eq!(line_string(&e, 1), "    ");
    assert_eq!((e.cursor_y(), e.cursor_x()), (1, 4));
}

#[test]
fn move_left_at_line_start_wraps_to_previous_line_end() {
    let mut e = Editor::new();
    e.new_line();
    type_str(&mut e, "hello");
    e.new_line();
    assert_eq!(e.line_count(), 3);
    assert_eq!((e.cursor_y(), e.cursor_x()), (2, 0));
    e.move_cursor(Direction::Left);
    assert_eq!((e.cursor_y(), e.cursor_x()), (1, 5));
}

#[test]
fn move_right_at_line_end_wraps_to_next_line_start() {
    let mut e = Editor::new();
    e.new_line();
    e.move_cursor(Direction::Up);
    assert_eq!((e.cursor_y(), e.cursor_x()), (0, 0));
    e.move_cursor(Direction::Right);
    assert_eq!((e.cursor_y(), e.cursor_x()), (1, 0));
}

#[test]
fn move_at_document_edges_is_a_noop() {
    let mut e = Editor::new();
    e.move_cursor(Direction::Left);
    assert_eq!((e.cursor_y(), e.cursor_x()), (0, 0));
    e.move_cursor(Direction::Up);
    assert_eq!((e.cursor_y(), e.cursor_x()), (0, 0));
    e.move_cursor(Direction::Right);
    assert_eq!((e.cursor_y(), e.cursor_x()), (0, 0));
    e.move_cursor(Direction::Down);
    assert_eq!((e.cursor_y(), e.cursor_x()), (0, 0));
}

#[test]
fn vertical_moves_clamp_column_to_target_line() {
    let mut e = Editor::new();
    type_str(&mut e, "ab");
    e.new_line();
    type_str(&mut e, "hello");
    assert_eq!((e.cursor_y(), e.cursor_x()), (1, 5));
    e.move_cursor(Direction::Up);
    assert_eq!((e.cursor_y(), e.cursor_x()), (0, 2));
    e.move_cursor(Direction::Down);
    assert_eq!((e.cursor_y(), e.cursor_x()), (1, 2));
}

#[test]
fn special_char_insertion_pairs_openers_only() {
    let mut line: Vec<char> = vec!['a'];
    let mut cursor: usize = 1;
    let special = Editor::special_char_insertion('[', &mut line, &mut cursor);
    assert!(special);
    assert_eq!(line.iter().collect::<String>(), "a[]");
    assert_eq!(cursor, 2);

    let mut line: Vec<char> = vec!['a'];
    let mut cursor: usize = 0;
    let special = Editor::special_char_insertion('z', &mut line, &mut cursor);
    assert!(!special);
    assert_eq!(line.iter().collect::<String>(), "a");
    assert_eq!(cursor, 0);
}

#[test]
fn space_completing_a_tab_run_is_eaten_as_a_tab() {
    // the one exception to the plain insert/backspace round trip: a typed
    // space that completes four spaces before the cursor makes the next
    // backspace tab-aware
    let mut e = Editor::new();
    type_str(&mut e, "ab   ");
    e.insert_char(' ');
    assert_eq!(line_string(&e, 0), "ab    ");
    e.backspace();
    assert_eq!(line_string(&e, 0), "ab");
    assert_eq!(e.cursor_x(), 2);
}

#[test]
fn backspace_with_partial_space_run_removes_one_space() {
    let mut e = Editor::new();
    e.insert_char(' ');
    e.insert_char(' ');
    assert_eq!(e.cursor_x(), 2);
    e.backspace();
    assert_eq!(line_string(&e, 0), " ");
    assert_eq!(e.cursor_x(), 1);
}
