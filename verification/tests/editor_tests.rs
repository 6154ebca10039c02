use grid_editor::action::Action;
use grid_editor::action::KeyCode;
use grid_editor::action::KeyEvent;
use grid_editor::components::HandleActionResponse;
use grid_editor::csv::parse_csv;
use grid_editor::csv::to_csv;
use grid_editor::input::Input;
use grid_editor::input::Mode;

fn key(code: KeyCode) -> Action {
    Action::Key(KeyEvent::plain(code))
}

fn ch(c: char) -> Action {
    key(KeyCode::Char(c))
}

// Scenario: insert-mode editor with buffer "hi", cursor at 2; two
// Backspaces empty the buffer; a further Backspace is a harmless no-op.
#[test]
fn scenario_backspace_to_empty_buffer() {
    let mut input = Input::new().value("hi".to_string()).mode(Mode::Insert);
    assert_eq!(input.cursor_position, 2);
    input.handle_action(key(KeyCode::Backspace));
    input.handle_action(key(KeyCode::Backspace));
    assert_eq!(input.value, "");
    assert_eq!(input.cursor_position, 0);
    input.handle_action(key(KeyCode::Backspace));
    assert_eq!(input.value, "");
    assert_eq!(input.cursor_position, 0);
}

#[test]
fn insert_mode_consumes_characters() {
    let mut input = Input::new().mode(Mode::Insert);
    let r = input.handle_action(ch('q'));
    assert_eq!(r, HandleActionResponse::Ignore, "typed characters never bubble");
    assert_eq!(input.value, "q");
    assert_eq!(input.cursor_position, 1);
}

#[test]
fn normal_mode_switches_to_insert_on_i() {
    let mut input = Input::new();
    assert_eq!(input.mode, Mode::Normal);
    input.handle_action(ch('x'));
    assert_eq!(input.value, "", "normal mode never mutates the buffer");
    input.handle_action(ch('i'));
    assert_eq!(input.mode, Mode::Insert);
}

#[test]
fn escape_falls_back_to_normal_and_is_consumed() {
    let mut input = Input::new().mode(Mode::Insert);
    let r = input.handle_action(key(KeyCode::Esc));
    assert_eq!(r, HandleActionResponse::Ignore);
    assert_eq!(input.mode, Mode::Normal);
}

#[test]
fn cursor_moves_by_code_points_and_clamps() {
    let mut input = Input::new().value("ab".to_string()).mode(Mode::Insert);
    input.handle_action(key(KeyCode::Right));
    assert_eq!(input.cursor_position, 2, "right clamps at the end");
    input.handle_action(key(KeyCode::Left));
    input.handle_action(key(KeyCode::Left));
    input.handle_action(key(KeyCode::Left));
    assert_eq!(input.cursor_position, 0, "left clamps at the start");
    input.handle_action(ch('x'));
    assert_eq!(input.value, "xab", "insertion at the cursor");
    assert_eq!(input.cursor_position, 1);
}

#[test]
fn editing_works_on_code_points_not_bytes() {
    let mut input = Input::new().value("héllo".to_string()).mode(Mode::Insert);
    assert_eq!(input.cursor_position, 5, "cursor counts code points");
    input.handle_action(key(KeyCode::Backspace));
    assert_eq!(input.value, "héll");
    input.handle_action(key(KeyCode::Left));
    input.handle_action(key(KeyCode::Left));
    input.handle_action(key(KeyCode::Left));
    input.handle_action(key(KeyCode::Backspace));
    assert_eq!(input.value, "éll", "no-op free deletion before a multi-byte character");
    input.handle_action(ch('ü'));
    assert_eq!(input.value, "üéll");
}

#[test]
fn enter_submits_and_clears_the_buffer() {
    let mut input = Input::new().value("note".to_string()).mode(Mode::Insert);
    input.handle_action(key(KeyCode::Enter));
    assert_eq!(input.value, "");
    assert_eq!(input.cursor_position, 0);
}

#[test]
fn serializer_quotes_cells_and_ends_rows_with_newlines() {
    let matrix = vec![
        vec!["a".to_string(), "b".to_string()],
        vec!["c".to_string()],
    ];
    assert_eq!(to_csv(&matrix), "\"a\",\"b\"\n\"c\"\n");
    let empty_cells = vec![vec!["".to_string(), "".to_string()]];
    assert_eq!(to_csv(&empty_cells), "\"\",\"\"\n");
    let no_rows: Vec<Vec<String>> = vec![];
    assert_eq!(to_csv(&no_rows), "");
}

#[test]
fn parser_splits_lines_and_cells_and_strips_quotes() {
    let m = parse_csv("\"a\",\"b\"\n\"c\",\"d\"");
    assert_eq!(m, vec![vec!["a", "b"], vec!["c", "d"]]);
    let m = parse_csv("x,y\nz");
    assert_eq!(m, vec![vec!["x", "y"], vec!["z"]], "quotes are optional");
}

#[test]
fn parser_trims_trailing_whitespace_only() {
    let m = parse_csv("\"a\"\n\"b\"\n");
    assert_eq!(m, vec![vec!["a"], vec!["b"]], "the trailing newline adds no empty row");
    let m = parse_csv("");
    assert_eq!(m, vec![vec![""]], "empty text parses to one empty cell");
}

#[test]
fn serialize_then_parse_round_trips_plain_cells() {
    let matrix = vec![
        vec!["one".to_string(), "two".to_string()],
        vec!["three".to_string()],
    ];
    assert_eq!(parse_csv(&to_csv(&matrix)), matrix);
}
