use grid_editor::action::Action;
use grid_editor::action::KeyCode;
use grid_editor::action::KeyEvent;
use grid_editor::csv_table::CsvTable;
use grid_editor::input::Mode;

fn key(code: KeyCode) -> Action {
    Action::Key(KeyEvent::plain(code))
}

fn ch(c: char) -> Action {
    key(KeyCode::Char(c))
}

fn grid(rows: Vec<Vec<&str>>) -> CsvTable {
    let matrix: Vec<Vec<String>> = rows
        .into_iter()
        .map(|r| r.into_iter().map(|s| s.to_string()).collect())
        .collect();
    CsvTable::new().matrix(matrix)
}

fn cells(t: &CsvTable) -> Vec<Vec<String>> {
    t.matrix.clone()
}

#[test]
fn cursor_moves_stay_in_bounds() {
    let mut t = grid(vec![vec!["a", "b"], vec!["c", "d"]]);
    assert_eq!(t.cell_focused, (0, 0));
    t.handle_action(ch('k'));
    assert_eq!(t.cell_focused, (0, 0), "up at row 0 is a no-op");
    t.handle_action(ch('h'));
    assert_eq!(t.cell_focused, (0, 0), "left at column 0 is a no-op");
    t.handle_action(ch('j'));
    assert_eq!(t.cell_focused, (1, 0));
    t.handle_action(ch('j'));
    assert_eq!(t.cell_focused, (1, 0), "down at the last row is a no-op");
    t.handle_action(ch('l'));
    assert_eq!(t.cell_focused, (1, 1));
    t.handle_action(ch('l'));
    assert_eq!(t.cell_focused, (1, 1), "right at the last column clamps");
    t.handle_action(ch('k'));
    t.handle_action(ch('h'));
    assert_eq!(t.cell_focused, (0, 0));
}

#[test]
fn vertical_moves_reject_targets_outside_short_rows() {
    let mut t = grid(vec![vec!["a", "b"], vec!["c"]]);
    t.handle_action(ch('l'));
    assert_eq!(t.cell_focused, (0, 1));
    t.handle_action(ch('j'));
    assert_eq!(t.cell_focused, (0, 1), "no cell below: the move is rejected");
    t.handle_action(ch('h'));
    t.handle_action(ch('j'));
    assert_eq!(t.cell_focused, (1, 0), "a cell below: the move lands on it");
    t.handle_action(ch('k'));
    assert_eq!(t.cell_focused, (0, 0));
}

#[test]
fn deleting_the_last_cell_of_a_row_clamps_the_cursor() {
    let mut t = grid(vec![vec!["a", "b"]]);
    t.handle_action(ch('l'));
    t.handle_action(ch('d'));
    t.handle_action(ch('y'));
    assert_eq!(cells(&t), vec![vec!["a"]]);
    assert_eq!(t.cell_focused, (0, 0), "the cursor stays on an existing cell");
    t.handle_action(ch('d'));
    t.handle_action(ch('y'));
    assert_eq!(cells(&t), vec![Vec::<String>::new()]);
    assert_eq!(t.cell_focused, (0, 0), "an emptied row keeps the cursor at column 0");
}

#[test]
fn matrix_builder_keeps_the_cursor() {
    let mut t = grid(vec![vec!["a", "b"], vec!["c", "d"]]);
    t.handle_action(ch('j'));
    assert_eq!(t.cell_focused, (1, 0));
    let rows = vec![
        vec!["x".to_string(), "y".to_string()],
        vec!["z".to_string(), "w".to_string()],
    ];
    let t2 = t.matrix(rows.clone());
    assert_eq!(t2.cell_focused, (1, 0), "replacing the matrix leaves the coordinate alone");
    assert_eq!(cells(&t2), rows);
}

#[test]
fn right_on_empty_row_does_not_panic() {
    let mut t = grid(vec![vec![]]);
    t.handle_action(ch('l'));
    assert_eq!(t.cell_focused, (0, 0));
    t.handle_action(ch('h'));
    assert_eq!(t.cell_focused, (0, 0));
}

#[test]
fn edit_open_then_cancel_leaves_matrix_unchanged() {
    let mut t = grid(vec![vec!["a", "b"], vec!["c", "d"]]);
    let before = cells(&t);
    t.handle_action(ch('e'));
    assert!(t.edit_input.is_some(), "edit overlay opens");
    // The overlay opens in insert mode: the first Escape only falls back
    // to normal mode, the second closes the overlay.
    t.handle_action(key(KeyCode::Esc));
    assert!(t.edit_input.is_some());
    assert_eq!(t.edit_input.as_ref().unwrap().mode, Mode::Normal);
    t.handle_action(key(KeyCode::Esc));
    assert!(t.edit_input.is_none(), "edit overlay closed");
    assert_eq!(cells(&t), before, "matrix unchanged after cancel");
}

#[test]
fn edit_overlay_prepopulates_with_cell_text() {
    let mut t = grid(vec![vec!["hello"]]);
    t.handle_action(ch('e'));
    let input = t.edit_input.as_ref().unwrap();
    assert_eq!(input.value, "hello");
    assert_eq!(input.cursor_position, 5, "cursor at the end of the text");
    assert_eq!(input.mode, Mode::Insert);
}

#[test]
fn edit_commit_writes_cell_and_closes_overlay() {
    let mut t = grid(vec![vec!["a", "b"], vec!["c", "d"]]);
    t.handle_action(ch('j'));
    assert_eq!(t.cell_focused, (1, 0));
    t.handle_action(ch('e'));
    // Clear the pre-populated "c", then type the replacement.
    t.handle_action(key(KeyCode::Backspace));
    t.handle_action(ch('X'));
    t.handle_action(key(KeyCode::Enter));
    assert!(t.edit_input.is_none(), "overlay closed on commit");
    assert_eq!(cells(&t), vec![vec!["a", "b"], vec!["X", "d"]]);
    assert_eq!(t.cell_focused, (1, 0));
    // A subsequent edit-open on the same cell pre-populates with the
    // committed text.
    t.handle_action(ch('e'));
    assert_eq!(t.edit_input.as_ref().unwrap().value, "X");
}

#[test]
fn typing_in_overlay_does_not_move_grid_cursor() {
    let mut t = grid(vec![vec!["a", "b"], vec!["c", "d"]]);
    t.handle_action(ch('e'));
    t.handle_action(ch('j'));
    t.handle_action(ch('l'));
    assert_eq!(t.cell_focused, (0, 0), "overlay consumes movement keys");
    assert_eq!(t.edit_input.as_ref().unwrap().value, "ajl");
}

// Scenario: grid [["a","b"],["c","d"]], cursor (0,0); keys l, j, e, type
// "X", Enter.  The edit overlay pre-populates with the focused cell's
// text ("d" at (1,1)), so the commit appends to it.
#[test]
fn scenario_move_edit_type_commit() {
    let mut t = grid(vec![vec!["a", "b"], vec!["c", "d"]]);
    t.handle_action(ch('l'));
    t.handle_action(ch('j'));
    assert_eq!(t.cell_focused, (1, 1));
    t.handle_action(ch('e'));
    t.handle_action(ch('X'));
    t.handle_action(key(KeyCode::Enter));
    assert_eq!(cells(&t), vec![vec!["a", "b"], vec!["c", "dX"]]);
    assert_eq!(t.cell_focused, (1, 1));
    assert!(t.edit_input.is_none(), "no overlay open");
    assert!(!t.show_delete_popup);
}

#[test]
fn confirm_delete_removes_exactly_one_cell() {
    let mut t = grid(vec![vec!["a", "b", "c"], vec!["d"]]);
    t.handle_action(ch('l'));
    assert_eq!(t.cell_focused, (0, 1));
    t.handle_action(ch('d'));
    assert!(t.show_delete_popup);
    t.handle_action(ch('y'));
    assert!(!t.show_delete_popup);
    assert_eq!(
        cells(&t),
        vec![vec!["a", "c"], vec!["d"]],
        "later cells shift left by one, other rows untouched"
    );
}

#[test]
fn deny_delete_leaves_row_unchanged() {
    let mut t = grid(vec![vec!["a", "b"]]);
    t.handle_action(ch('d'));
    t.handle_action(ch('n'));
    assert!(!t.show_delete_popup);
    assert_eq!(cells(&t), vec![vec!["a", "b"]]);
}

// Scenario: delete-confirmation opened on cell (0,1) of [["a","b"]].
#[test]
fn scenario_delete_confirmation_on_second_cell() {
    let mut t = grid(vec![vec!["a", "b"]]);
    t.handle_action(ch('l'));
    assert_eq!(t.cell_focused, (0, 1));
    t.handle_action(ch('d'));
    t.handle_action(ch('n'));
    assert_eq!(cells(&t), vec![vec!["a", "b"]], "deny leaves the matrix unchanged");
    assert!(!t.show_delete_popup, "overlay closed");

    let mut t = grid(vec![vec!["a", "b"]]);
    t.handle_action(ch('l'));
    t.handle_action(ch('d'));
    t.handle_action(ch('y'));
    assert_eq!(cells(&t), vec![vec!["a"]]);
}

#[test]
fn overlays_are_mutually_exclusive() {
    let mut t = grid(vec![vec!["a"]]);
    t.handle_action(ch('d'));
    assert!(t.show_delete_popup);
    t.handle_action(ch('e'));
    assert!(t.edit_input.is_none(), "edit request rejected while confirming");
    t.handle_action(ch('n'));
    t.handle_action(ch('e'));
    assert!(t.edit_input.is_some());
    t.handle_action(ch('d'));
    assert!(!t.show_delete_popup, "delete request rejected while editing");
}

#[test]
fn mutable_focused_cell_borrow_edits_in_place() {
    let mut t = grid(vec![vec!["a", "b"]]);
    match t.get_mut_focused_cell() {
        Some(cell) => *cell = "z".to_string(),
        None => panic!("expected a focused cell"),
    }
    assert_eq!(cells(&t), vec![vec!["z", "b"]]);
    t.cell_focused = (5, 0);
    assert!(t.get_mut_focused_cell().is_none());
}

#[test]
fn mutable_coordinate_borrows_move_the_focus() {
    let mut t = grid(vec![vec!["a", "b"], vec!["c", "d"]]);
    match t.get_mut_focused_cell_coordinates() {
        Some((row, col)) => {
            *row = 1;
            *col = 1;
        }
        None => panic!("expected a focused cell"),
    }
    assert_eq!(t.cell_focused, (1, 1));
    assert_eq!(t.get_focused_cell_coordinates(), Some((1, 1)));
    t.cell_focused = (0, 9);
    assert!(t.get_mut_focused_cell_coordinates().is_none());
    assert!(t.get_focused_cell_coordinates().is_none());
}

#[test]
fn commit_and_delete_request_a_save() {
    let mut t = grid(vec![vec!["a", "b"]]);
    assert!(t.take_save_request().is_none());
    t.handle_action(ch('e'));
    t.handle_action(key(KeyCode::Enter));
    let saved = t.take_save_request().expect("commit requests a save");
    assert_eq!(saved, "\"a\",\"b\"\n");
    assert!(t.take_save_request().is_none(), "request cleared once taken");
    t.handle_action(ch('d'));
    t.handle_action(ch('y'));
    let saved = t.take_save_request().expect("delete requests a save");
    assert_eq!(saved, "\"b\"\n");
}
