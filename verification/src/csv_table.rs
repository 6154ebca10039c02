//! The spreadsheet-like cell grid: a matrix of string cells, a focused
//! coordinate, a modal in-place cell editor and a delete-confirmation
//! overlay.

use vstd::prelude::*;

use crate::action::Action;
use crate::action::KeyCode;
use crate::action::KeyEvent;
use crate::components::HandleActionResponse;
use crate::csv::csv_text;
use crate::csv::to_csv;
use crate::input::input_step;
use crate::input::Input;
use crate::input::InputView;
use crate::input::Mode;

verus! {

/// The grid component.  The two overlays are mutually exclusive; while
/// one is open it consumes every key before the grid's own key
/// interpretation runs.
pub struct CsvTable {
    /// Which cell is currently focused: (row, column).
    pub cell_focused: (usize, usize),
    /// Whether the component is visually focused.
    pub focused: bool,
    /// The matrix of rows and cells; rows may have different lengths.
    pub matrix: Vec<Vec<String>>,
    /// The in-place cell editor, present while the edit overlay is open.
    pub edit_input: Option<Input>,
    /// Whether the delete-confirmation overlay is open.
    pub show_delete_popup: bool,
    /// Set when a commit or a delete changed the matrix; cleared when the
    /// serialized matrix is taken for persistence.
    pub pending_save: bool,
}

/// The mathematical state of a [`CsvTable`].
#[verifier::ext_equal]
pub struct GridView {
    pub cell: (int, int),
    pub focused: bool,
    pub matrix: Seq<Seq<Seq<char>>>,
    pub edit: Option<InputView>,
    pub confirm: bool,
    pub pending_save: bool,
}

impl View for CsvTable {
    type V = GridView;

    open spec fn view(&self) -> GridView {
        GridView {
            cell: (self.cell_focused.0 as int, self.cell_focused.1 as int),
            focused: self.focused,
            matrix: self.matrix.deep_view(),
            edit: match self.edit_input {
                Some(i) => Some(i@),
                None => None,
            },
            confirm: self.show_delete_popup,
            pending_save: self.pending_save,
        }
    }
}

/// Does `(r, c)` address an existing cell of `m`?
pub open spec fn cell_exists(m: Seq<Seq<Seq<char>>>, r: int, c: int) -> bool {
    0 <= r < m.len() && 0 <= c < m[r].len()
}

/// The focused coordinate addresses an existing cell whenever its row
/// has one: in a non-empty matrix the row is in bounds and the column
/// sits inside the row (or at 0 when the row is empty); in an empty
/// matrix the coordinate is the origin.
pub open spec fn coord_ok(m: Seq<Seq<Seq<char>>>, cell: (int, int)) -> bool {
    &&& (m.len() == 0 ==> cell == (0 as int, 0 as int))
    &&& (m.len() > 0 ==> {
        &&& 0 <= cell.0 < m.len()
        &&& (m[cell.0].len() == 0 ==> cell.1 == 0)
        &&& (m[cell.0].len() > 0 ==> 0 <= cell.1 < m[cell.0].len())
    })
}

/// The editor overlay that an edit request opens on cell text `text`:
/// pre-populated, cursor at the end, in `Insert` mode.
pub open spec fn fresh_edit_overlay(text: Seq<char>) -> InputView {
    InputView { focused: true, text, mode: Mode::Insert, cursor: text.len() as int }
}

/// An edit request: if the focused cell exists, open the edit overlay
/// pre-populated with its text; otherwise nothing changes.
pub open spec fn grid_open_edit(g: GridView) -> GridView {
    if cell_exists(g.matrix, g.cell.0, g.cell.1) {
        GridView { edit: Some(fresh_edit_overlay(g.matrix[g.cell.0][g.cell.1])), ..g }
    } else {
        g
    }
}

/// The grid's reaction to a key while the edit overlay is open.  Enter
/// commits: the overlay's text is written into the focused cell, a save
/// is requested and the overlay closes.  Committing is entirely the
/// grid's responsibility: Enter is intercepted here, so the overlay's
/// own submit-and-clear path never runs for the grid's cell editor.
/// The escape and quit keys close
/// the overlay when it is in `Normal` mode, else they are forwarded to
/// it (Escape then only falls back to `Normal`); either way they are
/// consumed.  Every other key is forwarded to the overlay and never
/// reaches the grid's own key interpretation.
pub open spec fn grid_step_edit(g: GridView, iv: InputView, k: KeyEvent) -> (GridView,
    HandleActionResponse) {
    if k.code == KeyCode::Enter {
        if cell_exists(g.matrix, g.cell.0, g.cell.1) {
            (
                GridView {
                    matrix: g.matrix.update(
                        g.cell.0,
                        g.matrix[g.cell.0].update(g.cell.1, iv.text),
                    ),
                    edit: None,
                    pending_save: true,
                    ..g
                },
                HandleActionResponse::Handle,
            )
        } else {
            (GridView { edit: None, ..g }, HandleActionResponse::Handle)
        }
    } else if k.code == KeyCode::Esc || k.code == KeyCode::Char('q') {
        if iv.mode == Mode::Normal {
            (GridView { edit: None, ..g }, HandleActionResponse::Ignore)
        } else {
            (
                GridView { edit: Some(input_step(iv, Action::Key(k)).0), ..g },
                HandleActionResponse::Ignore,
            )
        }
    } else {
        (
            GridView { edit: Some(input_step(iv, Action::Key(k)).0), ..g },
            HandleActionResponse::Handle,
        )
    }
}

/// A delete of the focused cell: when it exists, it is removed from its
/// row, the cells after it shift left by one, a save is requested, and
/// the focused column is clamped back into the shortened row (to the
/// row's new last cell when the removed cell was the last, and to 0
/// when the row became empty).  When no cell is focused nothing
/// changes.
pub open spec fn grid_delete_focused(g: GridView) -> GridView {
    if cell_exists(g.matrix, g.cell.0, g.cell.1) {
        let new_row = g.matrix[g.cell.0].remove(g.cell.1);
        let new_col = if g.cell.1 < new_row.len() {
            g.cell.1
        } else if new_row.len() > 0 {
            new_row.len() - 1
        } else {
            0 as int
        };
        GridView {
            matrix: g.matrix.update(g.cell.0, new_row),
            cell: (g.cell.0, new_col),
            pending_save: true,
            ..g
        }
    } else {
        g
    }
}

/// The grid's reaction to a key while the delete confirmation is open:
/// only confirm, deny and the escape keys are meaningful; everything
/// else is suppressed.  Confirming removes the focused cell from its row
/// and requests a save; either choice closes the overlay.
pub open spec fn grid_step_confirm(g: GridView, k: KeyEvent) -> (GridView,
    HandleActionResponse) {
    match k.code {
        KeyCode::Char(c) => {
            if c == 'y' || c == 'Y' {
                (
                    GridView { confirm: false, ..grid_delete_focused(g) },
                    HandleActionResponse::Handle,
                )
            } else if c == 'n' || c == 'N' {
                (GridView { confirm: false, ..g }, HandleActionResponse::Handle)
            } else if c == 'q' {
                (GridView { confirm: false, ..g }, HandleActionResponse::Ignore)
            } else {
                (g, HandleActionResponse::Handle)
            }
        },
        KeyCode::Esc => (GridView { confirm: false, ..g }, HandleActionResponse::Ignore),
        _ => (g, HandleActionResponse::Handle),
    }
}

/// The grid's own key interpretation, used when no overlay is open.
/// Cursor movement never wraps: a vertical move is rejected silently
/// unless the target row holds a cell in the kept column, a move left
/// stops at the first column, and a move right clamps to the row's last
/// column; `e` or Enter request an edit; `d` opens the delete
/// confirmation.
pub open spec fn grid_step_base(g: GridView, k: KeyEvent) -> (GridView, HandleActionResponse) {
    match k.code {
        KeyCode::Char(c) => {
            if c == 'j' {
                (
                    if cell_exists(g.matrix, g.cell.0 + 1, g.cell.1) {
                        GridView { cell: (g.cell.0 + 1, g.cell.1), ..g }
                    } else {
                        g
                    },
                    HandleActionResponse::Handle,
                )
            } else if c == 'k' {
                (
                    if cell_exists(g.matrix, g.cell.0 - 1, g.cell.1) {
                        GridView { cell: (g.cell.0 - 1, g.cell.1), ..g }
                    } else {
                        g
                    },
                    HandleActionResponse::Handle,
                )
            } else if c == 'h' {
                (
                    if cell_exists(g.matrix, g.cell.0, g.cell.1) && g.cell.1 > 0 {
                        GridView { cell: (g.cell.0, g.cell.1 - 1), ..g }
                    } else {
                        g
                    },
                    HandleActionResponse::Handle,
                )
            } else if c == 'l' {
                (
                    if 0 <= g.cell.0 < g.matrix.len() && g.matrix[g.cell.0].len() > 0 {
                        GridView {
                            cell: (
                                g.cell.0,
                                if g.cell.1 < g.matrix[g.cell.0].len() - 1 {
                                    g.cell.1 + 1
                                } else {
                                    g.matrix[g.cell.0].len() - 1
                                },
                            ),
                            ..g
                        }
                    } else {
                        g
                    },
                    HandleActionResponse::Handle,
                )
            } else if c == 'e' {
                (grid_open_edit(g), HandleActionResponse::Handle)
            } else if c == 'd' {
                (GridView { confirm: true, ..g }, HandleActionResponse::Handle)
            } else {
                (g, HandleActionResponse::Handle)
            }
        },
        KeyCode::Enter => (grid_open_edit(g), HandleActionResponse::Handle),
        _ => (g, HandleActionResponse::Handle),
    }
}

/// One step of the grid's state machine: the state and response after
/// handling `a` in state `g`.  Non-key actions never change the grid.
pub open spec fn grid_step(g: GridView, a: Action) -> (GridView, HandleActionResponse) {
    match a {
        Action::Key(k) => match g.edit {
            Some(iv) => grid_step_edit(g, iv, k),
            None => if g.confirm {
                grid_step_confirm(g, k)
            } else {
                grid_step_base(g, k)
            },
        },
        _ => (g, HandleActionResponse::Handle),
    }
}

impl CsvTable {
    /// The grid's invariant: the focused coordinate addresses an
    /// existing cell whenever its row has one (see [`coord_ok`]), an
    /// open editor's cursor sits inside its buffer, and the two
    /// overlays are never open together.
    pub open spec fn wf(self) -> bool {
        &&& coord_ok(self@.matrix, self@.cell)
        &&& (self@.edit matches Some(iv) ==> iv.cursor <= iv.text.len())
        &&& !(self@.edit is Some && self@.confirm)
    }

    /// An empty, focused grid with the cursor at the origin.
    pub fn new() -> (t: CsvTable)
        ensures
            t@ == (GridView {
                cell: (0 as int, 0 as int),
                focused: true,
                matrix: Seq::<Seq<Seq<char>>>::empty(),
                edit: None::<InputView>,
                confirm: false,
                pending_save: false,
            }),
            t.wf(),
    {
        let t = CsvTable {
            cell_focused: (0, 0),
            focused: true,
            matrix: Vec::new(),
            edit_input: None,
            show_delete_popup: false,
            pending_save: false,
        };
        proof {
            assert(t@ =~~= (GridView {
                cell: (0 as int, 0 as int),
                focused: true,
                matrix: Seq::<Seq<Seq<char>>>::empty(),
                edit: None::<InputView>,
                confirm: false,
                pending_save: false,
            }));
        }
        t
    }

    /// Builder: replace the matrix; the focused coordinate and all
    /// other state are kept as they are.  The grid is well formed
    /// afterwards when the kept coordinate suits the new matrix.
    pub fn matrix(self, matrix: Vec<Vec<String>>) -> (t: CsvTable)
        ensures
            t@ == (GridView { matrix: matrix.deep_view(), ..self@ }),
            self.wf() && coord_ok(matrix.deep_view(), self@.cell) ==> t.wf(),
    {
        let t = CsvTable { matrix, ..self };
        proof {
            assert(t@ =~~= (GridView { matrix: t.matrix.deep_view(), ..self@ }));
        }
        t
    }

    /// The focused cell's text, when the focused coordinate addresses an
    /// existing cell.
    pub fn get_focused_cell(&self) -> (r: Option<&String>)
        ensures
            match r {
                Some(s) => cell_exists(self@.matrix, self@.cell.0, self@.cell.1) && s@
                    == self@.matrix[self@.cell.0][self@.cell.1],
                None => !cell_exists(self@.matrix, self@.cell.0, self@.cell.1),
            },
    {
        if self.cell_focused.0 < self.matrix.len() {
            let row = &self.matrix[self.cell_focused.0];
            if self.cell_focused.1 < row.len() {
                Some(&row[self.cell_focused.1])
            } else {
                None
            }
        } else {
            None
        }
    }

    /// A mutable borrow of the focused cell's text, when the focused
    /// coordinate addresses an existing cell.  Writing through the
    /// borrow changes exactly that cell.
    pub fn get_mut_focused_cell(&mut self) -> (r: Option<&mut String>)
        ensures
            cell_exists(old(self)@.matrix, old(self)@.cell.0, old(self)@.cell.1) ==> (r
                matches Some(s) && *s == old(self).matrix@[old(self)@.cell.0]@[old(self)@.cell.1]
                && final(self).matrix@.len() == old(self).matrix@.len() && final(self).matrix@[old(self)@.cell.0]@ == old(self).matrix@[old(self)@.cell.0]@.update(
                old(self)@.cell.1,
                *final(s),
            ) && (forall|r2: int|
                0 <= r2 < old(self).matrix@.len() && r2 != old(self)@.cell.0
                    ==> final(self).matrix@[r2] == old(self).matrix@[r2]) && final(self).cell_focused == old(self).cell_focused && final(self).focused == old(self).focused
                && final(self).edit_input == old(self).edit_input && final(self).show_delete_popup == old(self).show_delete_popup && final(self).pending_save == old(
                self,
            ).pending_save),
            !cell_exists(old(self)@.matrix, old(self)@.cell.0, old(self)@.cell.1) ==> r is None
                && *final(self) == *old(self),
    {
        if self.cell_focused.0 < self.matrix.len() && self.cell_focused.1 < self.matrix[self.cell_focused.0].len() {
            let c = self.cell_focused.1;
            let row = &mut self.matrix[self.cell_focused.0];
            Some(&mut row[c])
        } else {
            None
        }
    }

    /// Mutable borrows of the focused coordinate, handed out only when
    /// it addresses an existing cell.  Writing through them moves the
    /// focus.
    pub fn get_mut_focused_cell_coordinates(&mut self) -> (r: Option<(&mut usize, &mut usize)>)
        ensures
            cell_exists(old(self)@.matrix, old(self)@.cell.0, old(self)@.cell.1) ==> (r
                matches Some(rc) && *rc.0 == old(self).cell_focused.0 && *rc.1 == old(
                self,
            ).cell_focused.1 && final(self).cell_focused == (*final(rc.0), *final(rc.1))
                && final(self).matrix == old(self).matrix && final(self).focused == old(
                self,
            ).focused && final(self).edit_input == old(self).edit_input && final(self).show_delete_popup == old(self).show_delete_popup && final(self).pending_save == old(
                self,
            ).pending_save),
            !cell_exists(old(self)@.matrix, old(self)@.cell.0, old(self)@.cell.1) ==> r is None
                && *final(self) == *old(self),
    {
        if self.cell_focused.0 < self.matrix.len() && self.cell_focused.1 < self.matrix[self.cell_focused.0].len() {
            Some((&mut self.cell_focused.0, &mut self.cell_focused.1))
        } else {
            None
        }
    }

    /// The focused coordinate, when it addresses an existing cell.
    pub fn get_focused_cell_coordinates(&self) -> (r: Option<(usize, usize)>)
        ensures
            match r {
                Some(rc) => cell_exists(self@.matrix, self@.cell.0, self@.cell.1) && rc.0 as int
                    == self@.cell.0 && rc.1 as int == self@.cell.1,
                None => !cell_exists(self@.matrix, self@.cell.0, self@.cell.1),
            },
    {
        if self.cell_focused.0 < self.matrix.len() {
            if self.cell_focused.1 < self.matrix[self.cell_focused.0].len() {
                Some((self.cell_focused.0, self.cell_focused.1))
            } else {
                None
            }
        } else {
            None
        }
    }

    /// Remove the focused cell from its row and return its text; `None`
    /// (and no change) when the focused coordinate addresses no cell.  A
    /// successful deletion requests a save.
    pub fn delete_focused_cell(&mut self) -> (r: Option<String>)
        requires
            old(self).wf(),
        ensures
            final(self).wf(),
            cell_exists(old(self)@.matrix, old(self)@.cell.0, old(self)@.cell.1) ==> {
                &&& r matches Some(s) && s@ == old(self)@.matrix[old(self)@.cell.0][old(
                    self,
                )@.cell.1]
                &&& final(self)@ == grid_delete_focused(old(self)@)
            },
            !cell_exists(old(self)@.matrix, old(self)@.cell.0, old(self)@.cell.1) ==> r is None
                && final(self)@ == old(self)@,
    {
        let r0 = self.cell_focused.0;
        let c = self.cell_focused.1;
        if r0 < self.matrix.len() && c < self.matrix[r0].len() {
            let row = &mut self.matrix[r0];
            let s = row.remove(c);
            let new_len = row.len();
            if c < new_len {
            } else if new_len > 0 {
                self.cell_focused.1 = new_len - 1;
            } else {
                self.cell_focused.1 = 0;
            }
            self.pending_save = true;
            proof {
                assert(final(self)@ =~~= grid_delete_focused(old(self)@));
            }
            Some(s)
        } else {
            None
        }
    }

    /// The matrix serialized in the persistence format.
    pub fn to_csv_text(&self) -> (r: String)
        ensures
            r@ == csv_text(self@.matrix),
    {
        to_csv(&self.matrix)
    }

    /// Take the pending persistence request, if any: the serialized
    /// matrix to write out.  The request is cleared either way.
    pub fn take_save_request(&mut self) -> (r: Option<String>)
        ensures
            final(self)@ == (GridView { pending_save: false, ..old(self)@ }),
            old(self).wf() ==> final(self).wf(),
            old(self)@.pending_save ==> (r matches Some(s) && s@ == csv_text(old(self)@.matrix)),
            !old(self)@.pending_save ==> r is None,
    {
        if self.pending_save {
            self.pending_save = false;
            let r = Some(to_csv(&self.matrix));
            proof {
                assert(final(self)@ =~~= (GridView { pending_save: false, ..old(self)@ }));
            }
            r
        } else {
            proof {
                assert(final(self)@ =~~= (GridView { pending_save: false, ..old(self)@ }));
            }
            None
        }
    }

    /// Open the edit overlay on the focused cell, when it exists.
    fn open_edit(&mut self)
        requires
            old(self).wf(),
            old(self)@.edit is None,
            !old(self)@.confirm,
        ensures
            final(self).wf(),
            final(self)@ == grid_open_edit(old(self)@),
    {
        if self.cell_focused.0 < self.matrix.len() {
            let r = self.cell_focused.0;
            let c = self.cell_focused.1;
            if c < self.matrix[r].len() {
                let text = self.matrix[r][c].clone();
                let input = Input::new().value(text).focused(true).mode(Mode::Insert);
                self.edit_input = Some(input);
                proof {
                    assert(final(self)@ =~~= grid_open_edit(old(self)@));
                }
            }
        }
    }

    /// Handle a key while the edit overlay is open.
    fn handle_edit_key(&mut self, k: KeyEvent) -> (r: HandleActionResponse)
        requires
            old(self).wf(),
            old(self)@.edit is Some,
        ensures
            final(self).wf(),
            (final(self)@, r) == grid_step_edit(old(self)@, old(self)@.edit->0, k),
    {
        if let KeyCode::Enter = k.code {
            let text: String = match &self.edit_input {
                Some(i) => i.value.clone(),
                None => String::new(),
            };
            if self.cell_focused.0 < self.matrix.len() {
                let c = self.cell_focused.1;
                let row = &mut self.matrix[self.cell_focused.0];
                if c < row.len() {
                    row[c] = text;
                    self.pending_save = true;
                }
            }
            self.edit_input = None;
            proof {
                assert(final(self)@ =~~= grid_step_edit(old(self)@, old(self)@.edit->0, k).0);
            }
            HandleActionResponse::Handle
        } else {
            let is_escape = match k.code {
                KeyCode::Esc => true,
                KeyCode::Char(c) => c == 'q',
                _ => false,
            };
            let in_normal_mode = match &self.edit_input {
                Some(i) => match i.mode {
                    Mode::Normal => true,
                    Mode::Insert => false,
                },
                None => false,
            };
            if is_escape && in_normal_mode {
                self.edit_input = None;
                proof {
                    assert(final(self)@ =~~= grid_step_edit(old(self)@, old(self)@.edit->0, k).0);
                }
                HandleActionResponse::Ignore
            } else {
                if let Some(input) = &mut self.edit_input {
                    let _ = input.handle_action(Action::Key(k));
                }
                proof {
                    assert(final(self)@ =~~= grid_step_edit(old(self)@, old(self)@.edit->0, k).0);
                }
                if is_escape {
                    HandleActionResponse::Ignore
                } else {
                    HandleActionResponse::Handle
                }
            }
        }
    }

    /// Handle a key while the delete confirmation is open.
    fn handle_confirm_key(&mut self, k: KeyEvent) -> (r: HandleActionResponse)
        requires
            old(self).wf(),
            old(self)@.edit is None,
            old(self)@.confirm,
        ensures
            final(self).wf(),
            (final(self)@, r) == grid_step_confirm(old(self)@, k),
    {
        match k.code {
            KeyCode::Char(c) => {
                if c == 'y' || c == 'Y' {
                    self.show_delete_popup = false;
                    let _ = self.delete_focused_cell();
                    proof {
                        assert(final(self)@ =~~= grid_step_confirm(old(self)@, k).0);
                    }
                    HandleActionResponse::Handle
                } else if c == 'n' || c == 'N' {
                    self.show_delete_popup = false;
                    proof {
                        assert(final(self)@ =~~= grid_step_confirm(old(self)@, k).0);
                    }
                    HandleActionResponse::Handle
                } else if c == 'q' {
                    self.show_delete_popup = false;
                    proof {
                        assert(final(self)@ =~~= grid_step_confirm(old(self)@, k).0);
                    }
                    HandleActionResponse::Ignore
                } else {
                    HandleActionResponse::Handle
                }
            },
            KeyCode::Esc => {
                self.show_delete_popup = false;
                proof {
                    assert(final(self)@ =~~= grid_step_confirm(old(self)@, k).0);
                }
                HandleActionResponse::Ignore
            },
            _ => HandleActionResponse::Handle,
        }
    }

    /// Handle a key when no overlay is open.
    fn handle_base_key(&mut self, k: KeyEvent) -> (r: HandleActionResponse)
        requires
            old(self).wf(),
            old(self)@.edit is None,
            !old(self)@.confirm,
        ensures
            final(self).wf(),
            (final(self)@, r) == grid_step_base(old(self)@, k),
    {
        let n = self.matrix.len();
        match k.code {
            KeyCode::Char(c) => {
                if c == 'j' {
                    if self.cell_focused.0 + 1 < n && self.cell_focused.1 < self.matrix[self.cell_focused.0 + 1].len() {
                        self.cell_focused.0 = self.cell_focused.0 + 1;
                    }
                } else if c == 'k' {
                    if self.cell_focused.0 > 0 && self.cell_focused.1 < self.matrix[self.cell_focused.0 - 1].len() {
                        self.cell_focused.0 = self.cell_focused.0 - 1;
                    }
                } else if c == 'h' {
                    if self.cell_focused.0 < self.matrix.len() {
                        let rl = self.matrix[self.cell_focused.0].len();
                        if self.cell_focused.1 < rl && self.cell_focused.1 > 0 {
                            self.cell_focused.1 = self.cell_focused.1 - 1;
                        }
                    }
                } else if c == 'l' {
                    if self.cell_focused.0 < self.matrix.len() {
                        let rl = self.matrix[self.cell_focused.0].len();
                        if rl > 0 {
                            if self.cell_focused.1 < rl - 1 {
                                self.cell_focused.1 = self.cell_focused.1 + 1;
                            } else {
                                self.cell_focused.1 = rl - 1;
                            }
                        }
                    }
                } else if c == 'e' {
                    self.open_edit();
                } else if c == 'd' {
                    self.show_delete_popup = true;
                }
                proof {
                    assert(final(self)@ =~~= grid_step_base(old(self)@, k).0);
                }
                HandleActionResponse::Handle
            },
            KeyCode::Enter => {
                self.open_edit();
                HandleActionResponse::Handle
            },
            _ => HandleActionResponse::Handle,
        }
    }

    /// Handle one action: the grid's state and response follow
    /// [`grid_step`] exactly.
    pub fn handle_action(&mut self, action: Action) -> (r: HandleActionResponse)
        requires
            old(self).wf(),
        ensures
            final(self).wf(),
            (final(self)@, r) == grid_step(old(self)@, action),
    {
        let k = match action {
            Action::Key(k) => k,
            _ => {
                return HandleActionResponse::Handle;
            },
        };
        if self.edit_input.is_some() {
            self.handle_edit_key(k)
        } else if self.show_delete_popup {
            self.handle_confirm_key(k)
        } else {
            self.handle_base_key(k)
        }
    }

    /// Mark the grid visually focused.
    pub fn focus(&mut self)
        ensures
            final(self)@ == (GridView { focused: true, ..old(self)@ }),
            old(self).wf() ==> final(self).wf(),
    {
        self.focused = true;
        proof {
            assert(final(self)@ =~~= (GridView { focused: true, ..old(self)@ }));
        }
    }

    /// Clear the grid's visual focus.
    pub fn unfocus(&mut self)
        ensures
            final(self)@ == (GridView { focused: false, ..old(self)@ }),
            old(self).wf() ==> final(self).wf(),
    {
        self.focused = false;
        proof {
            assert(final(self)@ =~~= (GridView { focused: false, ..old(self)@ }));
        }
    }
}

/// LAW: with no overlay open, a cursor-movement key never moves the
/// focused coordinate off an existing cell, never changes the matrix,
/// and never wraps: from any existing cell every move lands on an
/// existing cell; moving up at the first row or down at the last row
/// changes nothing; and a vertical move whose target row has no cell in
/// the kept column changes nothing.
pub proof fn lemma_cursor_movement(g: GridView, k: KeyEvent)
    requires
        g.edit is None,
        !g.confirm,
        cell_exists(g.matrix, g.cell.0, g.cell.1),
    ensures
        ({
            let g2 = grid_step(g, Action::Key(k)).0;
            &&& (k.code == KeyCode::Char('j') || k.code == KeyCode::Char('k') || k.code
                == KeyCode::Char('h') || k.code == KeyCode::Char('l')) ==> {
                &&& cell_exists(g2.matrix, g2.cell.0, g2.cell.1)
                &&& g2.matrix == g.matrix
                &&& g2.edit is None
                &&& !g2.confirm
            }
            &&& (k.code == KeyCode::Char('k') && g.cell.0 == 0) ==> g2 == g
            &&& (k.code == KeyCode::Char('j') && g.cell.0 == g.matrix.len() - 1) ==> g2 == g
            &&& (k.code == KeyCode::Char('j') && !cell_exists(g.matrix, g.cell.0 + 1, g.cell.1))
                ==> g2 == g
            &&& (k.code == KeyCode::Char('k') && !cell_exists(g.matrix, g.cell.0 - 1, g.cell.1))
                ==> g2 == g
            &&& (k.code == KeyCode::Char('h') && g.cell.1 == 0) ==> g2 == g
        }),
{
}

/// LAW: opening the edit overlay and immediately canceling it, without
/// a commit, leaves the matrix unchanged and the overlay closed.  (The
/// overlay opens in insert mode, so canceling takes one Escape to fall
/// back to normal mode and one to close.)
pub proof fn lemma_edit_cancel_preserves_matrix(g: GridView)
    requires
        g.edit is None,
        !g.confirm,
    ensures
        ({
            let open_key = Action::Key(KeyEvent { code: KeyCode::Char('e'), ctrl: false });
            let esc = Action::Key(KeyEvent { code: KeyCode::Esc, ctrl: false });
            let g1 = grid_step(g, open_key).0;
            let g2 = grid_step(g1, esc).0;
            let g3 = grid_step(g2, esc).0;
            &&& g3.matrix == g.matrix
            &&& g3.edit is None
            &&& g3.cell == g.cell
            &&& !g3.pending_save || g.pending_save
        }),
{
}

/// LAW: committing the edit overlay writes exactly its text into the
/// focused cell, changes no other cell, and closes the overlay; a
/// subsequent edit request on the same cell pre-populates with that
/// text.
pub proof fn lemma_edit_commit(g: GridView, iv: InputView)
    requires
        g.edit == Some(iv),
        !g.confirm,
        cell_exists(g.matrix, g.cell.0, g.cell.1),
    ensures
        ({
            let enter = Action::Key(KeyEvent { code: KeyCode::Enter, ctrl: false });
            let open_key = Action::Key(KeyEvent { code: KeyCode::Char('e'), ctrl: false });
            let g1 = grid_step(g, enter).0;
            let g2 = grid_step(g1, open_key).0;
            &&& g1.edit is None
            &&& g1.matrix.len() == g.matrix.len()
            &&& g1.matrix[g.cell.0].len() == g.matrix[g.cell.0].len()
            &&& g1.matrix[g.cell.0][g.cell.1] == iv.text
            &&& forall|r2: int|
                0 <= r2 < g.matrix.len() && r2 != g.cell.0 ==> #[trigger] g1.matrix[r2]
                    == g.matrix[r2]
            &&& forall|c2: int|
                0 <= c2 < g.matrix[g.cell.0].len() && c2 != g.cell.1
                    ==> #[trigger] g1.matrix[g.cell.0][c2] == g.matrix[g.cell.0][c2]
            &&& g2.edit == Some(fresh_edit_overlay(iv.text))
        }),
{
}

/// LAW: confirming a delete removes exactly the focused cell from its
/// row, shifting the cells after it left by one and shortening the row
/// by one, and touches no other row; the focused coordinate stays on an
/// existing cell of the shortened row while it has one.  Denying leaves
/// the matrix and the coordinate unchanged.  Either choice closes the
/// confirmation.
pub proof fn lemma_confirm_delete(g: GridView)
    requires
        g.edit is None,
        g.confirm,
        cell_exists(g.matrix, g.cell.0, g.cell.1),
    ensures
        ({
            let gy = grid_step(g, Action::Key(KeyEvent { code: KeyCode::Char('y'), ctrl: false })).0;
            &&& !gy.confirm
            &&& gy.matrix.len() == g.matrix.len()
            &&& gy.matrix[g.cell.0].len() == g.matrix[g.cell.0].len() - 1
            &&& forall|i: int|
                0 <= i < g.cell.1 ==> #[trigger] gy.matrix[g.cell.0][i] == g.matrix[g.cell.0][i]
            &&& forall|i: int|
                g.cell.1 <= i < gy.matrix[g.cell.0].len() ==> #[trigger] gy.matrix[g.cell.0][i]
                    == g.matrix[g.cell.0][i + 1]
            &&& forall|r2: int|
                0 <= r2 < g.matrix.len() && r2 != g.cell.0 ==> #[trigger] gy.matrix[r2]
                    == g.matrix[r2]
            &&& gy.cell.0 == g.cell.0
            &&& gy.matrix[g.cell.0].len() > 0 ==> cell_exists(gy.matrix, gy.cell.0, gy.cell.1)
            &&& gy.matrix[g.cell.0].len() == 0 ==> gy.cell.1 == 0
        }),
        ({
            let gn = grid_step(g, Action::Key(KeyEvent { code: KeyCode::Char('n'), ctrl: false })).0;
            &&& !gn.confirm
            &&& gn.matrix == g.matrix
            &&& gn.cell == g.cell
        }),
{
    g.matrix[g.cell.0].remove_ensures(g.cell.1);
}

} // verus!
