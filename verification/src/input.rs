//! The modal text editor: a leaf component with a `Normal` and an
//! `Insert` mode, editing its buffer by code points.

use vstd::prelude::*;

use crate::action::Action;
use crate::action::KeyCode;
use crate::components::HandleActionResponse;
use crate::text::char_len;
use crate::text::insert_char_at;
use crate::text::remove_char_before;

verus! {

/// The editor's mode: `Normal` only navigates and switches mode,
/// `Insert` mutates the buffer.
#[derive(Clone, Copy, Debug, PartialEq, Eq, Structural)]
pub enum Mode {
    Normal,
    Insert,
}

impl Default for Mode {
    /// The editor starts out in `Normal` mode.
    fn default() -> (r: Self)
        ensures
            r == Mode::Normal,
    {
        Mode::Normal
    }
}

/// The modal text editor's state: a buffer, a cursor counted in code
/// points, a mode, and the focus flag.
pub struct Input {
    pub focused: bool,
    pub value: String,
    pub mode: Mode,
    pub cursor_position: usize,
}

/// The mathematical state of an [`Input`].
#[verifier::ext_equal]
pub struct InputView {
    pub focused: bool,
    pub text: Seq<char>,
    pub mode: Mode,
    pub cursor: int,
}

impl View for Input {
    type V = InputView;

    open spec fn view(&self) -> InputView {
        InputView {
            focused: self.focused,
            text: self.value@,
            mode: self.mode,
            cursor: self.cursor_position as int,
        }
    }
}

/// One step of the editor's state machine: the state and response after
/// handling `a` in state `v`.
///
/// In `Normal` mode only the insert key matters.  In `Insert` mode,
/// Escape falls back to `Normal` and is consumed; a character is inserted
/// at the cursor and consumed; Backspace removes the code point left of
/// the cursor (a no-op at position 0); Left and Right move the cursor by
/// one code point, clamped to the buffer; Enter clears the buffer and
/// resets the cursor.
pub open spec fn input_step(v: InputView, a: Action) -> (InputView, HandleActionResponse) {
    match a {
        Action::Key(k) => match v.mode {
            Mode::Normal => {
                if k.code == KeyCode::Char('i') {
                    (InputView { mode: Mode::Insert, ..v }, HandleActionResponse::Handle)
                } else {
                    (v, HandleActionResponse::Handle)
                }
            },
            Mode::Insert => match k.code {
                KeyCode::Esc => (
                    InputView { mode: Mode::Normal, ..v },
                    HandleActionResponse::Ignore,
                ),
                KeyCode::Char(c) => (
                    InputView {
                        text: v.text.subrange(0, v.cursor).push(c) + v.text.subrange(
                            v.cursor,
                            v.text.len() as int,
                        ),
                        cursor: v.cursor + 1,
                        ..v
                    },
                    HandleActionResponse::Ignore,
                ),
                KeyCode::Backspace => (
                    if v.cursor > 0 {
                        InputView {
                            text: v.text.subrange(0, v.cursor - 1) + v.text.subrange(
                                v.cursor,
                                v.text.len() as int,
                            ),
                            cursor: v.cursor - 1,
                            ..v
                        }
                    } else {
                        v
                    },
                    HandleActionResponse::Handle,
                ),
                KeyCode::Left => (
                    InputView { cursor: if v.cursor > 0 { v.cursor - 1 } else { 0 as int }, ..v },
                    HandleActionResponse::Handle,
                ),
                KeyCode::Right => (
                    InputView {
                        cursor: if v.cursor < v.text.len() {
                            v.cursor + 1
                        } else {
                            v.text.len() as int
                        },
                        ..v
                    },
                    HandleActionResponse::Handle,
                ),
                KeyCode::Enter => (
                    InputView { text: Seq::<char>::empty(), cursor: 0 as int, ..v },
                    HandleActionResponse::Handle,
                ),
                _ => (v, HandleActionResponse::Handle),
            },
        },
        _ => (v, HandleActionResponse::Handle),
    }
}

impl Input {
    /// The cursor always sits between 0 and the buffer's length in code
    /// points.
    pub open spec fn wf(self) -> bool {
        self@.cursor <= self@.text.len()
    }

    /// An empty, unfocused editor in `Normal` mode.
    pub fn new() -> (inp: Input)
        ensures
            inp@ == (InputView {
                focused: false,
                text: Seq::<char>::empty(),
                mode: Mode::Normal,
                cursor: 0 as int,
            }),
            inp.wf(),
    {
        Input { focused: false, value: String::new(), mode: Mode::Normal, cursor_position: 0 }
    }

    /// Builder: replace the buffer and put the cursor at its end.
    pub fn value(self, value: String) -> (r: Input)
        ensures
            r@ == (InputView { text: value@, cursor: value@.len() as int, ..self@ }),
            r.wf(),
    {
        let n = char_len(value.as_str());
        Input { value, cursor_position: n, ..self }
    }

    /// Builder: set the mode.
    pub fn mode(self, mode: Mode) -> (r: Input)
        ensures
            r@ == (InputView { mode, ..self@ }),
            self.wf() ==> r.wf(),
    {
        Input { mode, ..self }
    }

    /// Builder: set the focus flag.
    pub fn focused(self, focused: bool) -> (r: Input)
        ensures
            r@ == (InputView { focused, ..self@ }),
            self.wf() ==> r.wf(),
    {
        Input { focused, ..self }
    }

    fn move_cursor_left(&mut self)
        requires
            old(self).wf(),
        ensures
            final(self).wf(),
            final(self)@ == (InputView {
                cursor: if old(self)@.cursor > 0 {
                    old(self)@.cursor - 1
                } else {
                    0 as int
                },
                ..old(self)@
            }),
    {
        if self.cursor_position > 0 {
            self.cursor_position = self.cursor_position - 1;
        }
    }

    fn move_cursor_right(&mut self)
        requires
            old(self).wf(),
        ensures
            final(self).wf(),
            final(self)@ == (InputView {
                cursor: if old(self)@.cursor < old(self)@.text.len() {
                    old(self)@.cursor + 1
                } else {
                    old(self)@.text.len() as int
                },
                ..old(self)@
            }),
    {
        let n = char_len(self.value.as_str());
        if self.cursor_position < n {
            self.cursor_position = self.cursor_position + 1;
        }
    }

    fn enter_char(&mut self, new_char: char)
        requires
            old(self).wf(),
        ensures
            final(self).wf(),
            final(self)@ == (InputView {
                text: old(self)@.text.subrange(0, old(self)@.cursor).push(new_char) + old(
                    self,
                )@.text.subrange(old(self)@.cursor, old(self)@.text.len() as int),
                cursor: old(self)@.cursor + 1,
                ..old(self)@
            }),
    {
        let pos = self.cursor_position;
        self.value = insert_char_at(self.value.as_str(), pos, new_char);
        let m = char_len(self.value.as_str());
        assert(pos < m);
        self.cursor_position = pos + 1;
    }

    fn delete_char(&mut self)
        requires
            old(self).wf(),
        ensures
            final(self).wf(),
            final(self)@ == (if old(self)@.cursor > 0 {
                InputView {
                    text: old(self)@.text.subrange(0, old(self)@.cursor - 1) + old(
                        self,
                    )@.text.subrange(old(self)@.cursor, old(self)@.text.len() as int),
                    cursor: old(self)@.cursor - 1,
                    ..old(self)@
                }
            } else {
                old(self)@
            }),
    {
        if self.cursor_position != 0 {
            let pos = self.cursor_position;
            self.value = remove_char_before(self.value.as_str(), pos);
            self.cursor_position = pos - 1;
        }
    }

    fn submit_message(&mut self)
        ensures
            final(self).wf(),
            final(self)@ == (InputView { text: Seq::<char>::empty(), cursor: 0 as int, ..old(
                self,
            )@ }),
    {
        self.value = String::new();
        self.cursor_position = 0;
    }

    /// Handle one action: the editor's state and response follow
    /// [`input_step`] exactly.
    pub fn handle_action(&mut self, action: Action) -> (r: HandleActionResponse)
        requires
            old(self).wf(),
        ensures
            final(self).wf(),
            (final(self)@, r) == input_step(old(self)@, action),
    {
        match self.mode {
            Mode::Normal => {
                if let Action::Key(k) = action {
                    if let KeyCode::Char(c) = k.code {
                        if c == 'i' {
                            self.mode = Mode::Insert;
                        }
                    }
                }
                HandleActionResponse::Handle
            },
            Mode::Insert => {
                if let Action::Key(k) = action {
                    match k.code {
                        KeyCode::Esc => {
                            self.mode = Mode::Normal;
                            return HandleActionResponse::Ignore;
                        },
                        KeyCode::Char(c) => {
                            self.enter_char(c);
                            return HandleActionResponse::Ignore;
                        },
                        KeyCode::Backspace => {
                            self.delete_char();
                        },
                        KeyCode::Left => {
                            self.move_cursor_left();
                        },
                        KeyCode::Right => {
                            self.move_cursor_right();
                        },
                        KeyCode::Enter => {
                            self.submit_message();
                        },
                        _ => {},
                    }
                }
                HandleActionResponse::Handle
            },
        }
    }

    /// Mark the editor visually focused.
    pub fn focus(&mut self)
        ensures
            final(self)@ == (InputView { focused: true, ..old(self)@ }),
            old(self).wf() ==> final(self).wf(),
    {
        self.focused = true;
    }

    /// Clear the editor's visual focus.
    pub fn unfocus(&mut self)
        ensures
            final(self)@ == (InputView { focused: false, ..old(self)@ }),
            old(self).wf() ==> final(self).wf(),
    {
        self.focused = false;
    }
}

} // verus!
