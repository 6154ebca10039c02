//! The typed actions that flow through the dispatch pipeline, and the plain
//! data carried by a key press or a raw terminal event.

use vstd::prelude::*;

verus! {

/// A page of the UI that can be asked for by an [`Action::ChangePage`].
#[derive(Clone, Copy, Debug, PartialEq, Eq, Structural)]
pub enum Page {
    Home,
    Details,
}

/// A key, reduced to the codes that the routing logic reads.  Every other
/// key the terminal can report is `Other`.
#[derive(Clone, Copy, Debug, PartialEq, Eq, Structural)]
pub enum KeyCode {
    Char(char),
    Enter,
    Esc,
    Backspace,
    Left,
    Right,
    Other,
}

/// A key press: the key code and whether the control modifier alone was
/// held with it.
#[derive(Clone, Copy, Debug, PartialEq, Eq, Structural)]
pub struct KeyEvent {
    pub code: KeyCode,
    pub ctrl: bool,
}

/// A raw event from the terminal event source.  Events a page does not
/// translate specially are `Other`.
#[derive(Clone, Copy, Debug, PartialEq, Eq, Structural)]
pub enum Event {
    Error,
    Tick,
    Render,
    Key(KeyEvent),
    Quit,
    Other,
}

/// A unit of intent flowing through the dispatch pipeline.  Actions are
/// immutable and copied by value to each level of propagation.
#[derive(Clone, Copy, Debug, PartialEq, Eq, Structural)]
pub enum Action {
    Tick,
    Key(KeyEvent),
    Quit,
    Render,
    Noop,
    /// Ask the dispatcher to render another page.
    ChangePage(Page),
}

/// How every page translates a raw terminal event into exactly one
/// action: one-to-one, with errors and unknown events becoming `Noop`.
pub open spec fn event_to_action(e: Event) -> Action {
    match e {
        Event::Error => Action::Noop,
        Event::Tick => Action::Tick,
        Event::Render => Action::Render,
        Event::Key(k) => Action::Key(k),
        Event::Quit => Action::Quit,
        Event::Other => Action::Noop,
    }
}

impl KeyEvent {
    /// A plain key press without the control modifier.
    pub fn plain(code: KeyCode) -> (k: KeyEvent)
        ensures
            k == (KeyEvent { code, ctrl: false }),
    {
        KeyEvent { code, ctrl: false }
    }
}

} // verus!
