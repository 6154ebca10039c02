//! A small focusable counter component: `j` decrements, `k` increments,
//! Enter asks the dispatcher for the details page.

use vstd::prelude::*;

use crate::action::Action;
use crate::action::KeyCode;
use crate::action::Page;
use crate::bus::ActionBus;
use crate::components::HandleActionResponse;

verus! {

/// The counter component.
pub struct Counter {
    pub value: i64,
    pub focused: bool,
}

/// The mathematical state of a [`Counter`].
pub struct CounterView {
    pub value: int,
    pub focused: bool,
}

impl View for Counter {
    type V = CounterView;

    open spec fn view(&self) -> CounterView {
        CounterView { value: self.value as int, focused: self.focused }
    }
}

/// The counter's value after handling `a`: `j` decrements and `k`
/// increments, each saturating at the value's bounds.
pub open spec fn counter_step(v: int, a: Action) -> int {
    match a {
        Action::Key(k) => if k.code == KeyCode::Char('j') {
            if v > i64::MIN {
                v - 1
            } else {
                v
            }
        } else if k.code == KeyCode::Char('k') {
            if v < i64::MAX {
                v + 1
            } else {
                v
            }
        } else {
            v
        },
        _ => v,
    }
}

/// What the counter emits to the bus: Enter asks for the details page.
pub open spec fn counter_emits(a: Action) -> Seq<Action> {
    match a {
        Action::Key(k) => if k.code == KeyCode::Enter {
            seq![Action::ChangePage(Page::Details)]
        } else {
            Seq::empty()
        },
        _ => Seq::empty(),
    }
}

impl Counter {
    /// A fresh, unfocused counter at zero.
    pub fn new() -> (c: Counter)
        ensures
            c@ == (CounterView { value: 0 as int, focused: false }),
    {
        Counter { value: 0, focused: false }
    }

    /// Handle one action: the value follows [`counter_step`], the bus
    /// grows by [`counter_emits`], and propagation always continues.
    pub fn handle_action(&mut self, action: Action, bus: &mut ActionBus) -> (r:
        HandleActionResponse)
        ensures
            r == HandleActionResponse::Handle,
            final(self)@ == (CounterView {
                value: counter_step(old(self)@.value, action),
                ..old(self)@
            }),
            final(bus)@ == old(bus)@ + counter_emits(action),
    {
        match action {
            Action::Key(k) => match k.code {
                KeyCode::Char(c) => {
                    if c == 'j' {
                        if self.value > i64::MIN {
                            self.value = self.value - 1;
                        }
                    } else if c == 'k' {
                        if self.value < i64::MAX {
                            self.value = self.value + 1;
                        }
                    }
                },
                KeyCode::Enter => {
                    bus.send(Action::ChangePage(Page::Details));
                },
                _ => {},
            },
            _ => {},
        }
        proof {
            assert(bus@ =~= old(bus)@ + counter_emits(action));
        }
        HandleActionResponse::Handle
    }

    /// Mark the counter visually focused.
    pub fn focus(&mut self)
        ensures
            final(self)@ == (CounterView { focused: true, ..old(self)@ }),
    {
        self.focused = true;
    }

    /// Clear the counter's visual focus.
    pub fn unfocus(&mut self)
        ensures
            final(self)@ == (CounterView { focused: false, ..old(self)@ }),
    {
        self.focused = false;
    }
}

} // verus!
