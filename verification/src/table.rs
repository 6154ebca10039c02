//! A focusable table component with a selected row: `j` and `k` cycle
//! the selection, Enter asks the dispatcher for the home page.

use vstd::prelude::*;

use crate::action::Action;
use crate::action::KeyCode;
use crate::action::Page;
use crate::bus::ActionBus;
use crate::components::HandleActionResponse;

verus! {

/// The table component: display rows of cell texts and a selected row.
pub struct Table {
    pub focused: bool,
    pub selected: Option<usize>,
    pub rows: Vec<Vec<String>>,
}

/// The mathematical state of a [`Table`].
#[verifier::ext_equal]
pub struct TableView {
    pub focused: bool,
    pub selected: Option<int>,
    pub rows: Seq<Seq<Seq<char>>>,
}

impl View for Table {
    type V = TableView;

    open spec fn view(&self) -> TableView {
        TableView {
            focused: self.focused,
            selected: match self.selected {
                Some(i) => Some(i as int),
                None => None,
            },
            rows: self.rows.deep_view(),
        }
    }
}

/// The display rows a fresh table holds.
pub open spec fn initial_table_rows() -> Seq<Seq<Seq<char>>> {
    seq![seq!["Cell1"@, "Cell2"@], seq!["Cell3"@, "Cell4"@]]
}

/// The selection after handling `a` over `n` rows: `j` advances and
/// wraps, `k` retreats and wraps.
pub open spec fn table_step_selected(sel: Option<int>, n: int, a: Action) -> Option<int> {
    match a {
        Action::Key(k) => if k.code == KeyCode::Char('j') {
            match sel {
                Some(v) => Some((v + 1) % n),
                None => None,
            }
        } else if k.code == KeyCode::Char('k') {
            match sel {
                Some(v) => Some(
                    if v == 0 {
                        n - 1
                    } else {
                        v - 1
                    },
                ),
                None => None,
            }
        } else {
            sel
        },
        _ => sel,
    }
}

/// What the table emits to the bus: Enter asks for the home page.
pub open spec fn table_emits(a: Action) -> Seq<Action> {
    match a {
        Action::Key(k) => if k.code == KeyCode::Enter {
            seq![Action::ChangePage(Page::Home)]
        } else {
            Seq::empty()
        },
        _ => Seq::empty(),
    }
}

impl Table {
    /// The selection, when present, addresses one of the rows.
    pub open spec fn wf(self) -> bool {
        self@.selected matches Some(i) ==> 0 <= i < self@.rows.len()
    }

    /// A fresh, unfocused table with its display rows and the first row
    /// selected.
    pub fn new() -> (t: Table)
        ensures
            t.wf(),
            t@ == (TableView {
                focused: false,
                selected: Some(0 as int),
                rows: initial_table_rows(),
            }),
    {
        let mut r1: Vec<String> = Vec::new();
        r1.push("Cell1".to_owned());
        r1.push("Cell2".to_owned());
        let mut r2: Vec<String> = Vec::new();
        r2.push("Cell3".to_owned());
        r2.push("Cell4".to_owned());
        let mut rows: Vec<Vec<String>> = Vec::new();
        rows.push(r1);
        rows.push(r2);
        let t = Table { focused: false, selected: Some(0), rows };
        proof {
            assert(t@.rows =~~= initial_table_rows());
            assert(t@ =~~= (TableView {
                focused: false,
                selected: Some(0 as int),
                rows: initial_table_rows(),
            }));
        }
        t
    }

    /// Handle one action: the selection follows [`table_step_selected`],
    /// the bus grows by [`table_emits`], and propagation always
    /// continues.
    pub fn handle_action(&mut self, action: Action, bus: &mut ActionBus) -> (r:
        HandleActionResponse)
        requires
            old(self).wf(),
        ensures
            final(self).wf(),
            r == HandleActionResponse::Handle,
            final(self)@ == (TableView {
                selected: table_step_selected(
                    old(self)@.selected,
                    old(self)@.rows.len() as int,
                    action,
                ),
                ..old(self)@
            }),
            final(bus)@ == old(bus)@ + table_emits(action),
    {
        match action {
            Action::Key(k) => match k.code {
                KeyCode::Char(c) => {
                    if c == 'j' {
                        if let Some(v) = self.selected {
                            let n = self.rows.len();
                            self.selected = Some((v + 1) % n);
                        }
                    } else if c == 'k' {
                        if let Some(v) = self.selected {
                            let n = self.rows.len();
                            self.selected = Some(
                                if v == 0 {
                                    n - 1
                                } else {
                                    v - 1
                                },
                            );
                        }
                    }
                },
                KeyCode::Enter => {
                    bus.send(Action::ChangePage(Page::Home));
                },
                _ => {},
            },
            _ => {},
        }
        proof {
            assert(bus@ =~= old(bus)@ + table_emits(action));
            assert(self@ =~~= (TableView {
                selected: table_step_selected(
                    old(self)@.selected,
                    old(self)@.rows.len() as int,
                    action,
                ),
                ..old(self)@
            }));
        }
        HandleActionResponse::Handle
    }

    /// Mark the table visually focused.
    pub fn focus(&mut self)
        ensures
            final(self)@ == (TableView { focused: true, ..old(self)@ }),
            old(self).wf() ==> final(self).wf(),
    {
        self.focused = true;
        proof {
            assert(self@ =~~= (TableView { focused: true, ..old(self)@ }));
        }
    }

    /// Clear the table's visual focus.
    pub fn unfocus(&mut self)
        ensures
            final(self)@ == (TableView { focused: false, ..old(self)@ }),
            old(self).wf() ==> final(self).wf(),
    {
        self.focused = false;
        proof {
            assert(self@ =~~= (TableView { focused: false, ..old(self)@ }));
        }
    }
}

} // verus!
