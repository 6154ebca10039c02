//! The home page: the cell grid as its single region, plus the
//! page-level quit keys.

use vstd::prelude::*;

use crate::action::event_to_action;
use crate::action::Action;
use crate::action::Event;
use crate::action::KeyCode;
use crate::bus::ActionBus;
use crate::components::HandleActionResponse;
use crate::csv_table::grid_step;
use crate::csv_table::CsvTable;
use crate::csv_table::GridView;
use crate::input::InputView;

verus! {

/// One step of the home page: the grid handles the action first; only
/// when it answers `Handle` do the quit keys emit `Quit` to the bus.
pub open spec fn home_step(g: GridView, a: Action) -> (GridView, Seq<Action>) {
    let (g2, resp) = grid_step(g, a);
    match a {
        Action::Key(k) => if resp == HandleActionResponse::Handle && (k.code == KeyCode::Char('q')
            || k.code == KeyCode::Esc) {
            (g2, seq![Action::Quit])
        } else {
            (g2, Seq::empty())
        },
        _ => (g2, Seq::empty()),
    }
}

/// The state of a fresh grid over `matrix`: cursor at the origin, no
/// overlay open, nothing pending.
pub open spec fn fresh_grid(matrix: Seq<Seq<Seq<char>>>) -> GridView {
    GridView {
        cell: (0 as int, 0 as int),
        focused: true,
        matrix,
        edit: None::<InputView>,
        confirm: false,
        pending_save: false,
    }
}

/// The home page: the grid and the (single-element) focus index.
pub struct Home {
    pub csv_table: CsvTable,
    /// The component which is being focused; the grid is the only one.
    pub focused: usize,
}

impl Home {
    /// The page's invariant: the grid is well formed and the focus index
    /// addresses the single region.
    pub open spec fn wf(self) -> bool {
        self.csv_table.wf() && self.focused == 0
    }

    /// A fresh home page showing `matrix`.
    pub fn new(matrix: Vec<Vec<String>>) -> (h: Home)
        ensures
            h.wf(),
            h.csv_table@ == fresh_grid(matrix.deep_view()),
            h.focused == 0,
    {
        let h = Home { csv_table: CsvTable::new().matrix(matrix), focused: 0 };
        proof {
            assert(h.csv_table@ =~~= fresh_grid(h.csv_table.matrix.deep_view()));
        }
        h
    }

    /// Translate a raw terminal event into exactly one action.
    pub fn get_action(&self, event: Event) -> (a: Action)
        ensures
            a == event_to_action(event),
    {
        match event {
            Event::Error => Action::Noop,
            Event::Tick => Action::Tick,
            Event::Render => Action::Render,
            Event::Key(k) => Action::Key(k),
            Event::Quit => Action::Quit,
            Event::Other => Action::Noop,
        }
    }

    /// Handle one action: the grid sees it first, and only a `Handle`
    /// response lets the quit keys emit `Quit`; state and emissions
    /// follow [`home_step`] exactly.
    pub fn handle_action(&mut self, action: Action, bus: &mut ActionBus)
        requires
            old(self).wf(),
        ensures
            final(self).wf(),
            final(self).csv_table@ == home_step(old(self).csv_table@, action).0,
            final(self).focused == old(self).focused,
            final(bus)@ == old(bus)@ + home_step(old(self).csv_table@, action).1,
    {
        let resp = self.csv_table.handle_action(action);
        if let HandleActionResponse::Handle = resp {
            if let Action::Key(k) = action {
                let is_quit = match k.code {
                    KeyCode::Char(c) => c == 'q',
                    KeyCode::Esc => true,
                    _ => false,
                };
                if is_quit {
                    bus.send(Action::Quit);
                }
            }
        }
        proof {
            assert(bus@ =~= old(bus)@ + home_step(old(self).csv_table@, action).1);
        }
    }

    /// The home page has a single region, so advancing focus changes
    /// nothing.
    pub fn focus_next(&mut self)
        ensures
            *final(self) == *old(self),
    {
    }

    /// The home page has a single region, so retreating focus changes
    /// nothing.
    pub fn focus_prev(&mut self)
        ensures
            *final(self) == *old(self),
    {
    }
}

} // verus!
