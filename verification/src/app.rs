//! The dispatcher: owns the active page, translates events through it,
//! routes each drained action back into it, and performs the page-level
//! transitions (quit, page switch).  The blocking event loop itself,
//! rendering and persistence writes live outside this crate; they call
//! in here for every decision.

use vstd::prelude::*;

use crate::action::event_to_action;
use crate::action::Action;
use crate::action::Event;
use crate::action::Page;
use crate::bus::ActionBus;
use crate::csv::clone_matrix;
use crate::csv::csv_text;
use crate::csv_table::GridView;
use crate::details::details_step;
use crate::details::initial_details_components;
use crate::details::Details;
use crate::details::LeafView;
use crate::home::fresh_grid;
use crate::home::home_step;
use crate::home::Home;

verus! {

/// The page currently shown, with its whole state.
pub enum ActivePage {
    Home(Home),
    Details(Details),
}

/// The mathematical state of an [`ActivePage`].
#[verifier::ext_equal]
pub enum PageView {
    Home(GridView),
    Details(Seq<LeafView>, int),
}

impl View for ActivePage {
    type V = PageView;

    open spec fn view(&self) -> PageView {
        match self {
            ActivePage::Home(h) => PageView::Home(h.csv_table@),
            ActivePage::Details(d) => PageView::Details(d.components.deep_view(), d.focused as int),
        }
    }
}

/// The state a page is (re)constructed in when the dispatcher switches
/// to it.  The home page always shows the initial matrix again; no
/// state is carried across a page switch.
pub open spec fn fresh_page(p: Page, template: Seq<Seq<Seq<char>>>) -> PageView {
    match p {
        Page::Home => PageView::Home(fresh_grid(template)),
        Page::Details => PageView::Details(initial_details_components(), 0 as int),
    }
}

/// One step of the active page.
pub open spec fn page_step(pv: PageView, a: Action) -> (PageView, Seq<Action>) {
    match pv {
        PageView::Home(g) => {
            let (g2, em) = home_step(g, a);
            (PageView::Home(g2), em)
        },
        PageView::Details(cs, f) => {
            let (cs2, f2, em) = details_step(cs, f, a);
            (PageView::Details(cs2, f2), em)
        },
    }
}

/// One step of the dispatcher on a drained action: the page handles it
/// first; then `Render` asks for a draw pass, `Quit` sets the
/// termination flag, and `ChangePage` replaces the page with a fresh
/// one.  The result is (quit flag, page, emitted actions, render).
pub open spec fn app_step(quit: bool, pv: PageView, template: Seq<Seq<Seq<char>>>, a: Action) -> (
    bool,
    PageView,
    Seq<Action>,
    bool,
) {
    let (pv1, em) = page_step(pv, a);
    let quit2 = quit || a is Quit;
    let render = a is Render;
    let pv2 = match a {
        Action::ChangePage(p) => fresh_page(p, template),
        _ => pv1,
    };
    (quit2, pv2, em, render)
}

/// The dispatcher's state: the termination flag, the active page, and
/// the initial matrix that a fresh home page shows.
pub struct App {
    pub should_quit: bool,
    pub page: ActivePage,
    /// The matrix a fresh home page is constructed with, kept as loaded
    /// at start-up.
    pub initial_matrix: Vec<Vec<String>>,
}

impl App {
    /// The active page's invariant.
    pub open spec fn wf(self) -> bool {
        match self.page {
            ActivePage::Home(h) => h.wf(),
            ActivePage::Details(d) => d.wf(),
        }
    }

    /// A fresh dispatcher showing the home page over `initial`.
    pub fn new(initial: Vec<Vec<String>>) -> (app: App)
        ensures
            app.wf(),
            !app.should_quit,
            app.page@ == fresh_page(Page::Home, initial.deep_view()),
            app.initial_matrix.deep_view() == initial.deep_view(),
    {
        let template = clone_matrix(&initial);
        App {
            should_quit: false,
            page: ActivePage::Home(Home::new(initial)),
            initial_matrix: template,
        }
    }

    /// Translate a raw terminal event through the active page into
    /// exactly one action.
    pub fn get_action(&self, event: Event) -> (a: Action)
        ensures
            a == event_to_action(event),
    {
        match &self.page {
            ActivePage::Home(h) => h.get_action(event),
            ActivePage::Details(d) => d.get_action(event),
        }
    }

    /// Replace the active page after an `Action::ChangePage`: the old
    /// page's component tree is discarded and a fresh one constructed.
    fn handle_change_component(&mut self, page: Page)
        ensures
            final(self).wf(),
            final(self).page@ == fresh_page(page, old(self).initial_matrix.deep_view()),
            final(self).should_quit == old(self).should_quit,
            final(self).initial_matrix == old(self).initial_matrix,
    {
        match page {
            Page::Home => {
                let m = clone_matrix(&self.initial_matrix);
                self.page = ActivePage::Home(Home::new(m));
            },
            Page::Details => {
                self.page = ActivePage::Details(Details::new());
            },
        }
    }

    /// Handle one drained action: the page sees it first, then the
    /// dispatcher reacts; everything follows [`app_step`] exactly.  The
    /// result says whether a draw pass is due.
    pub fn handle_action(&mut self, action: Action, bus: &mut ActionBus) -> (render: bool)
        requires
            old(self).wf(),
        ensures
            final(self).wf(),
            final(self).should_quit == app_step(
                old(self).should_quit,
                old(self).page@,
                old(self).initial_matrix.deep_view(),
                action,
            ).0,
            final(self).page@ == app_step(
                old(self).should_quit,
                old(self).page@,
                old(self).initial_matrix.deep_view(),
                action,
            ).1,
            final(bus)@ == old(bus)@ + app_step(
                old(self).should_quit,
                old(self).page@,
                old(self).initial_matrix.deep_view(),
                action,
            ).2,
            render == app_step(
                old(self).should_quit,
                old(self).page@,
                old(self).initial_matrix.deep_view(),
                action,
            ).3,
            final(self).initial_matrix == old(self).initial_matrix,
    {
        match &mut self.page {
            ActivePage::Home(h) => h.handle_action(action, bus),
            ActivePage::Details(d) => d.handle_action(action, bus),
        }
        let render = if let Action::Render = action {
            true
        } else {
            false
        };
        if let Action::Quit = action {
            self.should_quit = true;
        }
        if let Action::ChangePage(p) = action {
            self.handle_change_component(p);
        }
        render
    }

    /// Take the grid's pending persistence request, if any: the
    /// serialized matrix to write to the backing store.  The request is
    /// cleared either way, and nothing else changes.
    pub fn take_save_request(&mut self) -> (r: Option<String>)
        requires
            old(self).wf(),
        ensures
            final(self).wf(),
            final(self).should_quit == old(self).should_quit,
            final(self).initial_matrix == old(self).initial_matrix,
            old(self).page@ matches PageView::Details(_, _) ==> r is None && final(self).page@
                == old(self).page@,
            old(self).page@ matches PageView::Home(g) ==> {
                &&& final(self).page@ == PageView::Home(GridView { pending_save: false, ..g })
                &&& (g.pending_save ==> (r matches Some(s) && s@ == csv_text(g.matrix)))
                &&& (!g.pending_save ==> r is None)
            },
    {
        match &mut self.page {
            ActivePage::Home(h) => {
                let r = h.csv_table.take_save_request();
                proof {
                    assert(final(self).page@ =~~= (match old(self).page@ {
                        PageView::Home(g) => PageView::Home(GridView { pending_save: false, ..g }),
                        PageView::Details(cs, f) => PageView::Details(cs, f),
                    }));
                }
                r
            },
            ActivePage::Details(_) => None,
        }
    }
}

} // verus!
