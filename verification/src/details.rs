//! The details page: a focus chain over leaf components, with exactly
//! one focused member at a time, and page-level quit and focus
//! navigation keys.

use vstd::prelude::*;

use crate::action::event_to_action;
use crate::action::Action;
use crate::action::Event;
use crate::action::KeyCode;
use crate::bus::ActionBus;
use crate::components::HandleActionResponse;
use crate::counter::counter_emits;
use crate::counter::counter_step;
use crate::counter::Counter;
use crate::counter::CounterView;
use crate::input::input_step;
use crate::input::Input;
use crate::input::InputView;
use crate::input::Mode;
use crate::table::initial_table_rows;
use crate::table::table_emits;
use crate::table::table_step_selected;
use crate::table::Table;
use crate::table::TableView;

verus! {

/// The closed set of leaf components a page can compose.
pub enum Leaf {
    Table(Table),
    Input(Input),
    Counter(Counter),
}

/// The mathematical state of a [`Leaf`].
#[verifier::ext_equal]
pub enum LeafView {
    Table(TableView),
    Input(InputView),
    Counter(CounterView),
}

impl View for Leaf {
    type V = LeafView;

    open spec fn view(&self) -> LeafView {
        match self {
            Leaf::Table(t) => LeafView::Table(t@),
            Leaf::Input(i) => LeafView::Input(i@),
            Leaf::Counter(c) => LeafView::Counter(c@),
        }
    }
}

impl DeepView for Leaf {
    type V = LeafView;

    open spec fn deep_view(&self) -> LeafView {
        self@
    }
}

/// Whether a leaf reports itself visually focused.
pub open spec fn leaf_focused(lv: LeafView) -> bool {
    match lv {
        LeafView::Table(t) => t.focused,
        LeafView::Input(i) => i.focused,
        LeafView::Counter(c) => c.focused,
    }
}

/// The same leaf with its focus flag set to `f` and nothing else
/// changed.
pub open spec fn leaf_with_focus(lv: LeafView, f: bool) -> LeafView {
    match lv {
        LeafView::Table(t) => LeafView::Table(TableView { focused: f, ..t }),
        LeafView::Input(i) => LeafView::Input(InputView { focused: f, ..i }),
        LeafView::Counter(c) => LeafView::Counter(CounterView { focused: f, ..c }),
    }
}

/// One step of a leaf: its next state, what it emits to the bus, and its
/// response.
pub open spec fn leaf_step(lv: LeafView, a: Action) -> (LeafView, Seq<Action>,
    HandleActionResponse) {
    match lv {
        LeafView::Table(t) => (
            LeafView::Table(
                TableView { selected: table_step_selected(t.selected, t.rows.len() as int, a), ..t },
            ),
            table_emits(a),
            HandleActionResponse::Handle,
        ),
        LeafView::Input(iv) => {
            let (iv2, r) = input_step(iv, a);
            (LeafView::Input(iv2), Seq::empty(), r)
        },
        LeafView::Counter(c) => (
            LeafView::Counter(CounterView { value: counter_step(c.value, a), ..c }),
            counter_emits(a),
            HandleActionResponse::Handle,
        ),
    }
}

impl Leaf {
    /// A leaf's own invariant.
    pub open spec fn wf(self) -> bool {
        match self {
            Leaf::Table(t) => t.wf(),
            Leaf::Input(i) => i.wf(),
            Leaf::Counter(_) => true,
        }
    }

    /// Whether the leaf reports itself focused.
    pub fn is_focused(&self) -> (b: bool)
        ensures
            b == leaf_focused(self@),
    {
        match self {
            Leaf::Table(t) => t.focused,
            Leaf::Input(i) => i.focused,
            Leaf::Counter(c) => c.focused,
        }
    }

    /// Handle one action: state, emissions and response follow
    /// [`leaf_step`] exactly.
    pub fn handle_action(&mut self, action: Action, bus: &mut ActionBus) -> (r:
        HandleActionResponse)
        requires
            old(self).wf(),
        ensures
            final(self).wf(),
            final(self)@ == leaf_step(old(self)@, action).0,
            final(bus)@ == old(bus)@ + leaf_step(old(self)@, action).1,
            r == leaf_step(old(self)@, action).2,
    {
        match self {
            Leaf::Table(t) => t.handle_action(action, bus),
            Leaf::Input(i) => {
                let r = i.handle_action(action);
                proof {
                    assert(bus@ =~= old(bus)@ + Seq::<Action>::empty());
                }
                r
            },
            Leaf::Counter(c) => c.handle_action(action, bus),
        }
    }

    /// Mark the leaf visually focused.
    pub fn focus(&mut self)
        ensures
            final(self)@ == leaf_with_focus(old(self)@, true),
            old(self).wf() ==> final(self).wf(),
    {
        match self {
            Leaf::Table(t) => t.focus(),
            Leaf::Input(i) => i.focus(),
            Leaf::Counter(c) => c.focus(),
        }
    }

    /// Clear the leaf's visual focus.
    pub fn unfocus(&mut self)
        ensures
            final(self)@ == leaf_with_focus(old(self)@, false),
            old(self).wf() ==> final(self).wf(),
    {
        match self {
            Leaf::Table(t) => t.unfocus(),
            Leaf::Input(i) => i.unfocus(),
            Leaf::Counter(c) => c.unfocus(),
        }
    }
}

/// The focus-chain invariant over a component list: the focused index
/// addresses a component, and a component reports focused exactly when
/// it is the one at that index.
pub open spec fn details_wf_at(cs: Seq<LeafView>, f: int) -> bool {
    &&& 0 <= f < cs.len()
    &&& forall|i: int| 0 <= i < cs.len() ==> (leaf_focused(#[trigger] cs[i]) <==> i == f)
}

/// The component list after moving focus from index `from` to `to`:
/// `from` is unfocused first, then `to` is focused.
pub open spec fn focus_shift(cs: Seq<LeafView>, from: int, to: int) -> Seq<LeafView> {
    cs.update(from, leaf_with_focus(cs[from], false)).update(to, leaf_with_focus(cs[to], true))
}

/// The index that one `focus_prev` call moves the focus to.
pub open spec fn focus_prev_index(f: int) -> int {
    if f > 0 {
        f - 1
    } else {
        f
    }
}

/// The index that one `focus_next` call moves the focus to, in a chain
/// of `n` components.
pub open spec fn focus_next_index(f: int, n: int) -> int {
    if f + 1 < n {
        f + 1
    } else {
        f
    }
}

/// The focus index after `n` `focus_prev` calls starting from `f`.
pub open spec fn iterate_focus_prev(f: int, n: nat) -> int
    decreases n,
{
    if n == 0 {
        f
    } else {
        focus_prev_index(iterate_focus_prev(f, (n - 1) as nat))
    }
}

/// LAW: however many times focus retreats from the first component, the
/// focus index stays at the first component.
pub proof fn lemma_focus_prev_at_zero(n: nat)
    ensures
        iterate_focus_prev(0, n) == 0,
    decreases n,
{
    if n > 0 {
        lemma_focus_prev_at_zero((n - 1) as nat);
    }
}

/// LAW: moving focus keeps exactly one component focused.  If the focus
/// chain is sound with `from` holding focus, then after unfocusing
/// `from` and focusing `to` it is sound with `to` holding focus — so
/// any sequence of focus movements leaves exactly one focused member.
pub proof fn lemma_focus_shift_keeps_one_focused(cs: Seq<LeafView>, from: int, to: int)
    requires
        details_wf_at(cs, from),
        0 <= to < cs.len(),
    ensures
        details_wf_at(focus_shift(cs, from, to), to),
{
}

/// One step of the details page: the focused leaf handles the action
/// first; only when it answers `Handle` does the page react to quit and
/// focus-navigation keys.
pub open spec fn details_step(cs: Seq<LeafView>, f: int, a: Action) -> (Seq<LeafView>, int, Seq<
    Action,
>) {
    if 0 <= f < cs.len() {
        let (lv2, emitted, resp) = leaf_step(cs[f], a);
        let cs1 = cs.update(f, lv2);
        if resp == HandleActionResponse::Handle {
            match a {
                Action::Key(k) => {
                    if k.code == KeyCode::Char('q') {
                        (cs1, f, emitted.push(Action::Quit))
                    } else if k.code == KeyCode::Char('j') && k.ctrl {
                        if f + 1 < cs1.len() {
                            (focus_shift(cs1, f, f + 1), f + 1, emitted)
                        } else {
                            (cs1, f, emitted)
                        }
                    } else if k.code == KeyCode::Char('k') && k.ctrl {
                        if f > 0 {
                            (focus_shift(cs1, f, f - 1), f - 1, emitted)
                        } else {
                            (cs1, f, emitted)
                        }
                    } else {
                        (cs1, f, emitted)
                    }
                },
                _ => (cs1, f, emitted),
            }
        } else {
            (cs1, f, emitted)
        }
    } else {
        (cs, f, Seq::empty())
    }
}

/// The components a fresh details page composes: a focused table and an
/// unfocused, empty text editor.
pub open spec fn initial_details_components() -> Seq<LeafView> {
    seq![
        LeafView::Table(
            TableView { focused: true, selected: Some(0 as int), rows: initial_table_rows() },
        ),
        LeafView::Input(
            InputView {
                focused: false,
                text: Seq::<char>::empty(),
                mode: Mode::Normal,
                cursor: 0 as int,
            },
        ),
    ]
}

/// The details page: an ordered list of leaf components and the index of
/// the one holding focus.
pub struct Details {
    pub components: Vec<Leaf>,
    /// The component from `components` which is being focused.
    pub focused: usize,
}

impl Details {
    /// The page's invariant: the focus chain is sound and every leaf is
    /// well formed.
    pub open spec fn wf(self) -> bool {
        &&& details_wf_at(self.components.deep_view(), self.focused as int)
        &&& forall|i: int| 0 <= i < self.components@.len() ==> (#[trigger] self.components@[i]).wf()
    }

    /// A fresh details page: a focused table above an unfocused text
    /// editor.
    pub fn new() -> (d: Details)
        ensures
            d.wf(),
            d.components.deep_view() == initial_details_components(),
            d.focused == 0,
    {
        let mut table = Table::new();
        table.focus();
        let input = Input::new();
        let mut components: Vec<Leaf> = Vec::new();
        components.push(Leaf::Table(table));
        components.push(Leaf::Input(input));
        let d = Details { components, focused: 0 };
        proof {
            assert(d.components.deep_view() =~~= initial_details_components());
        }
        d
    }

    /// Translate a raw terminal event into exactly one action.
    pub fn get_action(&self, event: Event) -> (a: Action)
        ensures
            a == event_to_action(event),
    {
        match event {
            Event::Error => Action::Noop,
            Event::Tick => Action::Tick,
            Event::Render => Action::Render,
            Event::Key(k) => Action::Key(k),
            Event::Quit => Action::Quit,
            Event::Other => Action::Noop,
        }
    }

    /// Handle one action: the focused leaf sees it first, and the page
    /// reacts only when the leaf answered `Handle`; state and emissions
    /// follow [`details_step`] exactly.
    pub fn handle_action(&mut self, action: Action, bus: &mut ActionBus)
        requires
            old(self).wf(),
        ensures
            final(self).wf(),
            final(self).components.deep_view() == details_step(
                old(self).components.deep_view(),
                old(self).focused as int,
                action,
            ).0,
            final(self).focused as int == details_step(
                old(self).components.deep_view(),
                old(self).focused as int,
                action,
            ).1,
            final(bus)@ == old(bus)@ + details_step(
                old(self).components.deep_view(),
                old(self).focused as int,
                action,
            ).2,
    {
        let f = self.focused;
        let resp = {
            let c = &mut self.components[f];
            c.handle_action(action, bus)
        };
        proof {
            assert(self.components.deep_view() =~= old(self).components.deep_view().update(
                f as int,
                leaf_step(old(self).components.deep_view()[f as int], action).0,
            ));
            assert(leaf_focused(leaf_step(old(self).components.deep_view()[f as int], action).0)
                == leaf_focused(old(self).components.deep_view()[f as int]));
        }
        if let HandleActionResponse::Handle = resp {
            if let Action::Key(k) = action {
                match k.code {
                    KeyCode::Char(c) => {
                        if c == 'q' {
                            bus.send(Action::Quit);
                            proof {
                                assert(bus@ =~= old(bus)@ + details_step(
                                    old(self).components.deep_view(),
                                    old(self).focused as int,
                                    action,
                                ).2);
                            }
                        } else if c == 'j' && k.ctrl {
                            self.focus_next();
                        } else if c == 'k' && k.ctrl {
                            self.focus_prev();
                        }
                    },
                    _ => {},
                }
            }
        }
    }

    /// Advance the focus to the next component: a no-op at the last
    /// index; otherwise the current holder is unfocused first, then the
    /// next one focused.  The focus-chain invariant is preserved and the
    /// new index is [`focus_next_index`] of the old.
    pub fn focus_next(&mut self)
        requires
            old(self).wf(),
        ensures
            final(self).wf(),
            final(self).focused as int == focus_next_index(
                old(self).focused as int,
                old(self).components@.len() as int,
            ),
            old(self).focused + 1 < old(self).components@.len() ==> final(self).components.deep_view() == focus_shift(
                old(self).components.deep_view(),
                old(self).focused as int,
                old(self).focused as int + 1,
            ),
            old(self).focused + 1 >= old(self).components@.len() ==> final(self).components.deep_view() == old(self).components.deep_view(),
    {
        let len = self.components.len();
        if self.focused + 1 < len {
            let f = self.focused;
            {
                let c = &mut self.components[f];
                c.unfocus();
            }
            self.focused = f + 1;
            {
                let c = &mut self.components[f + 1];
                c.focus();
            }
            proof {
                assert(self.components.deep_view() =~= focus_shift(
                    old(self).components.deep_view(),
                    f as int,
                    f as int + 1,
                ));
            }
        } else {
            proof {
                assert(self.components.deep_view() =~= old(self).components.deep_view());
            }
        }
    }

    /// Retreat the focus to the previous component: a no-op at index 0;
    /// otherwise the current holder is unfocused first, then the
    /// previous one focused.  The focus-chain invariant is preserved and
    /// the new index is [`focus_prev_index`] of the old.
    pub fn focus_prev(&mut self)
        requires
            old(self).wf(),
        ensures
            final(self).wf(),
            final(self).focused as int == focus_prev_index(old(self).focused as int),
            old(self).focused > 0 ==> final(self).components.deep_view() == focus_shift(
                old(self).components.deep_view(),
                old(self).focused as int,
                old(self).focused as int - 1,
            ),
            old(self).focused == 0 ==> final(self).components.deep_view() == old(
                self,
            ).components.deep_view(),
    {
        if self.focused > 0 {
            let f = self.focused;
            {
                let c = &mut self.components[f];
                c.unfocus();
            }
            self.focused = f - 1;
            {
                let c = &mut self.components[f - 1];
                c.focus();
            }
            proof {
                assert(self.components.deep_view() =~= focus_shift(
                    old(self).components.deep_view(),
                    f as int,
                    f as int - 1,
                ));
            }
        } else {
            proof {
                assert(self.components.deep_view() =~= old(self).components.deep_view());
            }
        }
    }
}

} // verus!
