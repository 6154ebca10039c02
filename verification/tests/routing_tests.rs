use grid_editor::action::Action;
use grid_editor::action::Event;
use grid_editor::action::KeyCode;
use grid_editor::action::KeyEvent;
use grid_editor::action::Page;
use grid_editor::app::ActivePage;
use grid_editor::app::App;
use grid_editor::bus::ActionBus;
use grid_editor::counter::Counter;
use grid_editor::details::Details;
use grid_editor::home::Home;
use grid_editor::table::Table;

fn key(code: KeyCode) -> Action {
    Action::Key(KeyEvent::plain(code))
}

fn ch(c: char) -> Action {
    key(KeyCode::Char(c))
}

fn ctrl(c: char) -> Action {
    Action::Key(KeyEvent { code: KeyCode::Char(c), ctrl: true })
}

fn matrix(rows: Vec<Vec<&str>>) -> Vec<Vec<String>> {
    rows.into_iter()
        .map(|r| r.into_iter().map(|s| s.to_string()).collect())
        .collect()
}

fn focus_flags(d: &Details) -> Vec<bool> {
    d.components.iter().map(|c| c.is_focused()).collect()
}

#[test]
fn bus_is_first_in_first_out() {
    let mut bus = ActionBus::new();
    assert!(bus.try_recv().is_none());
    bus.send(Action::Tick);
    bus.send(Action::Quit);
    assert_eq!(bus.len(), 2);
    assert!(matches!(bus.try_recv(), Some(Action::Tick)));
    assert!(matches!(bus.try_recv(), Some(Action::Quit)));
    assert!(bus.try_recv().is_none());
}

#[test]
fn events_translate_one_to_one() {
    let app = App::new(matrix(vec![vec!["a"]]));
    assert!(matches!(app.get_action(Event::Tick), Action::Tick));
    assert!(matches!(app.get_action(Event::Render), Action::Render));
    assert!(matches!(app.get_action(Event::Quit), Action::Quit));
    assert!(matches!(app.get_action(Event::Error), Action::Noop));
    assert!(matches!(app.get_action(Event::Other), Action::Noop));
    let k = KeyEvent::plain(KeyCode::Enter);
    match app.get_action(Event::Key(k)) {
        Action::Key(k2) => assert_eq!(k2, k),
        other => panic!("expected a key action, got {:?}", other),
    }
}

#[test]
fn focus_chain_has_exactly_one_focused_component() {
    let mut d = Details::new();
    assert_eq!(focus_flags(&d), vec![true, false]);
    d.focus_next();
    assert_eq!(focus_flags(&d), vec![false, true]);
    assert_eq!(d.focused, 1);
    d.focus_next();
    assert_eq!(focus_flags(&d), vec![false, true], "no-op at the last index");
    d.focus_prev();
    assert_eq!(focus_flags(&d), vec![true, false]);
    for _ in 0..5 {
        d.focus_prev();
    }
    assert_eq!(d.focused, 0, "focus_prev at index 0 stays at 0");
    assert_eq!(focus_flags(&d), vec![true, false]);
}

#[test]
fn details_routes_ctrl_keys_to_focus_navigation() {
    let mut d = Details::new();
    let mut bus = ActionBus::new();
    d.handle_action(ctrl('j'), &mut bus);
    assert_eq!(d.focused, 1);
    d.handle_action(ctrl('k'), &mut bus);
    assert_eq!(d.focused, 0);
    assert!(bus.try_recv().is_none(), "focus navigation emits nothing");
}

#[test]
fn insert_mode_swallows_quit_and_navigation_keys() {
    let mut d = Details::new();
    let mut bus = ActionBus::new();
    // Move focus to the text editor and switch it to insert mode.
    d.handle_action(ctrl('j'), &mut bus);
    d.handle_action(ch('i'), &mut bus);
    // A typed 'q' must not bubble into a page-level quit.
    d.handle_action(ch('q'), &mut bus);
    assert!(bus.try_recv().is_none(), "typed characters never reach the page");
}

#[test]
fn normal_mode_q_quits_from_details() {
    let mut d = Details::new();
    let mut bus = ActionBus::new();
    d.handle_action(ch('q'), &mut bus);
    assert!(matches!(bus.try_recv(), Some(Action::Quit)));
}

#[test]
fn table_selection_wraps_both_ways() {
    let mut t = Table::new();
    let mut bus = ActionBus::new();
    assert_eq!(t.selected, Some(0));
    t.handle_action(ch('j'), &mut bus);
    assert_eq!(t.selected, Some(1));
    t.handle_action(ch('j'), &mut bus);
    assert_eq!(t.selected, Some(0), "advancing past the end wraps");
    t.handle_action(ch('k'), &mut bus);
    assert_eq!(t.selected, Some(1), "retreating past the start wraps");
    t.handle_action(key(KeyCode::Enter), &mut bus);
    assert!(matches!(bus.try_recv(), Some(Action::ChangePage(Page::Home))));
}

#[test]
fn counter_counts_and_asks_for_details() {
    let mut c = Counter::new();
    let mut bus = ActionBus::new();
    c.handle_action(ch('k'), &mut bus);
    c.handle_action(ch('k'), &mut bus);
    c.handle_action(ch('j'), &mut bus);
    assert_eq!(c.value, 1);
    c.handle_action(key(KeyCode::Enter), &mut bus);
    assert!(matches!(bus.try_recv(), Some(Action::ChangePage(Page::Details))));
}

#[test]
fn home_quit_key_reaches_the_bus_only_outside_overlays() {
    let mut h = Home::new(matrix(vec![vec!["a"]]));
    let mut bus = ActionBus::new();
    h.handle_action(ch('e'), &mut bus);
    h.handle_action(ch('q'), &mut bus);
    assert!(bus.try_recv().is_none(), "the overlay consumed the quit key");
    assert_eq!(
        h.csv_table.edit_input.as_ref().unwrap().value,
        "aq",
        "the overlay typed it instead"
    );
    let mut h = Home::new(matrix(vec![vec!["a"]]));
    h.handle_action(ch('q'), &mut bus);
    assert!(matches!(bus.try_recv(), Some(Action::Quit)));
}

#[test]
fn app_quit_flag_and_render_flag() {
    let mut app = App::new(matrix(vec![vec!["a"]]));
    let mut bus = ActionBus::new();
    assert!(!app.should_quit);
    let render = app.handle_action(Action::Render, &mut bus);
    assert!(render);
    let render = app.handle_action(Action::Tick, &mut bus);
    assert!(!render);
    assert!(!app.should_quit);
    app.handle_action(Action::Quit, &mut bus);
    assert!(app.should_quit);
}

#[test]
fn app_page_switch_builds_a_fresh_page() {
    let mut app = App::new(matrix(vec![vec!["a", "b"]]));
    let mut bus = ActionBus::new();
    // Edit the grid so the home page holds local state.
    app.handle_action(ch('e'), &mut bus);
    app.handle_action(ch('X'), &mut bus);
    app.handle_action(key(KeyCode::Enter), &mut bus);
    app.handle_action(Action::ChangePage(Page::Details), &mut bus);
    assert!(matches!(app.page, ActivePage::Details(_)));
    app.handle_action(Action::ChangePage(Page::Home), &mut bus);
    match &app.page {
        ActivePage::Home(h) => {
            assert_eq!(
                h.csv_table.matrix,
                matrix(vec![vec!["a", "b"]]),
                "a fresh home page shows the initial matrix again"
            );
        }
        ActivePage::Details(_) => panic!("expected the home page"),
    }
}

#[test]
fn app_surfaces_save_requests() {
    let mut app = App::new(matrix(vec![vec!["a"]]));
    let mut bus = ActionBus::new();
    assert!(app.take_save_request().is_none());
    app.handle_action(ch('e'), &mut bus);
    app.handle_action(ch('!'), &mut bus);
    app.handle_action(key(KeyCode::Enter), &mut bus);
    assert_eq!(app.take_save_request().unwrap(), "\"a!\"\n");
    assert!(app.take_save_request().is_none());
}
