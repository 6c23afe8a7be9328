//! End-to-end runtime scenarios: the event-to-action step, the drain
//! phase with its re-enqueued follow-up actions, the quit and suspend
//! flags, and the forced render on resize.
use sysdash::action::Action;
use sysdash::action::Effect;
use sysdash::action::ListAction;
use sysdash::app::App;
use sysdash::app::Event;
use sysdash::apt::SourceFile;
use sysdash::keymap::KeyBindings;
use sysdash::keymap::KeyPress;
use sysdash::ui::Mode;
use sysdash::ui::Page;
use sysdash::ui::ViewState;

fn fresh_app() -> App {
    App::new(KeyBindings { layers: vec![] })
}

#[test]
fn starts_in_main_menu_over_the_system_page() {
    let app = fresh_app();
    assert_eq!(app.view_state, ViewState::new(Mode::MainMenu, Page::System));
    assert!(!app.should_quit);
    assert!(!app.should_suspend);
    assert_eq!(app.queue.len(), 0);
    assert_eq!(app.components.main_menu.cursor, Some(0));
}

#[test]
fn select_next_moves_to_the_second_menu_entry() {
    let mut app = fresh_app();
    app.enqueue(Action::ListAction(ListAction::SelectNext));
    let effects = app.handle_actions();
    // The menu's follow-up view-state update was drained in the same pass.
    assert_eq!(app.queue.len(), 0);
    assert_eq!(app.view_state, ViewState::new(Mode::MainMenu, Page::PackageSources));
    assert_eq!(app.components.main_menu.cursor, Some(1));
    assert_eq!(effects, Vec::<Effect>::new());
}

#[test]
fn make_selection_enters_the_page_sub_mode() {
    let mut app = fresh_app();
    app.enqueue(Action::ListAction(ListAction::SelectNext));
    app.handle_actions();
    app.enqueue(Action::ListAction(ListAction::MakeSelection));
    app.handle_actions();
    assert_eq!(app.view_state, ViewState::new(Mode::PackageSourceTabs, Page::PackageSources));
}

#[test]
fn focus_main_menu_returns_without_changing_the_page() {
    let mut app = fresh_app();
    app.enqueue(Action::UpdateViewState(ViewState::new(
        Mode::PackageSourceList,
        Page::PackageSources,
    )));
    app.enqueue(Action::FocusMainMenu);
    app.handle_actions();
    assert_eq!(app.view_state, ViewState::new(Mode::MainMenu, Page::PackageSources));
}

#[test]
fn resize_forces_a_render_and_keeps_the_view_state() {
    let mut app = fresh_app();
    app.enqueue(Action::ListAction(ListAction::SelectNext));
    app.handle_actions();
    let before = app.view_state;
    app.handle_event(Event::Resize(80, 24));
    assert_eq!(app.queue, vec![Action::Resize(80, 24)]);
    let effects = app.handle_actions();
    assert_eq!(effects, vec![Effect::Resize(80, 24), Effect::Render]);
    assert_eq!(app.view_state, before);
}

#[test]
fn quit_drains_pending_actions_before_the_loop_stops() {
    let mut app = fresh_app();
    app.enqueue(Action::Quit);
    // An unrelated action is still pending behind the quit.
    app.enqueue(Action::UpdateViewState(ViewState::new(Mode::System, Page::System)));
    app.handle_actions();
    // The quit flag is set, and the pending action was dispatched too.
    assert!(app.should_quit);
    assert_eq!(app.view_state, ViewState::new(Mode::System, Page::System));
    assert_eq!(app.queue.len(), 0);
}

#[test]
fn suspend_and_resume_toggle_the_flag() {
    let mut app = fresh_app();
    app.enqueue(Action::Suspend);
    app.handle_actions();
    assert!(app.should_suspend);
    // The outer loop requeues these after yielding the terminal.
    app.enqueue(Action::Resume);
    app.enqueue(Action::ClearScreen);
    let effects = app.handle_actions();
    assert!(!app.should_suspend);
    assert_eq!(effects, vec![Effect::ClearScreen]);
}

#[test]
fn events_map_to_their_actions() {
    let mut app = fresh_app();
    app.handle_event(Event::Tick);
    app.handle_event(Event::Render);
    app.handle_event(Event::Quit);
    app.handle_event(Event::Other);
    assert_eq!(app.queue, vec![Action::Tick, Action::Render, Action::Quit]);
    let effects = app.handle_actions();
    assert_eq!(effects, vec![Effect::Render]);
    assert!(app.should_quit);
}

#[test]
fn key_events_go_through_the_resolver() {
    let kb = KeyBindings {
        layers: vec![sysdash::keymap::Layer {
            mode: Mode::Universal,
            bindings: vec![sysdash::keymap::Binding {
                keys: vec![KeyPress::new(b'q' as u16, 0)],
                action: Action::Quit,
            }],
        }],
    };
    let mut app = App::new(kb);
    app.handle_event(Event::Key(KeyPress::new(b'q' as u16, 0)));
    app.handle_actions();
    assert!(app.should_quit);
}

#[test]
fn next_and_prev_mode_move_between_tabs_and_list() {
    let mut app = fresh_app();
    app.enqueue(Action::UpdateViewState(ViewState::new(
        Mode::PackageSourceTabs,
        Page::PackageSources,
    )));
    app.enqueue(Action::NextMode);
    app.handle_actions();
    assert_eq!(app.view_state, ViewState::new(Mode::PackageSourceList, Page::PackageSources));
    app.enqueue(Action::PrevMode);
    app.handle_actions();
    assert_eq!(app.view_state, ViewState::new(Mode::PackageSourceTabs, Page::PackageSources));
    // In any other mode both are ignored.
    app.enqueue(Action::FocusMainMenu);
    app.enqueue(Action::NextMode);
    app.enqueue(Action::PrevMode);
    app.handle_actions();
    assert_eq!(app.view_state, ViewState::new(Mode::MainMenu, Page::PackageSources));
}

#[test]
fn tab_row_wraps_both_ways() {
    let mut app = fresh_app();
    app.enqueue(Action::UpdateViewState(ViewState::new(
        Mode::PackageSourceTabs,
        Page::PackageSources,
    )));
    app.handle_actions();
    for expected in [1, 2, 0, 1] {
        app.enqueue(Action::ListAction(ListAction::SelectNext));
        app.handle_actions();
        assert_eq!(app.components.package_sources.selected_tab, expected);
    }
    for expected in [0, 2, 1] {
        app.enqueue(Action::ListAction(ListAction::SelectPrev));
        app.handle_actions();
        assert_eq!(app.components.package_sources.selected_tab, expected);
    }
}

#[test]
fn source_list_navigation_wraps_and_survives_an_empty_list() {
    let mut app = fresh_app();
    app.enqueue(Action::UpdateViewState(ViewState::new(
        Mode::PackageSourceList,
        Page::PackageSources,
    )));
    app.handle_actions();
    // Empty list: every movement keeps the selection cleared.
    for la in [
        ListAction::SelectNext,
        ListAction::SelectPrev,
        ListAction::SelectFirst,
        ListAction::SelectLast,
    ] {
        app.enqueue(Action::ListAction(la));
        app.handle_actions();
        assert_eq!(app.components.package_sources.list_cursor, None);
    }
    // Load two entries, then navigate.
    let files = vec![SourceFile {
        path: "test.list".to_string(),
        lines: vec!["deb http://a".to_string(), "# deb http://b".to_string()],
    }];
    app.components.package_sources.repositories.load_from_files(&files);
    app.enqueue(Action::ListAction(ListAction::SelectNext));
    app.handle_actions();
    assert_eq!(app.components.package_sources.list_cursor, Some(0));
    app.enqueue(Action::ListAction(ListAction::SelectNext));
    app.handle_actions();
    assert_eq!(app.components.package_sources.list_cursor, Some(1));
    // Wraps past the end.
    app.enqueue(Action::ListAction(ListAction::SelectNext));
    app.handle_actions();
    assert_eq!(app.components.package_sources.list_cursor, Some(0));
    // Wraps before the start.
    app.enqueue(Action::ListAction(ListAction::SelectPrev));
    app.handle_actions();
    assert_eq!(app.components.package_sources.list_cursor, Some(1));
    app.enqueue(Action::ListAction(ListAction::SelectNone));
    app.handle_actions();
    assert_eq!(app.components.package_sources.list_cursor, None);
}

#[test]
fn error_and_help_actions_are_inert() {
    let mut app = fresh_app();
    let before = app.view_state;
    app.enqueue(Action::Error("scan failed".to_string()));
    app.enqueue(Action::Help);
    let effects = app.handle_actions();
    assert_eq!(effects, Vec::<Effect>::new());
    assert_eq!(app.view_state, before);
    assert!(!app.should_quit);
}
