//! Main-menu navigation: cyclic cursor movement, page mirroring, and page
//! focusing, plus the mutually exclusive page visibility of the content
//! components.
use sysdash::action::Action;
use sysdash::action::ListAction;
use sysdash::installed_packages::InstalledPackages;
use sysdash::main_menu::MainMenu;
use sysdash::main_menu::MENU_LEN;
use sysdash::package_sources::PackageSources;
use sysdash::system_page::SystemPage;
use sysdash::ui::Mode;
use sysdash::ui::Page;
use sysdash::ui::ViewState;

fn menu_vs() -> ViewState {
    ViewState::new(Mode::MainMenu, Page::System)
}

#[test]
fn select_next_cycles_through_all_entries() {
    let mut menu = MainMenu::new();
    assert_eq!(menu.cursor, Some(0));
    let start = menu.cursor;
    // One full lap returns the cursor to its starting position.
    for _ in 0..MENU_LEN {
        menu.update(&Action::ListAction(ListAction::SelectNext), menu_vs());
    }
    assert_eq!(menu.cursor, start);
}

#[test]
fn select_next_mirrors_the_highlighted_entry_page() {
    let mut menu = MainMenu::new();
    let emitted = menu.update(&Action::ListAction(ListAction::SelectNext), menu_vs());
    assert_eq!(menu.cursor, Some(1));
    assert_eq!(
        emitted,
        Some(Action::UpdateViewState(ViewState::new(Mode::MainMenu, Page::PackageSources)))
    );
}

#[test]
fn select_prev_wraps_to_the_last_entry() {
    let mut menu = MainMenu::new();
    let emitted = menu.update(&Action::ListAction(ListAction::SelectPrev), menu_vs());
    assert_eq!(menu.cursor, Some(MENU_LEN - 1));
    assert_eq!(
        emitted,
        Some(Action::UpdateViewState(ViewState::new(Mode::MainMenu, Page::PackageSources)))
    );
}

#[test]
fn select_first_and_last_jump_to_the_ends() {
    let mut menu = MainMenu::new();
    menu.update(&Action::ListAction(ListAction::SelectLast), menu_vs());
    assert_eq!(menu.cursor, Some(MENU_LEN - 1));
    menu.update(&Action::ListAction(ListAction::SelectFirst), menu_vs());
    assert_eq!(menu.cursor, Some(0));
}

#[test]
fn select_none_clears_the_selection_and_emits_nothing() {
    let mut menu = MainMenu::new();
    let emitted = menu.update(&Action::ListAction(ListAction::SelectNone), menu_vs());
    assert_eq!(menu.cursor, None);
    assert_eq!(emitted, None);
}

#[test]
fn make_selection_focuses_the_current_page() {
    let menu = &mut MainMenu::new();
    let vs = ViewState::new(Mode::MainMenu, Page::PackageSources);
    let emitted = menu.update(&Action::ListAction(ListAction::MakeSelection), vs);
    assert_eq!(
        emitted,
        Some(Action::UpdateViewState(ViewState::new(
            Mode::PackageSourceTabs,
            Page::PackageSources
        )))
    );
    let vs = ViewState::new(Mode::MainMenu, Page::System);
    let emitted = menu.update(&Action::ListAction(ListAction::MakeSelection), vs);
    assert_eq!(emitted, Some(Action::UpdateViewState(ViewState::new(Mode::System, Page::System))));
}

#[test]
fn menu_ignores_list_actions_outside_main_menu_mode() {
    let mut menu = MainMenu::new();
    let vs = ViewState::new(Mode::PackageSourceList, Page::PackageSources);
    let emitted = menu.update(&Action::ListAction(ListAction::SelectNext), vs);
    assert_eq!(menu.cursor, Some(0));
    assert_eq!(emitted, None);
}

#[test]
fn exactly_one_content_component_visible_per_page() {
    let system = SystemPage::new();
    let sources = PackageSources::new();
    let installed = InstalledPackages::new();
    for (page, expect) in [
        (Page::System, (true, false, false)),
        (Page::PackageSources, (false, true, false)),
        (Page::InstalledPackages, (false, false, true)),
        (Page::ConfirmationPopup, (false, false, false)),
    ] {
        let vs = ViewState::new(Mode::MainMenu, page);
        let got = (
            system.is_visible(vs),
            sources.is_visible(vs),
            installed.is_visible(vs),
        );
        assert_eq!(got, expect);
        let count = [got.0, got.1, got.2].iter().filter(|v| **v).count();
        assert!(count <= 1);
    }
}

#[test]
fn switching_page_leaves_no_component_visible_for_both() {
    let system = SystemPage::new();
    let sources = PackageSources::new();
    let installed = InstalledPackages::new();
    let pages = [
        Page::System,
        Page::PackageSources,
        Page::InstalledPackages,
        Page::ConfirmationPopup,
    ];
    for a in pages {
        for b in pages {
            if a != b {
                let va = ViewState::new(Mode::MainMenu, a);
                let vb = ViewState::new(Mode::MainMenu, b);
                assert!(!(system.is_visible(va) && system.is_visible(vb)));
                assert!(!(sources.is_visible(va) && sources.is_visible(vb)));
                assert!(!(installed.is_visible(va) && installed.is_visible(vb)));
            }
        }
    }
}

#[test]
fn focus_follows_the_mode() {
    let menu = MainMenu::new();
    let system = SystemPage::new();
    let sources = PackageSources::new();
    let installed = InstalledPackages::new();
    let vs = ViewState::new(Mode::MainMenu, Page::System);
    assert!(menu.is_focused(vs));
    assert!(!system.is_focused());
    assert!(!sources.is_focused(vs));
    assert!(!installed.is_focused(vs));
    let vs = ViewState::new(Mode::PackageSourceList, Page::PackageSources);
    assert!(!menu.is_focused(vs));
    assert!(sources.is_focused(vs));
    let vs = ViewState::new(Mode::InstalledPackageTabs, Page::InstalledPackages);
    assert!(installed.is_focused(vs));
}
