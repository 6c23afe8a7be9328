//! The main-menu component: a cursor over the fixed menu entries. List
//! navigation moves the cursor and mirrors the newly highlighted entry into
//! the broadcast page; making a selection focuses the highlighted page's
//! entry sub-mode.
use vstd::prelude::*;

use crate::action::Action;
use crate::action::ListAction;
use crate::ui::Mode;
use crate::ui::Page;
use crate::ui::ViewState;

verus! {

/// How many entries the main menu shows.
pub const MENU_LEN: usize = 2;

/// The page a menu entry stands for: entry 0 is the system page, entry 1
/// the package-sources page.
pub open spec fn menu_page(i: int) -> Page {
    if i == 1 {
        Page::PackageSources
    } else {
        Page::System
    }
}

/// The menu-entry titles, in cursor order.
pub fn menu_options() -> (r: Vec<&'static str>)
    ensures
        r@.len() == MENU_LEN,
        r@[0]@ == "System"@,
        r@[1]@ == "Package Sources"@,
{
    let mut v: Vec<&'static str> = Vec::new();
    v.push("System");
    v.push("Package Sources");
    v
}

/// The main-menu list component. `cursor` is the highlighted entry, or
/// `None` when the selection was cleared.
#[derive(Debug, Copy, Clone, PartialEq, Eq, Structural)]
pub struct MainMenu {
    pub cursor: Option<usize>,
}

/// Where the cursor lands after "select next": one step down, wrapping
/// from the last entry to the first; a cleared selection restarts at the
/// first entry.
pub open spec fn menu_next_cursor(c: Option<usize>) -> Option<usize> {
    match c {
        None => Some(0usize),
        Some(i) => if i < MENU_LEN - 1 {
            Some((i + 1) as usize)
        } else {
            Some(0usize)
        },
    }
}

/// Where the cursor lands after "select previous": one step up, wrapping
/// from the first entry to the last; a cleared selection restarts at the
/// last entry.
pub open spec fn menu_prev_cursor(c: Option<usize>) -> Option<usize> {
    match c {
        None => Some((MENU_LEN - 1) as usize),
        Some(i) => if i > 0 {
            Some((i - 1) as usize)
        } else {
            Some((MENU_LEN - 1) as usize)
        },
    }
}

/// The action the menu emits once the cursor has settled: a view-state
/// update that keeps `MainMenu` mode and mirrors the highlighted entry's
/// page; nothing when no entry is highlighted.
pub open spec fn menu_change_page(c: Option<usize>) -> Option<Action> {
    match c {
        Some(i) => Some(
            Action::UpdateViewState(ViewState { mode: Mode::MainMenu, page: menu_page(i as int) }),
        ),
        None => None,
    }
}

/// The action the menu emits on "make selection": a view-state update that
/// moves to the current page's entry sub-mode, keeping the page itself.
pub open spec fn menu_focus_page(vs: ViewState) -> Option<Action> {
    match vs.page {
        Page::System => Some(
            Action::UpdateViewState(ViewState { mode: Mode::System, page: vs.page }),
        ),
        Page::InstalledPackages => Some(
            Action::UpdateViewState(ViewState { mode: Mode::InstalledPackageTabs, page: vs.page }),
        ),
        Page::PackageSources => Some(
            Action::UpdateViewState(ViewState { mode: Mode::PackageSourceTabs, page: vs.page }),
        ),
        Page::ConfirmationPopup => None,
    }
}

/// What one dispatched action does to the menu: the new menu state and the
/// action it emits. The menu reacts only to list actions, and only while
/// the broadcast mode is `MainMenu`.
pub open spec fn menu_update(m: MainMenu, a: Action, vs: ViewState) -> (MainMenu, Option<Action>) {
    match a {
        Action::ListAction(la) => if vs.mode == Mode::MainMenu {
            match la {
                ListAction::SelectNext => (
                    MainMenu { cursor: menu_next_cursor(m.cursor) },
                    menu_change_page(menu_next_cursor(m.cursor)),
                ),
                ListAction::SelectPrev => (
                    MainMenu { cursor: menu_prev_cursor(m.cursor) },
                    menu_change_page(menu_prev_cursor(m.cursor)),
                ),
                ListAction::SelectFirst => (
                    MainMenu { cursor: Some(0usize) },
                    menu_change_page(Some(0usize)),
                ),
                ListAction::SelectLast => (
                    MainMenu { cursor: Some((MENU_LEN - 1) as usize) },
                    menu_change_page(Some((MENU_LEN - 1) as usize)),
                ),
                ListAction::SelectNone => (MainMenu { cursor: None }, None),
                ListAction::MakeSelection => (m, menu_focus_page(vs)),
            }
        } else {
            (m, None)
        },
        _ => (m, None),
    }
}

impl MainMenu {
    /// The cursor always stays on a real entry (or is cleared).
    pub open spec fn wf(self) -> bool {
        self.cursor matches Some(i) ==> i < MENU_LEN
    }

    /// A fresh menu highlights the first entry.
    pub fn new() -> (r: Self)
        ensures
            r.cursor == Some(0usize),
            r.wf(),
    {
        MainMenu { cursor: Some(0) }
    }

    fn change_page(&self) -> (r: Option<Action>)
        ensures
            r == menu_change_page(self.cursor),
    {
        match self.cursor {
            Some(i) => {
                let page = if i == 1 {
                    Page::PackageSources
                } else {
                    Page::System
                };
                Some(Action::UpdateViewState(ViewState::new(Mode::MainMenu, page)))
            },
            None => None,
        }
    }

    fn next_option(&mut self) -> (r: Option<Action>)
        ensures
            final(self).cursor == menu_next_cursor(old(self).cursor),
            r == menu_change_page(final(self).cursor),
    {
        self.cursor = match self.cursor {
            Some(i) => if i < MENU_LEN - 1 {
                Some(i + 1)
            } else {
                Some(0)
            },
            None => Some(0),
        };
        self.change_page()
    }

    fn prev_option(&mut self) -> (r: Option<Action>)
        ensures
            final(self).cursor == menu_prev_cursor(old(self).cursor),
            r == menu_change_page(final(self).cursor),
    {
        self.cursor = match self.cursor {
            Some(i) => if i > 0 {
                Some(i - 1)
            } else {
                Some(MENU_LEN - 1)
            },
            None => Some(MENU_LEN - 1),
        };
        self.change_page()
    }

    fn first_option(&mut self) -> (r: Option<Action>)
        ensures
            final(self).cursor == Some(0usize),
            r == menu_change_page(Some(0usize)),
    {
        self.cursor = Some(0);
        self.change_page()
    }

    fn last_option(&mut self) -> (r: Option<Action>)
        ensures
            final(self).cursor == Some((MENU_LEN - 1) as usize),
            r == menu_change_page(Some((MENU_LEN - 1) as usize)),
    {
        self.cursor = Some(MENU_LEN - 1);
        self.change_page()
    }

    fn focus_page(&self, view_state: ViewState) -> (r: Option<Action>)
        ensures
            r == menu_focus_page(view_state),
    {
        match view_state.page {
            Page::System => Some(
                Action::UpdateViewState(ViewState::new(Mode::System, view_state.page)),
            ),
            Page::InstalledPackages => Some(
                Action::UpdateViewState(ViewState::new(Mode::InstalledPackageTabs, view_state.page)),
            ),
            Page::PackageSources => Some(
                Action::UpdateViewState(ViewState::new(Mode::PackageSourceTabs, view_state.page)),
            ),
            Page::ConfirmationPopup => None,
        }
    }

    /// Apply one dispatched action under the broadcast view-state snapshot;
    /// the returned action, if any, is to be re-enqueued by the runtime.
    pub fn update(&mut self, action: &Action, view_state: ViewState) -> (r: Option<Action>)
        ensures
            *final(self) == menu_update(*old(self), *action, view_state).0,
            r == menu_update(*old(self), *action, view_state).1,
            old(self).wf() ==> final(self).wf(),
    {
        match action {
            Action::ListAction(la) => {
                if view_state.mode == Mode::MainMenu {
                    match la {
                        ListAction::SelectNext => self.next_option(),
                        ListAction::SelectPrev => self.prev_option(),
                        ListAction::SelectFirst => self.first_option(),
                        ListAction::SelectLast => self.last_option(),
                        ListAction::SelectNone => {
                            self.cursor = None;
                            None
                        },
                        ListAction::MakeSelection => self.focus_page(view_state),
                    }
                } else {
                    None
                }
            },
            _ => None,
        }
    }

    /// Whether the menu's border is drawn focused: exactly when the
    /// broadcast mode is `MainMenu`.
    pub fn is_focused(&self, view_state: ViewState) -> (r: bool)
        ensures
            r == (view_state.mode == Mode::MainMenu),
    {
        match view_state.mode {
            Mode::MainMenu => true,
            _ => false,
        }
    }
}

/// The menu state after applying "select next" `n` times.
pub open spec fn menu_select_next_n(m: MainMenu, vs: ViewState, n: nat) -> MainMenu
    decreases n,
{
    if n == 0 {
        m
    } else {
        menu_select_next_n(
            menu_update(m, Action::ListAction(ListAction::SelectNext), vs).0,
            vs,
            (n - 1) as nat,
        )
    }
}

/// Law: with the menu focused, applying "select next" once per menu entry
/// walks the cursor one full lap and returns it to its starting position.
pub proof fn lemma_menu_full_lap(m: MainMenu, vs: ViewState)
    requires
        vs.mode == Mode::MainMenu,
        m.cursor matches Some(i) && i < MENU_LEN,
    ensures
        menu_select_next_n(m, vs, MENU_LEN as nat) == m,
{
    reveal_with_fuel(menu_select_next_n, 3);
}

} // verus!
