//! The package-sources page component: a tab row over the supported
//! package managers and a scrollable list of the scanned source entries.
//! Navigation wraps at both ends; moving between the tab row and the list
//! is a mode change the component itself requests.
use vstd::prelude::*;

use crate::action::Action;
use crate::action::ListAction;
use crate::apt::spec_repository_uris;
use crate::apt::AptRepositories;
use crate::apt::AptRepositoriesModel;
use crate::ui::Mode;
use crate::ui::Page;
use crate::ui::ViewState;

verus! {

/// How many package-manager tabs the page shows.
pub const TAB_COUNT: usize = 3;

/// The tab titles, in tab order.
pub fn tab_titles() -> (r: Vec<&'static str>)
    ensures
        r@.len() == TAB_COUNT,
        r@[0]@ == "Apt"@,
        r@[1]@ == "Flatpak"@,
        r@[2]@ == "Homebrew"@,
{
    let mut v: Vec<&'static str> = Vec::new();
    v.push("Apt");
    v.push("Flatpak");
    v.push("Homebrew");
    v
}

/// Whether the package-sources page is the visible content component for
/// `p`.
pub open spec fn package_sources_visible(p: Page) -> bool {
    p == Page::PackageSources
}

/// The package-sources content page.
#[derive(Debug)]
pub struct PackageSources {
    pub is_enabled: bool,
    pub repositories: AptRepositories,
    pub selected_tab: usize,
    pub list_cursor: Option<usize>,
}

pub ghost struct PackageSourcesModel {
    pub is_enabled: bool,
    pub repositories: AptRepositoriesModel,
    pub selected_tab: usize,
    pub list_cursor: Option<usize>,
}

impl View for PackageSources {
    type V = PackageSourcesModel;

    open spec fn view(&self) -> PackageSourcesModel {
        PackageSourcesModel {
            is_enabled: self.is_enabled,
            repositories: self.repositories@,
            selected_tab: self.selected_tab,
            list_cursor: self.list_cursor,
        }
    }
}

/// How many entries the page's list shows: the flattened repository list.
pub open spec fn sources_list_len(s: PackageSourcesModel) -> nat {
    spec_repository_uris(s.repositories.items).len()
}

/// The next tab, wrapping from the last to the first.
pub open spec fn next_tab(t: usize) -> usize {
    if t < TAB_COUNT - 1 {
        (t + 1) as usize
    } else {
        0
    }
}

/// The previous tab, wrapping from the first to the last.
pub open spec fn prev_tab(t: usize) -> usize {
    if t > 0 {
        (t - 1) as usize
    } else {
        (TAB_COUNT - 1) as usize
    }
}

/// Where the list cursor lands after "select next": one step down,
/// wrapping from the last entry to the first; a cleared selection restarts
/// at the first entry. An empty list keeps the selection cleared.
pub open spec fn next_list_cursor(c: Option<usize>, n: nat) -> Option<usize> {
    if n == 0 {
        None
    } else {
        match c {
            None => Some(0usize),
            Some(i) => if i + 1 < n {
                Some((i + 1) as usize)
            } else {
                Some(0usize)
            },
        }
    }
}

/// Where the list cursor lands after "select previous": one step up,
/// wrapping from the first entry to the last; a cleared selection restarts
/// at the last entry. An empty list keeps the selection cleared.
pub open spec fn prev_list_cursor(c: Option<usize>, n: nat) -> Option<usize> {
    if n == 0 {
        None
    } else {
        match c {
            None => Some((n - 1) as usize),
            Some(i) => if i > 0 {
                Some((i - 1) as usize)
            } else {
                Some((n - 1) as usize)
            },
        }
    }
}

/// Where the list cursor lands after one list action over a list of `n`
/// entries.
pub open spec fn moved_list_cursor(c: Option<usize>, n: nat, la: ListAction) -> Option<usize> {
    match la {
        ListAction::SelectNext => next_list_cursor(c, n),
        ListAction::SelectPrev => prev_list_cursor(c, n),
        ListAction::SelectFirst => if n == 0 {
            None
        } else {
            Some(0usize)
        },
        ListAction::SelectLast => if n == 0 {
            None
        } else {
            Some((n - 1) as usize)
        },
        ListAction::SelectNone => None,
        ListAction::MakeSelection => c,
    }
}

/// What one dispatched action does to the package-sources page: list
/// actions drive the tab row in `PackageSourceTabs` mode and the list in
/// `PackageSourceList` mode; the next-mode and previous-mode actions move
/// focus between the two by requesting a view-state update.
pub open spec fn sources_update(s: PackageSourcesModel, a: Action, vs: ViewState) -> (
    PackageSourcesModel,
    Option<Action>,
) {
    match a {
        Action::ListAction(la) => match vs.mode {
            Mode::PackageSourceTabs => {
                let t = match la {
                    ListAction::SelectNext => next_tab(s.selected_tab),
                    ListAction::SelectPrev => prev_tab(s.selected_tab),
                    _ => s.selected_tab,
                };
                (PackageSourcesModel { selected_tab: t, ..s }, None)
            },
            Mode::PackageSourceList => (
                PackageSourcesModel {
                    list_cursor: moved_list_cursor(s.list_cursor, sources_list_len(s), la),
                    ..s
                },
                None,
            ),
            _ => (s, None),
        },
        Action::NextMode => if vs.mode == Mode::PackageSourceTabs {
            (
                s,
                Some(
                    Action::UpdateViewState(
                        ViewState { mode: Mode::PackageSourceList, page: vs.page },
                    ),
                ),
            )
        } else {
            (s, None)
        },
        Action::PrevMode => if vs.mode == Mode::PackageSourceList {
            (
                s,
                Some(
                    Action::UpdateViewState(
                        ViewState { mode: Mode::PackageSourceTabs, page: vs.page },
                    ),
                ),
            )
        } else {
            (s, None)
        },
        _ => (s, None),
    }
}

impl PackageSources {
    /// The tab stays on a real tab and the list cursor on a real entry.
    pub open spec fn wf(self) -> bool {
        &&& self.selected_tab < TAB_COUNT
        &&& (self.list_cursor matches Some(i) ==> (i as nat) < sources_list_len(self@))
    }

    /// A fresh page: availability unknown, nothing scanned, first tab
    /// selected, no list entry selected.
    pub fn new() -> (r: Self)
        ensures
            r@.is_enabled == false,
            r@.repositories.initialized == false,
            r@.repositories.items.len() == 0,
            r@.selected_tab == 0,
            r@.list_cursor is None,
            r.wf(),
    {
        PackageSources {
            is_enabled: false,
            repositories: AptRepositories::new(),
            selected_tab: 0,
            list_cursor: None,
        }
    }

    /// Record whether a source-list directory is available at all; the
    /// embedding program probes this once at startup.
    pub fn set_available(&mut self, available: bool)
        ensures
            *final(self) == (PackageSources { is_enabled: available, ..*old(self) }),
    {
        self.is_enabled = available;
    }

    fn next_tab_item(&mut self) -> (r: Option<Action>)
        ensures
            final(self).selected_tab == next_tab(old(self).selected_tab),
            final(self).repositories == old(self).repositories,
            final(self).is_enabled == old(self).is_enabled,
            final(self).list_cursor == old(self).list_cursor,
            r is None,
    {
        if self.selected_tab < TAB_COUNT - 1 {
            self.selected_tab = self.selected_tab + 1;
        } else {
            self.selected_tab = 0;
        }
        None
    }

    fn prev_tab_item(&mut self) -> (r: Option<Action>)
        ensures
            final(self).selected_tab == prev_tab(old(self).selected_tab),
            final(self).repositories == old(self).repositories,
            final(self).is_enabled == old(self).is_enabled,
            final(self).list_cursor == old(self).list_cursor,
            r is None,
    {
        if self.selected_tab > 0 {
            self.selected_tab = self.selected_tab - 1;
        } else {
            self.selected_tab = TAB_COUNT - 1;
        }
        None
    }

    fn handle_tab_movement(&mut self, list_action: ListAction) -> (r: Option<Action>)
        ensures
            final(self).selected_tab == (match list_action {
                ListAction::SelectNext => next_tab(old(self).selected_tab),
                ListAction::SelectPrev => prev_tab(old(self).selected_tab),
                _ => old(self).selected_tab,
            }),
            final(self).repositories == old(self).repositories,
            final(self).is_enabled == old(self).is_enabled,
            final(self).list_cursor == old(self).list_cursor,
            r is None,
    {
        match list_action {
            ListAction::SelectNext => self.next_tab_item(),
            ListAction::SelectPrev => self.prev_tab_item(),
            _ => None,
        }
    }

    fn handle_list_movement(&mut self, list_action: ListAction) -> (r: Option<Action>)
        ensures
            final(self).list_cursor == moved_list_cursor(
                old(self).list_cursor,
                sources_list_len(old(self)@),
                list_action,
            ),
            final(self).repositories == old(self).repositories,
            final(self).is_enabled == old(self).is_enabled,
            final(self).selected_tab == old(self).selected_tab,
            r is None,
    {
        let n = self.repositories.source_count();
        match list_action {
            ListAction::SelectNext => {
                self.list_cursor = if n == 0 {
                    None
                } else {
                    match self.list_cursor {
                        None => Some(0),
                        Some(i) => if i < n - 1 {
                            Some(i + 1)
                        } else {
                            Some(0)
                        },
                    }
                };
            },
            ListAction::SelectPrev => {
                self.list_cursor = if n == 0 {
                    None
                } else {
                    match self.list_cursor {
                        None => Some(n - 1),
                        Some(i) => if i > 0 {
                            Some(i - 1)
                        } else {
                            Some(n - 1)
                        },
                    }
                };
            },
            ListAction::SelectFirst => {
                self.list_cursor = if n == 0 {
                    None
                } else {
                    Some(0)
                };
            },
            ListAction::SelectLast => {
                self.list_cursor = if n == 0 {
                    None
                } else {
                    Some(n - 1)
                };
            },
            ListAction::SelectNone => {
                self.list_cursor = None;
            },
            ListAction::MakeSelection => {},
        }
        None
    }

    /// Apply one dispatched action under the broadcast view-state snapshot;
    /// the returned action, if any, is to be re-enqueued by the runtime.
    pub fn update(&mut self, action: &Action, view_state: ViewState) -> (r: Option<Action>)
        ensures
            final(self)@ == sources_update(old(self)@, *action, view_state).0,
            r == sources_update(old(self)@, *action, view_state).1,
            old(self).wf() ==> final(self).wf(),
    {
        match action {
            Action::ListAction(la) => match view_state.mode {
                Mode::PackageSourceTabs => self.handle_tab_movement(*la),
                Mode::PackageSourceList => self.handle_list_movement(*la),
                _ => None,
            },
            Action::NextMode => {
                if view_state.mode == Mode::PackageSourceTabs {
                    Some(
                        Action::UpdateViewState(
                            ViewState::new(Mode::PackageSourceList, view_state.page),
                        ),
                    )
                } else {
                    None
                }
            },
            Action::PrevMode => {
                if view_state.mode == Mode::PackageSourceList {
                    Some(
                        Action::UpdateViewState(
                            ViewState::new(Mode::PackageSourceTabs, view_state.page),
                        ),
                    )
                } else {
                    None
                }
            },
            _ => None,
        }
    }

    /// Whether this page draws itself: exactly when the broadcast page is
    /// the package-sources page.
    pub fn is_visible(&self, view_state: ViewState) -> (r: bool)
        ensures
            r == package_sources_visible(view_state.page),
    {
        match view_state.page {
            Page::PackageSources => true,
            _ => false,
        }
    }

    /// Whether the page's border is drawn focused: exactly when one of the
    /// package-sources sub-modes is active.
    pub fn is_focused(&self, view_state: ViewState) -> (r: bool)
        ensures
            r == (view_state.mode == Mode::PackageSourceTabs || view_state.mode
                == Mode::PackageSourceList),
    {
        match view_state.mode {
            Mode::PackageSourceTabs | Mode::PackageSourceList => true,
            _ => false,
        }
    }
}

} // verus!
