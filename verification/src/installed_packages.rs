//! The installed-packages page component. Its navigation is not wired up
//! yet; it only decides its own visibility and focus styling from the
//! broadcast view state.
use vstd::prelude::*;

use crate::action::Action;
use crate::ui::Mode;
use crate::ui::Page;
use crate::ui::ViewState;

verus! {

/// Whether the installed-packages page is the visible content component
/// for `p`.
pub open spec fn installed_packages_visible(p: Page) -> bool {
    p == Page::InstalledPackages
}

/// The installed-packages content page.
#[derive(Debug, Copy, Clone, PartialEq, Eq, Structural)]
pub struct InstalledPackages {
}

/// What one dispatched action does to the installed-packages page:
/// nothing, and no follow-up action is emitted.
pub open spec fn installed_update(c: InstalledPackages, a: Action, vs: ViewState) -> (
    InstalledPackages,
    Option<Action>,
) {
    (c, None)
}

impl InstalledPackages {
    pub fn new() -> (r: Self)
        ensures
            r == (InstalledPackages {  }),
    {
        InstalledPackages {  }
    }

    /// Apply one dispatched action under the broadcast view-state snapshot.
    pub fn update(&mut self, action: &Action, view_state: ViewState) -> (r: Option<Action>)
        ensures
            *final(self) == installed_update(*old(self), *action, view_state).0,
            r == installed_update(*old(self), *action, view_state).1,
    {
        None
    }

    /// Whether this page draws itself: exactly when the broadcast page is
    /// the installed-packages page.
    pub fn is_visible(&self, view_state: ViewState) -> (r: bool)
        ensures
            r == installed_packages_visible(view_state.page),
    {
        match view_state.page {
            Page::InstalledPackages => true,
            _ => false,
        }
    }

    /// Whether the page's border is drawn focused: exactly when one of the
    /// installed-packages sub-modes is active.
    pub fn is_focused(&self, view_state: ViewState) -> (r: bool)
        ensures
            r == (view_state.mode == Mode::InstalledPackageTabs || view_state.mode
                == Mode::InstalledPackageList),
    {
        match view_state.mode {
            Mode::InstalledPackageTabs | Mode::InstalledPackageList => true,
            _ => false,
        }
    }
}

} // verus!
