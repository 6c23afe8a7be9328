//! The system-information page component. It owns no navigable state yet;
//! it decides its own visibility from the broadcast page and keeps a focus
//! flag for its border styling.
use vstd::prelude::*;

use crate::action::Action;
use crate::ui::Page;
use crate::ui::ViewState;

verus! {

/// Whether the system page is the visible content component for `p`.
pub open spec fn system_page_visible(p: Page) -> bool {
    p == Page::System
}

/// The system-information content page.
#[derive(Debug, Copy, Clone, PartialEq, Eq, Structural)]
pub struct SystemPage {
    pub focused: bool,
}

/// What one dispatched action does to the system page: nothing, and no
/// follow-up action is emitted.
pub open spec fn system_update(s: SystemPage, a: Action, vs: ViewState) -> (
    SystemPage,
    Option<Action>,
) {
    (s, None)
}

impl SystemPage {
    pub fn new() -> (r: Self)
        ensures
            r.focused == false,
    {
        SystemPage { focused: false }
    }

    /// Apply one dispatched action under the broadcast view-state snapshot.
    pub fn update(&mut self, action: &Action, view_state: ViewState) -> (r: Option<Action>)
        ensures
            *final(self) == system_update(*old(self), *action, view_state).0,
            r == system_update(*old(self), *action, view_state).1,
    {
        None
    }

    /// Whether this page draws itself: exactly when the broadcast page is
    /// the system page.
    pub fn is_visible(&self, view_state: ViewState) -> (r: bool)
        ensures
            r == system_page_visible(view_state.page),
    {
        match view_state.page {
            Page::System => true,
            _ => false,
        }
    }

    /// Whether the page's border is drawn focused.
    pub fn is_focused(&self) -> (r: bool)
        ensures
            r == self.focused,
    {
        self.focused
    }
}

} // verus!
