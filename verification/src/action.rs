//! The discrete intent values that flow through the dispatch queue, and the
//! terminal-side effects the drain step asks the embedding program to
//! perform. Producing an action never blocks; actions carry no side channels.
use vstd::prelude::*;

use crate::ui::ViewState;

verus! {

/// Sub-actions for list-oriented components (the main menu, tab rows and
/// scrollable lists).
#[derive(Debug, Copy, Clone, PartialEq, Eq, Structural)]
pub enum ListAction {
    SelectNext,
    SelectPrev,
    SelectFirst,
    SelectLast,
    SelectNone,
    MakeSelection,
}

/// One intent value in the dispatch queue.
#[derive(Debug, PartialEq, Eq)]
pub enum Action {
    Tick,
    Render,
    Resize(u16, u16),
    Suspend,
    Resume,
    Quit,
    ClearScreen,
    Error(String),
    Help,
    ListAction(ListAction),
    UpdateViewState(ViewState),
    FocusMainMenu,
    NextMode,
    PrevMode,
}

impl Clone for Action {
    fn clone(&self) -> (r: Self)
        ensures
            r == *self,
    {
        match self {
            Action::Tick => Action::Tick,
            Action::Render => Action::Render,
            Action::Resize(w, h) => Action::Resize(*w, *h),
            Action::Suspend => Action::Suspend,
            Action::Resume => Action::Resume,
            Action::Quit => Action::Quit,
            Action::ClearScreen => Action::ClearScreen,
            Action::Error(msg) => Action::Error(msg.clone()),
            Action::Help => Action::Help,
            Action::ListAction(la) => Action::ListAction(*la),
            Action::UpdateViewState(vs) => Action::UpdateViewState(*vs),
            Action::FocusMainMenu => Action::FocusMainMenu,
            Action::NextMode => Action::NextMode,
            Action::PrevMode => Action::PrevMode,
        }
    }
}

/// A terminal operation that the drain step decided on but cannot perform
/// itself; the embedding program executes these in order after each drain.
#[derive(Debug, Copy, Clone, PartialEq, Eq, Structural)]
pub enum Effect {
    ClearScreen,
    Resize(u16, u16),
    Render,
}

} // verus!
