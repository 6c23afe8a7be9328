//! The view-state data model: which keybinding context (`Mode`) is active and
//! which content area (`Page`) is visible. A `ViewState` is the single source
//! of truth that the runtime broadcasts, by value, to every component on every
//! dispatch and draw cycle.
use vstd::prelude::*;

verus! {

/// The active keybinding and focus context.
///
/// `Universal`, `List` and `Tabs` name generic keymap layers rather than
/// concrete screens; the remaining variants name concrete focus targets. By
/// convention a mode whose name ends in "List" (plus `MainMenu`) also
/// activates the generic `List` layer, and a mode whose name ends in "Tabs"
/// also activates the generic `Tabs` layer.
#[derive(Debug, Copy, Clone, PartialEq, Eq, Hash, Structural)]
pub enum Mode {
    Universal,
    List,
    Tabs,
    MainMenu,
    System,
    InstalledPackageTabs,
    InstalledPackageList,
    PackageSourceTabs,
    PackageSourceList,
    ConfirmationPopup,
}

impl Default for Mode {
    fn default() -> (r: Self)
        ensures
            r == Mode::MainMenu,
    {
        Mode::MainMenu
    }
}

/// True for the modes whose name ends in "List", plus `MainMenu`: these
/// activate the generic `List` keymap layer.
pub open spec fn is_list_mode(m: Mode) -> bool {
    m == Mode::List || m == Mode::MainMenu || m == Mode::InstalledPackageList || m
        == Mode::PackageSourceList
}

/// True for the modes whose name ends in "Tabs": these activate the generic
/// `Tabs` keymap layer.
pub open spec fn is_tabs_mode(m: Mode) -> bool {
    m == Mode::Tabs || m == Mode::InstalledPackageTabs || m == Mode::PackageSourceTabs
}

impl Mode {
    /// Whether the generic `List` keymap layer is active in this mode.
    pub fn activates_list_layer(&self) -> (r: bool)
        ensures
            r == is_list_mode(*self),
    {
        match self {
            Mode::List | Mode::MainMenu | Mode::InstalledPackageList | Mode::PackageSourceList =>
                true,
            _ => false,
        }
    }

    /// Whether the generic `Tabs` keymap layer is active in this mode.
    pub fn activates_tabs_layer(&self) -> (r: bool)
        ensures
            r == is_tabs_mode(*self),
    {
        match self {
            Mode::Tabs | Mode::InstalledPackageTabs | Mode::PackageSourceTabs => true,
            _ => false,
        }
    }
}

/// The currently visible content area.
#[derive(Debug, Copy, Clone, PartialEq, Eq, Hash, Structural)]
pub enum Page {
    System,
    PackageSources,
    InstalledPackages,
    ConfirmationPopup,
}

impl Default for Page {
    fn default() -> (r: Self)
        ensures
            r == Page::System,
    {
        Page::System
    }
}

/// The (mode, page) pair broadcast to every component. Created once at
/// startup as `(MainMenu, System)` and mutated only by the runtime's
/// housekeeping step.
#[derive(Debug, Copy, Clone, PartialEq, Eq, Hash, Structural)]
pub struct ViewState {
    pub page: Page,
    pub mode: Mode,
}

impl ViewState {
    pub fn new(mode: Mode, page: Page) -> (r: Self)
        ensures
            r.mode == mode,
            r.page == page,
    {
        ViewState { mode, page }
    }
}

impl Default for ViewState {
    fn default() -> (r: Self)
        ensures
            r.mode == Mode::MainMenu,
            r.page == Page::System,
    {
        ViewState { mode: Mode::MainMenu, page: Page::System }
    }
}

} // verus!
