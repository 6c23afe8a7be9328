//! An action-driven terminal-dashboard runtime: the event/action dispatch
//! loop, a layered keybinding resolver with multi-key chord sequences, a
//! fixed component tree, and the mode/page view-state machine that decides
//! what is visible and focused. Terminal I/O, timers and file reading live
//! outside this crate; everything here is pure state manipulation with
//! verified contracts.
pub mod action;
pub mod app;
pub mod apt;
pub mod installed_packages;
pub mod keymap;
pub mod layout;
pub mod main_menu;
pub mod package_sources;
pub mod system_page;
pub mod tree;
pub mod ui;

pub use action::Action;
pub use action::Effect;
pub use action::ListAction;
pub use keymap::Binding;
pub use keymap::KeyBindings;
pub use keymap::KeyPress;
pub use keymap::Layer;
pub use ui::Mode;
pub use ui::Page;
pub use ui::ViewState;
