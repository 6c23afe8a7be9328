//! Layered keymap resolution: precedence, layer activation by mode, and
//! chord buffering with the tick timeout.
use sysdash::action::Action;
use sysdash::action::ListAction;
use sysdash::app::App;
use sysdash::keymap::Binding;
use sysdash::keymap::KeyBindings;
use sysdash::keymap::KeyPress;
use sysdash::keymap::Layer;
use sysdash::ui::Mode;

fn key(code: u16) -> KeyPress {
    KeyPress::new(code, 0)
}

fn binding(codes: &[u16], action: Action) -> Binding {
    Binding {
        keys: codes.iter().map(|c| key(*c)).collect(),
        action,
    }
}

/// A keymap with all four layers populated:
///   Universal: q -> Quit, x -> Help
///   List:      j -> SelectNext, x -> ListAction(SelectFirst)
///   Tabs:      l -> ListAction(SelectNext)
///   System:    x -> ClearScreen
fn sample_bindings() -> KeyBindings {
    KeyBindings {
        layers: vec![
            Layer {
                mode: Mode::Universal,
                bindings: vec![
                    binding(&[b'q' as u16], Action::Quit),
                    binding(&[b'x' as u16], Action::Help),
                ],
            },
            Layer {
                mode: Mode::List,
                bindings: vec![
                    binding(&[b'j' as u16], Action::ListAction(ListAction::SelectNext)),
                    binding(&[b'x' as u16], Action::ListAction(ListAction::SelectFirst)),
                ],
            },
            Layer {
                mode: Mode::Tabs,
                bindings: vec![binding(&[b'l' as u16], Action::ListAction(ListAction::SelectNext))],
            },
            Layer {
                mode: Mode::System,
                bindings: vec![binding(&[b'x' as u16], Action::ClearScreen)],
            },
        ],
    }
}

fn resolve_one(kb: &KeyBindings, mode: Mode, code: u16) -> Option<Action> {
    kb.resolve_sequence(mode, &vec![key(code)])
}

#[test]
fn universal_layer_reaches_every_mode() {
    let kb = sample_bindings();
    for mode in [
        Mode::Universal,
        Mode::List,
        Mode::Tabs,
        Mode::MainMenu,
        Mode::System,
        Mode::InstalledPackageTabs,
        Mode::InstalledPackageList,
        Mode::PackageSourceTabs,
        Mode::PackageSourceList,
        Mode::ConfirmationPopup,
    ] {
        assert_eq!(resolve_one(&kb, mode, b'q' as u16), Some(Action::Quit));
    }
}

#[test]
fn list_layer_active_in_list_modes_and_main_menu() {
    let kb = sample_bindings();
    let next = Some(Action::ListAction(ListAction::SelectNext));
    assert_eq!(resolve_one(&kb, Mode::MainMenu, b'j' as u16), next);
    assert_eq!(resolve_one(&kb, Mode::PackageSourceList, b'j' as u16), next);
    assert_eq!(resolve_one(&kb, Mode::InstalledPackageList, b'j' as u16), next);
    // not active elsewhere
    assert_eq!(resolve_one(&kb, Mode::System, b'j' as u16), None);
    assert_eq!(resolve_one(&kb, Mode::PackageSourceTabs, b'j' as u16), None);
}

#[test]
fn tabs_layer_active_in_tabs_modes_only() {
    let kb = sample_bindings();
    let next = Some(Action::ListAction(ListAction::SelectNext));
    assert_eq!(resolve_one(&kb, Mode::PackageSourceTabs, b'l' as u16), next);
    assert_eq!(resolve_one(&kb, Mode::InstalledPackageTabs, b'l' as u16), next);
    assert_eq!(resolve_one(&kb, Mode::MainMenu, b'l' as u16), None);
    assert_eq!(resolve_one(&kb, Mode::System, b'l' as u16), None);
}

#[test]
fn later_layers_override_earlier_ones() {
    let kb = sample_bindings();
    // Universal alone binds x -> Help.
    assert_eq!(resolve_one(&kb, Mode::ConfirmationPopup, b'x' as u16), Some(Action::Help));
    // The List layer overrides it in list-like modes.
    assert_eq!(
        resolve_one(&kb, Mode::MainMenu, b'x' as u16),
        Some(Action::ListAction(ListAction::SelectFirst))
    );
    // The exact-mode layer overrides everything.
    assert_eq!(resolve_one(&kb, Mode::System, b'x' as u16), Some(Action::ClearScreen));
}

#[test]
fn unmatched_sequence_resolves_to_nothing() {
    let kb = sample_bindings();
    assert_eq!(resolve_one(&kb, Mode::System, b'z' as u16), None);
    assert_eq!(kb.resolve_sequence(Mode::System, &vec![key(b'q' as u16), key(b'q' as u16)]), None);
}

#[test]
fn unmatched_key_is_buffered_until_tick() {
    let kb = sample_bindings();
    let mut app = App::new(kb);
    // 'z' is unbound: no action is enqueued, the key is retained.
    app.handle_key_event(key(b'z' as u16));
    assert_eq!(app.queue.len(), 0);
    assert_eq!(app.last_tick_key_events, vec![key(b'z' as u16)]);
    // Still retained after another unbound key.
    app.handle_key_event(key(b'y' as u16));
    assert_eq!(app.queue.len(), 0);
    assert_eq!(app.last_tick_key_events.len(), 2);
    // A tick clears the buffer unconditionally.
    app.enqueue(Action::Tick);
    app.handle_actions();
    assert_eq!(app.last_tick_key_events.len(), 0);
}

#[test]
fn multi_key_chord_resolves_from_the_buffer() {
    let kb = KeyBindings {
        layers: vec![Layer {
            mode: Mode::Universal,
            bindings: vec![binding(&[b'g' as u16, b'g' as u16], Action::ListAction(ListAction::SelectFirst))],
        }],
    };
    let mut app = App::new(kb);
    // First 'g': no single-key binding, buffered, chord [g] has no binding.
    app.handle_key_event(key(b'g' as u16));
    assert_eq!(app.queue.len(), 0);
    assert_eq!(app.last_tick_key_events.len(), 1);
    // Second 'g': chord [g, g] resolves.
    app.handle_key_event(key(b'g' as u16));
    assert_eq!(app.queue, vec![Action::ListAction(ListAction::SelectFirst)]);
}

#[test]
fn single_key_hit_does_not_touch_the_buffer() {
    let kb = sample_bindings();
    let mut app = App::new(kb);
    app.handle_key_event(key(b'q' as u16));
    assert_eq!(app.queue, vec![Action::Quit]);
    assert_eq!(app.last_tick_key_events.len(), 0);
}

#[test]
fn absent_universal_layer_ignores_all_keys() {
    let kb = KeyBindings {
        layers: vec![Layer {
            mode: Mode::System,
            bindings: vec![binding(&[b'x' as u16], Action::ClearScreen)],
        }],
    };
    assert!(!kb.has_universal_layer());
    let mut app = App::new(kb);
    // Even a key the System layer binds is dropped outright: nothing is
    // enqueued and nothing is buffered.
    app.handle_key_event(key(b'x' as u16));
    assert_eq!(app.queue.len(), 0);
    assert_eq!(app.last_tick_key_events.len(), 0);
}
