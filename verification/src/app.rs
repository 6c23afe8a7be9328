//! The application runtime: it owns the action queue, the keybinding
//! resolver state, the broadcast view state and the component tree, and
//! drives the event, action, dispatch and render cycle. Every transition
//! is specified by a model-level step function; the drain step is the
//! work-list loop that processes every queued action, including the ones
//! components enqueue during the same pass.
use vstd::prelude::*;

use crate::action::Action;
use crate::action::Effect;
use crate::installed_packages::installed_update;
use crate::keymap::layer_bindings;
use crate::keymap::resolve;
use crate::keymap::KeyBindings;
use crate::keymap::KeyPress;
use crate::keymap::LayerModel;
use crate::main_menu::menu_update;
use crate::package_sources::sources_update;
use crate::system_page::system_update;
use crate::tree::opt_seq;
use crate::tree::tree_update;
use crate::tree::ComponentTree;
use crate::tree::TreeModel;
use crate::ui::Mode;
use crate::ui::Page;
use crate::ui::ViewState;

verus! {

/// One event from the terminal backend or a timer, already reduced to the
/// plain values the runtime needs. Anything the runtime ignores arrives as
/// `Other`.
#[derive(Debug, Copy, Clone, PartialEq, Eq, Structural)]
pub enum Event {
    Quit,
    Tick,
    Render,
    Resize(u16, u16),
    Key(KeyPress),
    Other,
}

/// The application runtime state.
#[derive(Debug)]
pub struct App {
    pub keybindings: KeyBindings,
    pub view_state: ViewState,
    pub should_quit: bool,
    pub should_suspend: bool,
    pub last_tick_key_events: Vec<KeyPress>,
    pub queue: Vec<Action>,
    pub components: ComponentTree,
}

pub ghost struct AppModel {
    pub keybindings: Seq<LayerModel>,
    pub view_state: ViewState,
    pub should_quit: bool,
    pub should_suspend: bool,
    pub chord: Seq<KeyPress>,
    pub queue: Seq<Action>,
    pub components: TreeModel,
}

impl View for App {
    type V = AppModel;

    open spec fn view(&self) -> AppModel {
        AppModel {
            keybindings: self.keybindings@,
            view_state: self.view_state,
            should_quit: self.should_quit,
            should_suspend: self.should_suspend,
            chord: self.last_tick_key_events@,
            queue: self.queue@,
            components: self.components@,
        }
    }
}

/// What one action does to the broadcast view state: a view-state update
/// replaces it, the return-to-menu action resets the mode and keeps the
/// page, and every other action leaves it unchanged.
pub open spec fn view_state_step(vs: ViewState, a: Action) -> ViewState {
    match a {
        Action::UpdateViewState(v) => v,
        Action::FocusMainMenu => ViewState { mode: Mode::MainMenu, page: vs.page },
        _ => vs,
    }
}

/// The terminal-side effects the runtime's housekeeping asks for: a clear,
/// a resize followed by a forced render, or a render pass.
pub open spec fn housekeep_effects(a: Action) -> Seq<Effect> {
    match a {
        Action::ClearScreen => seq![Effect::ClearScreen],
        Action::Resize(w, h) => seq![Effect::Resize(w, h), Effect::Render],
        Action::Render => seq![Effect::Render],
        _ => Seq::empty(),
    }
}

/// The runtime-level housekeeping evaluated before component dispatch: a
/// tick clears the chord buffer, quit and suspend set their flags, resume
/// clears the suspend flag, the view-state actions move the view state,
/// and the screen-touching actions are turned into effects.
pub open spec fn housekeep(m: AppModel, a: Action) -> (AppModel, Seq<Effect>) {
    (
        AppModel {
            view_state: view_state_step(m.view_state, a),
            chord: if a is Tick {
                Seq::empty()
            } else {
                m.chord
            },
            should_quit: m.should_quit || a is Quit,
            should_suspend: if a is Suspend {
                true
            } else if a is Resume {
                false
            } else {
                m.should_suspend
            },
            ..m
        },
        housekeep_effects(a),
    )
}

/// Dispatch of one action: housekeeping first, then the action and a
/// snapshot of the (possibly just-updated) view state go to every
/// component, and whatever the components emit is enqueued.
pub open spec fn spec_dispatch(m: AppModel, a: Action) -> (AppModel, Seq<Effect>) {
    let h = housekeep(m, a);
    let t = tree_update(h.0.components, a, h.0.view_state);
    (AppModel { components: t.0, queue: h.0.queue + t.1, ..h.0 }, h.1)
}

/// The termination measure of one queued action: the actions components
/// may answer (list navigation and the mode-shift actions) weigh two, the
/// answers themselves — view-state updates — and everything else weigh one.
pub open spec fn action_weight(a: Action) -> nat {
    match a {
        Action::ListAction(_) => 2,
        Action::NextMode => 2,
        Action::PrevMode => 2,
        _ => 1,
    }
}

/// The termination measure of the whole queue.
pub open spec fn queue_weight(q: Seq<Action>) -> nat
    decreases q.len(),
{
    if q.len() == 0 {
        0
    } else {
        action_weight(q[0]) + queue_weight(q.drop_first())
    }
}

proof fn lemma_queue_weight_concat(q1: Seq<Action>, q2: Seq<Action>)
    ensures
        queue_weight(q1 + q2) == queue_weight(q1) + queue_weight(q2),
    decreases q1.len(),
{
    if q1.len() == 0 {
        assert(q1 + q2 =~= q2);
    } else {
        lemma_queue_weight_concat(q1.drop_first(), q2);
        assert((q1 + q2).drop_first() =~= q1.drop_first() + q2);
        assert((q1 + q2)[0] == q1[0]);
    }
}

proof fn lemma_opt_seq_weight(o: Option<Action>)
    ensures
        queue_weight(opt_seq(o)) == (match o {
            Some(x) => action_weight(x),
            None => 0nat,
        }),
{
    match o {
        Some(x) => {
            assert(seq![x].drop_first() =~= Seq::<Action>::empty());
            assert(queue_weight(seq![x]) == action_weight(x) + queue_weight(
                seq![x].drop_first(),
            ));
        },
        None => {},
    }
}

/// Components only ever answer a dispatched action with view-state
/// updates, and at most one component answers any one action; so what the
/// tree emits always weighs strictly less than the action that caused it.
/// This is what bounds the re-entrant drain: nothing else does, and a
/// component answering an action class with the same class would loop the
/// drain forever.
proof fn lemma_emitted_weight(t: TreeModel, a: Action, vs: ViewState)
    ensures
        queue_weight(tree_update(t, a, vs).1) < action_weight(a),
{
    let o1 = installed_update(t.installed_packages, a, vs).1;
    let o2 = menu_update(t.main_menu, a, vs).1;
    let o3 = sources_update(t.package_sources, a, vs).1;
    let o4 = system_update(t.system_page, a, vs).1;
    lemma_opt_seq_weight(o1);
    lemma_opt_seq_weight(o2);
    lemma_opt_seq_weight(o3);
    lemma_opt_seq_weight(o4);
    lemma_queue_weight_concat(opt_seq(o1), opt_seq(o2));
    lemma_queue_weight_concat(opt_seq(o1) + opt_seq(o2), opt_seq(o3));
    lemma_queue_weight_concat(opt_seq(o1) + opt_seq(o2) + opt_seq(o3), opt_seq(o4));
    assert(o2 matches Some(x) ==> action_weight(x) == 1);
    assert(o3 matches Some(x) ==> action_weight(x) == 1);
}

/// Dispatch of the queue's head action, on the state with the head
/// removed.
pub open spec fn spec_step(m: AppModel) -> (AppModel, Seq<Effect>)
    recommends
        m.queue.len() > 0,
{
    spec_dispatch(AppModel { queue: m.queue.drop_first(), ..m }, m.queue[0])
}

proof fn lemma_step_weight(m: AppModel)
    requires
        m.queue.len() > 0,
    ensures
        queue_weight(spec_step(m).0.queue) < queue_weight(m.queue),
{
    let a = m.queue[0];
    let rest = m.queue.drop_first();
    let m1 = AppModel { queue: rest, ..m };
    let h = housekeep(m1, a);
    let emitted = tree_update(h.0.components, a, h.0.view_state).1;
    lemma_emitted_weight(h.0.components, a, h.0.view_state);
    lemma_queue_weight_concat(rest, emitted);
}

/// The drain: pop and dispatch until the queue is empty, accumulating the
/// effects in dispatch order. Actions enqueued by components during the
/// drain are processed in the same pass.
pub open spec fn spec_drain(m: AppModel) -> (AppModel, Seq<Effect>)
    decreases queue_weight(m.queue),
        via spec_drain_decreases
{
    if m.queue.len() == 0 {
        (m, Seq::empty())
    } else {
        let s = spec_step(m);
        let rest = spec_drain(s.0);
        (rest.0, s.1 + rest.1)
    }
}

#[via_fn]
proof fn spec_drain_decreases(m: AppModel) {
    if m.queue.len() > 0 {
        lemma_step_weight(m);
    }
}

/// What one key press does to the runtime: with no universal layer
/// configured the key is ignored outright; otherwise the key alone is
/// resolved first, and on a miss it is appended to the chord buffer and
/// the whole buffer is resolved. A resolved action is enqueued; an
/// unresolved chord stays buffered until the next tick.
pub open spec fn key_event_step(m: AppModel, k: KeyPress) -> AppModel {
    if layer_bindings(m.keybindings, Mode::Universal) is None {
        m
    } else {
        match resolve(m.keybindings, m.view_state.mode, seq![k]) {
            Some(a) => AppModel { queue: m.queue.push(a), ..m },
            None => {
                let chord = m.chord.push(k);
                match resolve(m.keybindings, m.view_state.mode, chord) {
                    Some(a) => AppModel { chord, queue: m.queue.push(a), ..m },
                    None => AppModel { chord, ..m },
                }
            },
        }
    }
}

/// What one backend event does to the runtime: the timer and terminal
/// events enqueue their matching action, a key press goes through the
/// resolver, and anything else is ignored.
pub open spec fn event_step(m: AppModel, e: Event) -> AppModel {
    match e {
        Event::Quit => AppModel { queue: m.queue.push(Action::Quit), ..m },
        Event::Tick => AppModel { queue: m.queue.push(Action::Tick), ..m },
        Event::Render => AppModel { queue: m.queue.push(Action::Render), ..m },
        Event::Resize(w, h) => AppModel { queue: m.queue.push(Action::Resize(w, h)), ..m },
        Event::Key(k) => key_event_step(m, k),
        Event::Other => m,
    }
}

/// The runtime's startup state: view state `(MainMenu, System)`, no flags
/// set, empty chord buffer and queue, every component in its initial
/// state.
pub open spec fn init_app(kb: Seq<LayerModel>) -> AppModel {
    AppModel {
        keybindings: kb,
        view_state: ViewState { mode: Mode::MainMenu, page: Page::System },
        should_quit: false,
        should_suspend: false,
        chord: Seq::empty(),
        queue: Seq::empty(),
        components: TreeModel {
            installed_packages: crate::installed_packages::InstalledPackages {  },
            main_menu: crate::main_menu::MainMenu { cursor: Some(0usize) },
            package_sources: crate::package_sources::PackageSourcesModel {
                is_enabled: false,
                repositories: crate::apt::AptRepositoriesModel {
                    initialized: false,
                    items: Seq::empty(),
                },
                selected_tab: 0,
                list_cursor: None,
            },
            system_page: crate::system_page::SystemPage { focused: false },
        },
    }
}

impl App {
    /// The component invariants hold.
    pub open spec fn wf(self) -> bool {
        self.components.wf()
    }

    pub fn new(keybindings: KeyBindings) -> (r: Self)
        ensures
            r@ == init_app(keybindings@),
            r.wf(),
    {
        let components = ComponentTree::new();
        let r = App {
            keybindings,
            view_state: ViewState::new(Mode::MainMenu, Page::System),
            should_quit: false,
            should_suspend: false,
            last_tick_key_events: Vec::new(),
            queue: Vec::new(),
            components,
        };
        proof {
            assert(r.components@.package_sources.repositories.items =~= Seq::<
                crate::apt::AptListModel,
            >::empty());
            assert(r@ == init_app(keybindings@));
        }
        r
    }

    /// Append one action to the queue. Never blocks, never fails.
    pub fn enqueue(&mut self, action: Action)
        ensures
            final(self)@ == (AppModel { queue: old(self)@.queue.push(action), ..old(self)@ }),
            old(self).wf() ==> final(self).wf(),
    {
        self.queue.push(action);
    }

    /// Resolve one key press against the effective keymap for the active
    /// mode and enqueue the resolved action, if any.
    pub fn handle_key_event(&mut self, key: KeyPress)
        ensures
            final(self)@ == key_event_step(old(self)@, key),
            old(self).wf() ==> final(self).wf(),
    {
        if !self.keybindings.has_universal_layer() {
            return;
        }
        let mut single: Vec<KeyPress> = Vec::new();
        single.push(key);
        proof {
            assert(single@ =~= seq![key]);
        }
        match self.keybindings.resolve_sequence(self.view_state.mode, &single) {
            Some(a) => {
                self.queue.push(a);
            },
            None => {
                // Not a single-key binding: extend the chord buffer and try
                // the whole accumulated sequence as a multi-key binding.
                self.last_tick_key_events.push(key);
                let chord_action = self.keybindings.resolve_sequence(
                    self.view_state.mode,
                    &self.last_tick_key_events,
                );
                if let Some(a) = chord_action {
                    self.queue.push(a);
                }
            },
        }
    }

    /// Turn one backend event into at most one queued action.
    pub fn handle_event(&mut self, event: Event)
        ensures
            final(self)@ == event_step(old(self)@, event),
            old(self).wf() ==> final(self).wf(),
    {
        match event {
            Event::Quit => self.queue.push(Action::Quit),
            Event::Tick => self.queue.push(Action::Tick),
            Event::Render => self.queue.push(Action::Render),
            Event::Resize(w, h) => self.queue.push(Action::Resize(w, h)),
            Event::Key(k) => self.handle_key_event(k),
            Event::Other => {},
        }
    }

    /// Dispatch one action: housekeeping, then the component tree, then
    /// re-enqueue whatever the components emitted. Returns the terminal
    /// effects the housekeeping asked for.
    pub fn dispatch_action(&mut self, action: Action) -> (effects: Vec<Effect>)
        ensures
            final(self)@ == spec_dispatch(old(self)@, action).0,
            effects@ == spec_dispatch(old(self)@, action).1,
            old(self).wf() ==> final(self).wf(),
    {
        let mut effects: Vec<Effect> = Vec::new();
        match &action {
            Action::Tick => {
                self.last_tick_key_events.clear();
            },
            Action::Quit => {
                self.should_quit = true;
            },
            Action::Suspend => {
                self.should_suspend = true;
            },
            Action::Resume => {
                self.should_suspend = false;
            },
            Action::ClearScreen => {
                effects.push(Effect::ClearScreen);
            },
            Action::Resize(w, h) => {
                effects.push(Effect::Resize(*w, *h));
                effects.push(Effect::Render);
            },
            Action::Render => {
                effects.push(Effect::Render);
            },
            Action::UpdateViewState(vs) => {
                self.view_state = *vs;
            },
            Action::FocusMainMenu => {
                self.view_state = ViewState::new(Mode::MainMenu, self.view_state.page);
            },
            _ => {},
        }
        proof {
            assert(self@ == housekeep(old(self)@, action).0);
            assert(effects@ =~= housekeep(old(self)@, action).1);
        }
        let snapshot = self.view_state;
        let mut emitted = self.components.update(&action, snapshot);
        self.queue.append(&mut emitted);
        effects
    }

    /// The drain phase: pop every currently queued action in FIFO order,
    /// dispatch it, and keep going until the queue — including whatever
    /// the dispatches enqueued — is empty. Returns the terminal effects in
    /// dispatch order.
    pub fn handle_actions(&mut self) -> (effects: Vec<Effect>)
        ensures
            final(self)@ == spec_drain(old(self)@).0,
            effects@ == spec_drain(old(self)@).1,
            final(self).queue@.len() == 0,
            old(self).wf() ==> final(self).wf(),
    {
        let ghost orig = self@;
        let ghost orig_wf = self.wf();
        let mut effects: Vec<Effect> = Vec::new();
        while self.queue.len() > 0
            invariant
                spec_drain(orig).0 == spec_drain(self@).0,
                spec_drain(orig).1 == effects@ + spec_drain(self@).1,
                orig_wf == old(self).wf(),
                orig_wf ==> self.wf(),
            decreases queue_weight(self@.queue),
        {
            let ghost pre = self@;
            let action = self.queue.remove(0);
            proof {
                assert(self@.queue =~= pre.queue.drop_first());
                assert(self@ == (AppModel { queue: pre.queue.drop_first(), ..pre }));
                lemma_step_weight(pre);
            }
            let mut effs = self.dispatch_action(action);
            proof {
                assert(spec_step(pre).0 == self@);
                assert(spec_step(pre).1 == effs@);
                assert(spec_drain(pre).0 == spec_drain(self@).0);
                assert(spec_drain(pre).1 == spec_step(pre).1 + spec_drain(self@).1);
            }
            let ghost prev_effects = effects@;
            effects.append(&mut effs);
            proof {
                assert(prev_effects + (spec_step(pre).1 + spec_drain(self@).1) =~= (prev_effects
                    + spec_step(pre).1) + spec_drain(self@).1);
            }
        }
        proof {
            assert(spec_drain(self@).0 == self@);
            assert(effects@ + spec_drain(self@).1 =~= effects@);
        }
        effects
    }
}

/// Law: an unmatched key resolves to no action and changes nothing but the
/// chord buffer, where it is retained until the next tick is dispatched, at
/// which point the buffer is empty again.
pub proof fn lemma_unmatched_key_buffered(m: AppModel, k: KeyPress)
    requires
        layer_bindings(m.keybindings, Mode::Universal) is Some,
        resolve(m.keybindings, m.view_state.mode, seq![k]) is None,
        resolve(m.keybindings, m.view_state.mode, m.chord.push(k)) is None,
    ensures
        key_event_step(m, k) == (AppModel { chord: m.chord.push(k), ..m }),
        key_event_step(m, k).queue == m.queue,
        spec_dispatch(key_event_step(m, k), Action::Tick).0.chord == Seq::<KeyPress>::empty(),
{
}

/// Law: dispatching a tick empties the chord buffer, whether or not a
/// chord was completed; this is the chord-entry timeout.
pub proof fn lemma_tick_clears_chord(m: AppModel)
    ensures
        spec_dispatch(m, Action::Tick).0.chord == Seq::<KeyPress>::empty(),
{
}

/// Law: view-state transitions are total and closed over the enumerated
/// modes and pages: every (action, view-state) pair yields exactly one
/// successor — the state itself, the carried view state of an update
/// action, or the same page with the mode reset to the main menu.
pub proof fn lemma_view_state_transitions_total(vs: ViewState, a: Action)
    ensures
        view_state_step(vs, a) == vs || (a matches Action::UpdateViewState(v) && view_state_step(
            vs,
            a,
        ) == v) || (a == Action::FocusMainMenu && view_state_step(vs, a) == (ViewState {
            mode: Mode::MainMenu,
            page: vs.page,
        })),
{
}

} // verus!

