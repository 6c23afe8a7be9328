//! The layered keybinding resolver. A keymap is a list of layers, one per
//! `Mode`; the effective keymap for the active mode merges the `Universal`
//! layer, the generic `List` layer (for list-like modes), the generic `Tabs`
//! layer (for tab-like modes) and the exact-mode layer, later layers
//! overriding earlier ones on the same key sequence.
use vstd::prelude::*;

use crate::action::Action;
use crate::ui::is_list_mode;
use crate::ui::is_tabs_mode;
use crate::ui::Mode;

verus! {

/// One physical key press, reduced to plain numbers: a key code and a
/// modifier bitmask. The embedding program translates its input backend's
/// key events into this form.
#[derive(Debug, Copy, Clone, PartialEq, Eq, Hash, Structural)]
pub struct KeyPress {
    pub code: u16,
    pub modifiers: u8,
}

impl KeyPress {
    pub fn new(code: u16, modifiers: u8) -> (r: Self)
        ensures
            r.code == code,
            r.modifiers == modifiers,
    {
        KeyPress { code, modifiers }
    }
}

/// One binding: a key-chord sequence (length 1 for a plain key) and the
/// action it resolves to.
#[derive(Debug)]
pub struct Binding {
    pub keys: Vec<KeyPress>,
    pub action: Action,
}

/// All bindings registered for one mode.
#[derive(Debug)]
pub struct Layer {
    pub mode: Mode,
    pub bindings: Vec<Binding>,
}

/// The whole keybinding configuration, loaded once at startup.
#[derive(Debug)]
pub struct KeyBindings {
    pub layers: Vec<Layer>,
}

pub ghost struct BindingModel {
    pub keys: Seq<KeyPress>,
    pub action: Action,
}

pub ghost struct LayerModel {
    pub mode: Mode,
    pub bindings: Seq<BindingModel>,
}

impl View for Binding {
    type V = BindingModel;

    open spec fn view(&self) -> BindingModel {
        BindingModel { keys: self.keys@, action: self.action }
    }
}

impl View for Layer {
    type V = LayerModel;

    open spec fn view(&self) -> LayerModel {
        LayerModel { mode: self.mode, bindings: binding_views(self.bindings@) }
    }
}

impl View for KeyBindings {
    type V = Seq<LayerModel>;

    open spec fn view(&self) -> Seq<LayerModel> {
        self.layers@.map_values(|l: Layer| l@)
    }
}

pub open spec fn binding_views(bs: Seq<Binding>) -> Seq<BindingModel> {
    bs.map_values(|b: Binding| b@)
}

/// The map that one layer's binding list denotes; when a key sequence is
/// bound twice in one layer, the earlier entry wins.
pub open spec fn bindings_map(bs: Seq<BindingModel>) -> Map<Seq<KeyPress>, Action>
    decreases bs.len(),
{
    if bs.len() == 0 {
        Map::empty()
    } else {
        bindings_map(bs.drop_first()).insert(bs[0].keys, bs[0].action)
    }
}

/// The binding list of the first layer registered for mode `m`, if any.
/// `None` (no layer at all) and `Some` of an empty list both resolve
/// nothing, but the runtime treats an absent `Universal` layer specially.
pub open spec fn layer_bindings(kb: Seq<LayerModel>, m: Mode) -> Option<Seq<BindingModel>>
    decreases kb.len(),
{
    if kb.len() == 0 {
        None
    } else if kb[0].mode == m {
        Some(kb[0].bindings)
    } else {
        layer_bindings(kb.drop_first(), m)
    }
}

/// The map denoted by the layer registered for mode `m`, or the empty map.
pub open spec fn layer_map(kb: Seq<LayerModel>, m: Mode) -> Map<Seq<KeyPress>, Action> {
    match layer_bindings(kb, m) {
        Some(bs) => bindings_map(bs),
        None => Map::empty(),
    }
}

/// The effective keymap for mode `m`: Universal, then the generic List
/// layer if `m` is list-like, then the generic Tabs layer if `m` is
/// tab-like, then the exact-mode layer, each overriding the ones before it
/// on a shared key sequence.
pub open spec fn effective_keymap(kb: Seq<LayerModel>, m: Mode) -> Map<Seq<KeyPress>, Action> {
    let base = layer_map(kb, Mode::Universal);
    let with_list = if is_list_mode(m) {
        base.union_prefer_right(layer_map(kb, Mode::List))
    } else {
        base
    };
    let with_tabs = if is_tabs_mode(m) {
        with_list.union_prefer_right(layer_map(kb, Mode::Tabs))
    } else {
        with_list
    };
    with_tabs.union_prefer_right(layer_map(kb, m))
}

/// What a key sequence resolves to under the effective keymap for `m`:
/// the bound action, or nothing.
pub open spec fn resolve(kb: Seq<LayerModel>, m: Mode, keys: Seq<KeyPress>) -> Option<Action> {
    if effective_keymap(kb, m).contains_key(keys) {
        Some(effective_keymap(kb, m)[keys])
    } else {
        None
    }
}

proof fn lemma_bindings_map_match(bs: Seq<BindingModel>, keys: Seq<KeyPress>, i: int)
    requires
        0 <= i < bs.len(),
        bs[i].keys == keys,
        forall|j: int| 0 <= j < i ==> bs[j].keys != keys,
    ensures
        bindings_map(bs).contains_key(keys),
        bindings_map(bs)[keys] == bs[i].action,
    decreases i,
{
    if i > 0 {
        lemma_bindings_map_match(bs.drop_first(), keys, i - 1);
    }
}

proof fn lemma_bindings_map_miss(bs: Seq<BindingModel>, keys: Seq<KeyPress>)
    requires
        forall|j: int| 0 <= j < bs.len() ==> bs[j].keys != keys,
    ensures
        !bindings_map(bs).contains_key(keys),
    decreases bs.len(),
{
    if bs.len() > 0 {
        lemma_bindings_map_miss(bs.drop_first(), keys);
    }
}

proof fn lemma_layer_bindings_found(kb: Seq<LayerModel>, m: Mode, i: int)
    requires
        0 <= i < kb.len(),
        kb[i].mode == m,
        forall|j: int| 0 <= j < i ==> kb[j].mode != m,
    ensures
        layer_bindings(kb, m) == Some(kb[i].bindings),
    decreases i,
{
    if i > 0 {
        lemma_layer_bindings_found(kb.drop_first(), m, i - 1);
    }
}

proof fn lemma_layer_bindings_missing(kb: Seq<LayerModel>, m: Mode)
    requires
        forall|j: int| 0 <= j < kb.len() ==> kb[j].mode != m,
    ensures
        layer_bindings(kb, m) is None,
    decreases kb.len(),
{
    if kb.len() > 0 {
        lemma_layer_bindings_missing(kb.drop_first(), m);
    }
}

/// Whether two key sequences are the same chord.
fn keys_match(a: &Vec<KeyPress>, b: &Vec<KeyPress>) -> (r: bool)
    ensures
        r == (a@ == b@),
{
    if a.len() != b.len() {
        return false;
    }
    let mut i: usize = 0;
    while i < a.len()
        invariant
            i <= a.len(),
            a@.len() == b@.len(),
            forall|j: int| 0 <= j < i ==> a@[j] == b@[j],
        decreases a.len() - i,
    {
        if a[i].code != b[i].code || a[i].modifiers != b[i].modifiers {
            return false;
        }
        i += 1;
    }
    proof {
        assert(a@ =~= b@);
    }
    true
}

/// Look a key sequence up in one layer's binding list; the earliest
/// matching binding wins.
fn layer_lookup(bindings: &Vec<Binding>, keys: &Vec<KeyPress>) -> (r: Option<Action>)
    ensures
        ({
            let m = bindings_map(binding_views(bindings@));
            match r {
                Some(a) => m.contains_key(keys@) && a == m[keys@],
                None => !m.contains_key(keys@),
            }
        }),
{
    let mut i: usize = 0;
    while i < bindings.len()
        invariant
            i <= bindings.len(),
            forall|j: int| 0 <= j < i ==> #[trigger] binding_views(bindings@)[j].keys != keys@,
        decreases bindings.len() - i,
    {
        if keys_match(&bindings[i].keys, keys) {
            proof {
                lemma_bindings_map_match(binding_views(bindings@), keys@, i as int);
            }
            return Some(bindings[i].action.clone());
        }
        proof {
            assert(binding_views(bindings@)[i as int].keys == bindings@[i as int].keys@);
        }
        i += 1;
    }
    proof {
        lemma_bindings_map_miss(binding_views(bindings@), keys@);
    }
    None
}

/// The layer registered for mode `m`, if any; the earliest such layer wins.
fn find_layer<'a>(kb: &'a KeyBindings, m: Mode) -> (r: Option<&'a Vec<Binding>>)
    ensures
        match r {
            Some(bs) => layer_bindings(kb@, m) == Some(binding_views(bs@)),
            None => layer_bindings(kb@, m) is None,
        },
{
    let mut i: usize = 0;
    while i < kb.layers.len()
        invariant
            i <= kb.layers.len(),
            forall|j: int| 0 <= j < i ==> #[trigger] kb@[j].mode != m,
        decreases kb.layers.len() - i,
    {
        if kb.layers[i].mode == m {
            proof {
                assert(kb@[i as int] == kb.layers@[i as int]@);
                lemma_layer_bindings_found(kb@, m, i as int);
            }
            return Some(&kb.layers[i].bindings);
        }
        proof {
            assert(kb@[i as int] == kb.layers@[i as int]@);
        }
        i += 1;
    }
    proof {
        lemma_layer_bindings_missing(kb@, m);
    }
    None
}

impl KeyBindings {
    /// Whether a `Universal` layer was configured at all. When it is
    /// absent, the runtime ignores key input entirely (soft failure).
    pub fn has_universal_layer(&self) -> (r: bool)
        ensures
            r == (layer_bindings(self@, Mode::Universal) is Some),
    {
        match find_layer(self, Mode::Universal) {
            Some(_) => true,
            None => false,
        }
    }

    /// Resolve one key sequence under the effective keymap for `mode`.
    pub fn resolve_sequence(&self, mode: Mode, keys: &Vec<KeyPress>) -> (r: Option<Action>)
        ensures
            r == resolve(self@, mode, keys@),
    {
        // Highest-precedence layer first; the spec-side map union prefers
        // the same order, so the first hit is the effective binding.
        if let Some(bs) = find_layer(self, mode) {
            if let Some(a) = layer_lookup(bs, keys) {
                return Some(a);
            }
        }
        if mode.activates_tabs_layer() {
            if let Some(bs) = find_layer(self, Mode::Tabs) {
                if let Some(a) = layer_lookup(bs, keys) {
                    return Some(a);
                }
            }
        }
        if mode.activates_list_layer() {
            if let Some(bs) = find_layer(self, Mode::List) {
                if let Some(a) = layer_lookup(bs, keys) {
                    return Some(a);
                }
            }
        }
        if let Some(bs) = find_layer(self, Mode::Universal) {
            if let Some(a) = layer_lookup(bs, keys) {
                return Some(a);
            }
        }
        None
    }
}

/// Law: in any mode that activates the `List` layer, the effective keymap
/// binds every key sequence that the `Universal` layer or the `List` layer
/// binds; the bound action is the `List` layer's where no higher layer
/// overrides it, and the `Universal` layer's where no other layer binds it.
pub proof fn lemma_list_mode_keymap_superset(kb: Seq<LayerModel>, m: Mode, keys: Seq<KeyPress>)
    requires
        is_list_mode(m),
    ensures
        layer_map(kb, Mode::Universal).contains_key(keys) ==> effective_keymap(
            kb,
            m,
        ).contains_key(keys),
        layer_map(kb, Mode::List).contains_key(keys) ==> effective_keymap(kb, m).contains_key(
            keys,
        ),
        layer_map(kb, Mode::List).contains_key(keys) && !layer_map(kb, Mode::Tabs).contains_key(
            keys,
        ) && !layer_map(kb, m).contains_key(keys) ==> effective_keymap(kb, m)[keys] == layer_map(
            kb,
            Mode::List,
        )[keys],
        layer_map(kb, Mode::Universal).contains_key(keys) && !layer_map(
            kb,
            Mode::List,
        ).contains_key(keys) && !layer_map(kb, Mode::Tabs).contains_key(keys) && !layer_map(
            kb,
            m,
        ).contains_key(keys) ==> effective_keymap(kb, m)[keys] == layer_map(
            kb,
            Mode::Universal,
        )[keys],
{
}

} // verus!
