//! The fixed component tree: the four concrete components in their
//! dispatch order. The tree forwards every dispatched action, together
//! with the broadcast view-state snapshot, to each component in turn and
//! collects the follow-up actions they emit.
use vstd::prelude::*;

use crate::action::Action;
use crate::installed_packages::installed_packages_visible;
use crate::installed_packages::installed_update;
use crate::installed_packages::InstalledPackages;
use crate::main_menu::menu_update;
use crate::main_menu::MainMenu;
use crate::package_sources::package_sources_visible;
use crate::package_sources::sources_update;
use crate::package_sources::PackageSources;
use crate::package_sources::PackageSourcesModel;
use crate::system_page::system_page_visible;
use crate::system_page::system_update;
use crate::system_page::SystemPage;
use crate::ui::Page;
use crate::ui::ViewState;

verus! {

/// The two-level component hierarchy, flattened to its leaves in dispatch
/// order.
#[derive(Debug)]
pub struct ComponentTree {
    pub installed_packages: InstalledPackages,
    pub main_menu: MainMenu,
    pub package_sources: PackageSources,
    pub system_page: SystemPage,
}

pub ghost struct TreeModel {
    pub installed_packages: InstalledPackages,
    pub main_menu: MainMenu,
    pub package_sources: PackageSourcesModel,
    pub system_page: SystemPage,
}

impl View for ComponentTree {
    type V = TreeModel;

    open spec fn view(&self) -> TreeModel {
        TreeModel {
            installed_packages: self.installed_packages,
            main_menu: self.main_menu,
            package_sources: self.package_sources@,
            system_page: self.system_page,
        }
    }
}

/// An emitted follow-up action as a (possibly empty) queue segment.
pub open spec fn opt_seq(a: Option<Action>) -> Seq<Action> {
    match a {
        Some(x) => seq![x],
        None => Seq::empty(),
    }
}

/// What one dispatched action does to the whole tree: each component is
/// updated in dispatch order, and the follow-up actions they emit are
/// collected in that same order.
pub open spec fn tree_update(t: TreeModel, a: Action, vs: ViewState) -> (TreeModel, Seq<Action>) {
    let r1 = installed_update(t.installed_packages, a, vs);
    let r2 = menu_update(t.main_menu, a, vs);
    let r3 = sources_update(t.package_sources, a, vs);
    let r4 = system_update(t.system_page, a, vs);
    (
        TreeModel {
            installed_packages: r1.0,
            main_menu: r2.0,
            package_sources: r3.0,
            system_page: r4.0,
        },
        opt_seq(r1.1) + opt_seq(r2.1) + opt_seq(r3.1) + opt_seq(r4.1),
    )
}

impl ComponentTree {
    /// Every component's own invariant holds.
    pub open spec fn wf(self) -> bool {
        &&& self.main_menu.wf()
        &&& self.package_sources.wf()
    }

    /// A fresh tree with every component in its initial state.
    pub fn new() -> (r: Self)
        ensures
            r.installed_packages == (InstalledPackages {  }),
            r.main_menu.cursor == Some(0usize),
            r.package_sources@.is_enabled == false,
            r.package_sources@.repositories.initialized == false,
            r.package_sources@.repositories.items.len() == 0,
            r.package_sources@.selected_tab == 0,
            r.package_sources@.list_cursor is None,
            r.system_page.focused == false,
            r.wf(),
    {
        ComponentTree {
            installed_packages: InstalledPackages::new(),
            main_menu: MainMenu::new(),
            package_sources: PackageSources::new(),
            system_page: SystemPage::new(),
        }
    }

    /// Forward one dispatched action and the view-state snapshot to every
    /// component; the returned actions are to be re-enqueued by the
    /// runtime, in this order.
    pub fn update(&mut self, action: &Action, view_state: ViewState) -> (r: Vec<Action>)
        ensures
            final(self)@ == tree_update(old(self)@, *action, view_state).0,
            r@ == tree_update(old(self)@, *action, view_state).1,
            old(self).wf() ==> final(self).wf(),
    {
        let mut out: Vec<Action> = Vec::new();
        if let Some(a) = self.installed_packages.update(action, view_state) {
            out.push(a);
        }
        if let Some(a) = self.main_menu.update(action, view_state) {
            out.push(a);
        }
        if let Some(a) = self.package_sources.update(action, view_state) {
            out.push(a);
        }
        if let Some(a) = self.system_page.update(action, view_state) {
            out.push(a);
        }
        proof {
            assert(out@ =~= tree_update(old(self)@, *action, view_state).1);
        }
        out
    }
}

/// How many content components report themselves visible for page `p`.
pub open spec fn visible_count(p: Page) -> int {
    (if system_page_visible(p) {
        1int
    } else {
        0int
    }) + (if package_sources_visible(p) {
        1int
    } else {
        0int
    }) + (if installed_packages_visible(p) {
        1int
    } else {
        0int
    })
}

/// Law: every page value that has a content component makes exactly that
/// one component visible; the confirmation popup has no content component
/// of its own, so nothing reports visible for it.
pub proof fn lemma_one_visible_component(p: Page)
    ensures
        p != Page::ConfirmationPopup ==> visible_count(p) == 1,
        p == Page::ConfirmationPopup ==> visible_count(p) == 0,
{
}

/// Law: switching the page from one value to another leaves no component
/// visible for both at once.
pub proof fn lemma_page_switch_no_shared_visibility(p1: Page, p2: Page)
    requires
        p1 != p2,
    ensures
        !(system_page_visible(p1) && system_page_visible(p2)),
        !(package_sources_visible(p1) && package_sources_visible(p2)),
        !(installed_packages_visible(p1) && installed_packages_visible(p2)),
{
}

} // verus!
