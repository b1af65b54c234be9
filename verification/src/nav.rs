//! The nav bar as a pure function of the current flags and the link table.
//!
//! The bar shows the brand link, the link list, the search trigger, and — if
//! a user is logged in — an avatar link; a highlight border and the sidebar
//! hamburger button are switched by their own flags.

use vstd::prelude::*;

use crate::links::LinkEntry;
use crate::links::LinkEntryModel;
use crate::links::LinkItem;
use crate::links::LinkItemModel;
use crate::links::link_items_of;
use crate::links::render_link_list;
use crate::state::UiFlags;

verus! {

/// What the nav bar shows for a given state: every conditional part of its
/// markup, as plain data.
pub struct NavView {
    /// The bar draws its highlight border.
    pub highlight_border: bool,
    /// The hamburger button that toggles the docs sidebar is shown.
    pub sidebar_button: bool,
    /// The rendered link list, in table order.
    pub links: Vec<LinkItem>,
    /// An avatar link is shown next to the static links.
    pub avatar: bool,
}

/// Mathematical model of the nav bar's view.
#[verifier::ext_equal]
pub ghost struct NavModel {
    pub highlight_border: bool,
    pub sidebar_button: bool,
    pub links: Seq<LinkItemModel>,
    pub avatar: bool,
}

impl View for NavView {
    type V = NavModel;

    open spec fn view(&self) -> NavModel {
        NavModel {
            highlight_border: self.highlight_border,
            sidebar_button: self.sidebar_button,
            links: self.links@.map_values(|it: LinkItem| it@),
            avatar: self.avatar,
        }
    }
}

/// What the nav bar shows for given flags and link table: the highlight
/// border iff the highlight flag is set, the hamburger button iff the page
/// has a docs sidebar, the rendered link table, and the avatar iff a user is
/// logged in.
pub open spec fn nav_model(flags: UiFlags, links: Seq<LinkEntryModel>) -> NavModel {
    NavModel {
        highlight_border: flags.highlight_nav_layout.0,
        sidebar_button: flags.show_docs_sidebar.0,
        links: link_items_of(links),
        avatar: flags.logged_in.0,
    }
}

/// Renders the nav bar for the current flags and link table.
pub fn render_nav(flags: &UiFlags, links: &Vec<LinkEntry>) -> (v: NavView)
    ensures
        v@ == nav_model(*flags, links@.map_values(|e: LinkEntry| e@)),
{
    let v = NavView {
        highlight_border: flags.highlight_nav_layout.0,
        sidebar_button: flags.show_docs_sidebar.0,
        links: render_link_list(links),
        avatar: flags.logged_in.0,
    };
    proof {
        assert(v@ =~= nav_model(*flags, links@.map_values(|e: LinkEntry| e@)));
    }
    v
}

/// The same nav view with the avatar blanked out: what is left of the bar
/// once the auth-conditional part is removed.
pub open spec fn nav_sans_avatar(n: NavModel) -> NavModel {
    NavModel { avatar: false, ..n }
}

/// Law: the logged-in flag switches the avatar and nothing else. For two
/// flag states that agree on everything but the logged-in flag, the nav
/// views agree on every part except the avatar, which shows iff the flag is
/// set.
pub proof fn lemma_avatar_isolated(f1: UiFlags, f2: UiFlags, links: Seq<LinkEntryModel>)
    requires
        f2 == (UiFlags { logged_in: f2.logged_in, ..f1 }),
    ensures
        nav_model(f1, links).avatar == f1.logged_in.0,
        nav_model(f2, links).avatar == f2.logged_in.0,
        nav_sans_avatar(nav_model(f1, links)) == nav_sans_avatar(nav_model(f2, links)),
{
    assert(nav_sans_avatar(nav_model(f1, links)) =~= nav_sans_avatar(nav_model(f2, links)));
}

/// What the wide-layout nav variant shows: only the link list depends on the
/// state; its static community links always follow it.
pub fn render_full_nav(links: &Vec<LinkEntry>) -> (items: Vec<LinkItem>)
    ensures
        items@.map_values(|it: LinkItem| it@) == link_items_of(
            links@.map_values(|e: LinkEntry| e@),
        ),
{
    render_link_list(links)
}

/// What the mobile nav variant shows: the expanded link list iff the nav
/// flag is set; its two buttons are static.
pub struct MobileNavView {
    /// The expanded link list is shown.
    pub menu_open: bool,
}

/// Renders the mobile nav for the current flags.
pub fn render_mobile_nav(flags: &UiFlags) -> (v: MobileNavView)
    ensures
        v.menu_open == flags.show_nav.0,
{
    MobileNavView { menu_open: flags.show_nav.0 }
}

} // verus!
