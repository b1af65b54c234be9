//! The global UI state store: a small set of named boolean cells, mutated
//! only by event handlers and read by the render functions.

use vstd::prelude::*;

verus! {

/// Flag cell: the nav bar draws a highlight border around its layout.
#[derive(Clone, Copy, PartialEq, Eq, Structural, Debug)]
pub struct NavLayoutHighlighted(pub bool);

/// Flag cell: the mobile nav menu is expanded.
#[derive(Clone, Copy, PartialEq, Eq, Structural, Debug)]
pub struct ShowNav(pub bool);

/// Flag cell: the search modal is open. The single source of truth for the
/// modal's visibility.
#[derive(Clone, Copy, PartialEq, Eq, Structural, Debug)]
pub struct ShowSearch(pub bool);

/// Flag cell: a user is logged in, so the nav bar shows an avatar link.
#[derive(Clone, Copy, PartialEq, Eq, Structural, Debug)]
pub struct LoggedIn(pub bool);

/// Flag cell: the page has a docs sidebar, so the nav bar shows the
/// hamburger button that toggles it.
#[derive(Clone, Copy, PartialEq, Eq, Structural, Debug)]
pub struct ShowDocsSidebar(pub bool);

/// Flag cell: the docs sidebar itself is expanded (toggled by the hamburger
/// button).
#[derive(Clone, Copy, PartialEq, Eq, Structural, Debug)]
pub struct SidebarOpen(pub bool);

/// All flag cells together. Each flag is independent: no cross-flag
/// invariant ties them to one another, and a setter changes exactly its own
/// cell.
#[derive(Clone, Copy, PartialEq, Eq, Structural, Debug)]
pub struct UiFlags {
    pub highlight_nav_layout: NavLayoutHighlighted,
    pub show_nav: ShowNav,
    pub show_search: ShowSearch,
    pub logged_in: LoggedIn,
    pub show_docs_sidebar: ShowDocsSidebar,
    pub sidebar_open: SidebarOpen,
}

impl UiFlags {
    /// The state at startup: every flag cleared.
    pub open spec fn initial() -> UiFlags {
        UiFlags {
            highlight_nav_layout: NavLayoutHighlighted(false),
            show_nav: ShowNav(false),
            show_search: ShowSearch(false),
            logged_in: LoggedIn(false),
            show_docs_sidebar: ShowDocsSidebar(false),
            sidebar_open: SidebarOpen(false),
        }
    }

    /// Creates the flag store with every flag cleared.
    pub fn new() -> (r: UiFlags)
        ensures
            r == UiFlags::initial(),
    {
        UiFlags {
            highlight_nav_layout: NavLayoutHighlighted(false),
            show_nav: ShowNav(false),
            show_search: ShowSearch(false),
            logged_in: LoggedIn(false),
            show_docs_sidebar: ShowDocsSidebar(false),
            sidebar_open: SidebarOpen(false),
        }
    }

    /// Reads the highlight flag.
    pub fn get_highlight_nav_layout(&self) -> (r: bool)
        ensures
            r == self.highlight_nav_layout.0,
    {
        self.highlight_nav_layout.0
    }

    /// Sets the highlight flag; no other cell changes.
    pub fn set_highlight_nav_layout(&mut self, v: bool)
        ensures
            *final(self) == (UiFlags { highlight_nav_layout: NavLayoutHighlighted(v), ..*old(self) }),
    {
        self.highlight_nav_layout = NavLayoutHighlighted(v);
    }

    /// Reads the mobile nav flag.
    pub fn get_show_nav(&self) -> (r: bool)
        ensures
            r == self.show_nav.0,
    {
        self.show_nav.0
    }

    /// Sets the mobile nav flag; no other cell changes.
    pub fn set_show_nav(&mut self, v: bool)
        ensures
            *final(self) == (UiFlags { show_nav: ShowNav(v), ..*old(self) }),
    {
        self.show_nav = ShowNav(v);
    }

    /// Reads the search modal flag.
    pub fn get_show_search(&self) -> (r: bool)
        ensures
            r == self.show_search.0,
    {
        self.show_search.0
    }

    /// Sets the search modal flag; no other cell changes.
    pub fn set_show_search(&mut self, v: bool)
        ensures
            *final(self) == (UiFlags { show_search: ShowSearch(v), ..*old(self) }),
    {
        self.show_search = ShowSearch(v);
    }

    /// Reads the logged-in flag.
    pub fn get_logged_in(&self) -> (r: bool)
        ensures
            r == self.logged_in.0,
    {
        self.logged_in.0
    }

    /// Sets the logged-in flag; no other cell changes.
    pub fn set_logged_in(&mut self, v: bool)
        ensures
            *final(self) == (UiFlags { logged_in: LoggedIn(v), ..*old(self) }),
    {
        self.logged_in = LoggedIn(v);
    }

    /// Reads the docs sidebar flag.
    pub fn get_show_docs_sidebar(&self) -> (r: bool)
        ensures
            r == self.show_docs_sidebar.0,
    {
        self.show_docs_sidebar.0
    }

    /// Sets the docs sidebar flag; no other cell changes.
    pub fn set_show_docs_sidebar(&mut self, v: bool)
        ensures
            *final(self) == (UiFlags { show_docs_sidebar: ShowDocsSidebar(v), ..*old(self) }),
    {
        self.show_docs_sidebar = ShowDocsSidebar(v);
    }

    /// Reads the sidebar-open flag.
    pub fn get_sidebar_open(&self) -> (r: bool)
        ensures
            r == self.sidebar_open.0,
    {
        self.sidebar_open.0
    }

    /// Sets the sidebar-open flag; no other cell changes.
    pub fn set_sidebar_open(&mut self, v: bool)
        ensures
            *final(self) == (UiFlags { sidebar_open: SidebarOpen(v), ..*old(self) }),
    {
        self.sidebar_open = SidebarOpen(v);
    }
}

} // verus!
