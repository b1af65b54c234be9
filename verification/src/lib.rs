//! A verified model of a documentation site's navigation bar and search
//! modal.
//!
//! The library holds the logic of the UI as plain data: the global flag
//! store, the static link table, the event handlers (as a state machine from
//! state and event to next state and action), and the render functions that
//! turn flags, links and search outcomes into view descriptions. The
//! surrounding UI framework — element trees, reactivity, the search index —
//! stays outside; it feeds events in and reads views out.

pub mod events;
pub mod links;
pub mod nav;
pub mod search;
pub mod state;

pub use state::LoggedIn;
pub use state::NavLayoutHighlighted;
pub use state::ShowDocsSidebar;
pub use state::ShowNav;
pub use state::ShowSearch;
pub use state::SidebarOpen;
pub use state::UiFlags;
