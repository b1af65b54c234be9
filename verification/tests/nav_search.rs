use docsite_nav::events::{replay, step, Action, Event, UiState};
use docsite_nav::links::{nav_links, render_link_list, ChildLink, LinkEntry, LinkItem};
use docsite_nav::nav::{render_full_nav, render_mobile_nav, render_nav};
use docsite_nav::search::{
    render_modal, render_result, Excerpt, ModalBody, ResultsSection, Route, SearchResult, Segment,
};
use docsite_nav::state::UiFlags;

fn seg(text: &str, highlighted: bool) -> Segment {
    Segment { text: text.to_string(), highlighted }
}

fn result(title: &str, route: &str, first_excerpt: Vec<Segment>) -> SearchResult {
    SearchResult {
        title: title.to_string(),
        route: Route { path: route.to_string() },
        excerpts: vec![Excerpt { text: first_excerpt }],
    }
}

fn open_flags() -> UiFlags {
    let mut flags = UiFlags::new();
    flags.set_show_search(true);
    flags
}

#[test]
fn initial_flags_all_cleared() {
    let flags = UiFlags::new();
    assert!(!flags.get_highlight_nav_layout());
    assert!(!flags.get_show_nav());
    assert!(!flags.get_show_search());
    assert!(!flags.get_logged_in());
    assert!(!flags.get_show_docs_sidebar());
    assert!(!flags.get_sidebar_open());
}

#[test]
fn setters_touch_only_their_own_cell() {
    let mut flags = UiFlags::new();
    flags.set_logged_in(true);
    assert!(flags.get_logged_in());
    assert!(!flags.get_show_search());
    assert!(!flags.get_show_nav());
    flags.set_show_search(true);
    assert!(flags.get_show_search());
    assert!(flags.get_logged_in());
    flags.set_show_search(false);
    assert!(!flags.get_show_search());
    assert!(flags.get_logged_in());
}

#[test]
fn visibility_follows_last_toggle() {
    let mut state = UiState::new();
    let events = vec![
        Event::SearchTriggerClicked,
        Event::ModalBodyClicked,
        Event::EscapePressed,
        Event::SearchTriggerClicked,
    ];
    replay(&mut state, &events);
    assert!(state.flags.get_show_search());

    let mut state2 = UiState::new();
    let events2 = vec![Event::SearchTriggerClicked, Event::BackdropClicked];
    replay(&mut state2, &events2);
    assert!(!state2.flags.get_show_search());

    // repeat writes are idempotent
    let mut state3 = UiState::new();
    let events3 = vec![Event::SearchTriggerClicked, Event::SearchTriggerClicked];
    replay(&mut state3, &events3);
    assert!(state3.flags.get_show_search());

    // no events: the starting value stands
    let mut state4 = UiState::new();
    replay(&mut state4, &Vec::new());
    assert!(!state4.flags.get_show_search());
}

#[test]
fn escape_closes_open_modal() {
    let mut state = UiState::new();
    step(&mut state, &Event::SearchTriggerClicked);
    assert!(state.flags.get_show_search());
    let act = step(&mut state, &Event::EscapePressed);
    assert!(!state.flags.get_show_search());
    assert!(matches!(act, Action::Stay));
}

#[test]
fn escape_with_closed_modal_has_no_effect() {
    let mut state = UiState::new();
    step(&mut state, &Event::QueryEdited("abc".to_string()));
    step(&mut state, &Event::NavToggleClicked);
    let act = step(&mut state, &Event::EscapePressed);
    assert!(matches!(act, Action::Stay));
    assert!(!state.flags.get_show_search());
    assert!(state.flags.get_show_nav());
    assert_eq!(state.query, "abc");
}

#[test]
fn modal_body_click_is_contained() {
    let mut state = UiState::new();
    step(&mut state, &Event::SearchTriggerClicked);
    let act = step(&mut state, &Event::ModalBodyClicked);
    assert!(state.flags.get_show_search());
    assert!(matches!(act, Action::Stay));
}

#[test]
fn backdrop_click_closes_modal() {
    let mut state = UiState::new();
    step(&mut state, &Event::SearchTriggerClicked);
    let act = step(&mut state, &Event::BackdropClicked);
    assert!(!state.flags.get_show_search());
    assert!(matches!(act, Action::Stay));
}

#[test]
fn editing_query_keeps_modal_open() {
    let mut state = UiState::new();
    step(&mut state, &Event::SearchTriggerClicked);
    step(&mut state, &Event::QueryEdited("use_state".to_string()));
    assert!(state.flags.get_show_search());
    assert_eq!(state.query, "use_state");
}

#[test]
fn choosing_result_closes_modal_and_navigates() {
    let mut state = UiState::new();
    step(&mut state, &Event::SearchTriggerClicked);
    let act = step(&mut state, &Event::ResultChosen(Route { path: "/learn/0.4/".to_string() }));
    assert!(!state.flags.get_show_search());
    match act {
        Action::Navigate(route) => assert_eq!(route.path, "/learn/0.4/"),
        Action::Stay => panic!("expected a navigation"),
    }
}

#[test]
fn toggles_flip_their_flags() {
    let mut state = UiState::new();
    step(&mut state, &Event::NavToggleClicked);
    assert!(state.flags.get_show_nav());
    step(&mut state, &Event::NavToggleClicked);
    assert!(!state.flags.get_show_nav());
    step(&mut state, &Event::SidebarToggleClicked);
    assert!(state.flags.get_sidebar_open());
    step(&mut state, &Event::SidebarToggleClicked);
    assert!(!state.flags.get_sidebar_open());
}

#[test]
fn modal_hidden_while_flag_cleared() {
    let flags = UiFlags::new();
    let outcome: Result<Vec<SearchResult>, String> =
        Ok(vec![result("Guide", "/learn", vec![seg("hello", false)])]);
    let modal = render_modal(&flags, &"q".to_string(), &outcome);
    assert!(modal.is_none());
}

#[test]
fn modal_lists_results_in_index_order() {
    let outcome: Result<Vec<SearchResult>, String> = Ok(vec![
        result("First", "/a", vec![seg("alpha ", false), seg("match", true)]),
        result("Second", "/b", vec![seg("beta", false)]),
        result("Third", "/c", vec![seg("gamma", true)]),
    ]);
    let modal = render_modal(&open_flags(), &"q".to_string(), &outcome);
    let body: ModalBody = modal.expect("modal must be visible");
    assert_eq!(body.query, "q");
    match body.section {
        ResultsSection::Listed(views) => {
            assert_eq!(views.len(), 3);
            assert_eq!(views[0].title, "First");
            assert_eq!(views[1].title, "Second");
            assert_eq!(views[2].title, "Third");
            assert_eq!(views[0].route.path, "/a");
            assert_eq!(views[0].segments.len(), 2);
            assert_eq!(views[0].segments[0].text, "alpha ");
            assert!(!views[0].segments[0].highlighted);
            assert_eq!(views[0].segments[1].text, "match");
            assert!(views[0].segments[1].highlighted);
            assert_eq!(views[1].segments[0].text, "beta");
            assert_eq!(views[2].segments[0].text, "gamma");
        }
        ResultsSection::Failed(err) => panic!("unexpected failure: {}", err),
    }
}

#[test]
fn modal_shows_error_verbatim_with_no_entries() {
    let outcome: Result<Vec<SearchResult>, String> = Err("index unavailable".to_string());
    let modal = render_modal(&open_flags(), &"q".to_string(), &outcome);
    let body = modal.expect("modal must be visible");
    match body.section {
        ResultsSection::Listed(_) => panic!("no result entries may be shown"),
        ResultsSection::Failed(message) => assert_eq!(message, "index unavailable"),
    }
}

#[test]
fn result_renderer_takes_first_excerpt() {
    let mut r = result("Guide", "/learn", vec![seg("first ", false), seg("hit", true)]);
    r.excerpts.push(Excerpt { text: vec![seg("second", false)] });
    let view = render_result(&r);
    assert_eq!(view.title, "Guide");
    assert_eq!(view.route.path, "/learn");
    assert_eq!(view.segments.len(), 2);
    assert_eq!(view.segments[0].text, "first ");
    assert!(!view.segments[0].highlighted);
    assert_eq!(view.segments[1].text, "hit");
    assert!(view.segments[1].highlighted);
}

#[test]
fn link_table_holds_the_three_pages() {
    let links = nav_links();
    assert_eq!(links.len(), 3);
    assert_eq!(links[0].label, "Docs");
    assert_eq!(links[0].href, "/learn/0.4/");
    assert_eq!(links[1].label, "Awesome");
    assert_eq!(links[1].href, "/awesome");
    assert_eq!(links[2].label, "Blog");
    assert_eq!(links[2].href, "/blog");
    assert!(links.iter().all(|l| l.children.is_empty()));
}

#[test]
fn childless_entry_renders_as_direct_link() {
    let entries = vec![LinkEntry {
        label: "Blog".to_string(),
        href: "/blog".to_string(),
        children: Vec::new(),
    }];
    let items = render_link_list(&entries);
    assert_eq!(items.len(), 1);
    match &items[0] {
        LinkItem::Direct { label, href } => {
            assert_eq!(label.as_str(), "Blog");
            assert_eq!(href.as_str(), "/blog");
        }
        LinkItem::Dropdown { .. } => panic!("expected a direct link"),
    }
}

#[test]
fn entry_with_children_renders_as_ordered_dropdown() {
    let entries = vec![LinkEntry {
        label: "Platforms".to_string(),
        href: "/platforms".to_string(),
        children: vec![
            ChildLink { label: "Web".to_string(), href: "/web".to_string() },
            ChildLink { label: "Desktop".to_string(), href: "/desktop".to_string() },
        ],
    }];
    let items = render_link_list(&entries);
    assert_eq!(items.len(), 1);
    match &items[0] {
        LinkItem::Dropdown { label, entries: children } => {
            assert_eq!(label.as_str(), "Platforms");
            assert_eq!(children.len(), 2);
            assert_eq!(children[0].label, "Web");
            assert_eq!(children[0].href, "/web");
            assert_eq!(children[1].label, "Desktop");
            assert_eq!(children[1].href, "/desktop");
        }
        LinkItem::Direct { .. } => panic!("expected a dropdown group"),
    }
}

#[test]
fn avatar_follows_logged_in_and_nothing_else_moves() {
    let links = nav_links();
    let mut flags = UiFlags::new();
    flags.set_show_docs_sidebar(true);
    let logged_out = render_nav(&flags, &links);
    flags.set_logged_in(true);
    let logged_in = render_nav(&flags, &links);

    assert!(!logged_out.avatar);
    assert!(logged_in.avatar);
    assert_eq!(logged_out.highlight_border, logged_in.highlight_border);
    assert_eq!(logged_out.sidebar_button, logged_in.sidebar_button);
    assert_eq!(logged_out.links.len(), logged_in.links.len());
    for (a, b) in logged_out.links.iter().zip(logged_in.links.iter()) {
        match (a, b) {
            (
                LinkItem::Direct { label: la, href: ha },
                LinkItem::Direct { label: lb, href: hb },
            ) => {
                assert_eq!(la, lb);
                assert_eq!(ha, hb);
            }
            _ => panic!("link items must not change"),
        }
    }
}

#[test]
fn nav_reflects_its_flags() {
    let links = nav_links();
    let mut flags = UiFlags::new();
    flags.set_highlight_nav_layout(true);
    flags.set_show_docs_sidebar(true);
    let view = render_nav(&flags, &links);
    assert!(view.highlight_border);
    assert!(view.sidebar_button);
    assert_eq!(view.links.len(), 3);

    let plain = render_nav(&UiFlags::new(), &links);
    assert!(!plain.highlight_border);
    assert!(!plain.sidebar_button);
}

#[test]
fn full_nav_renders_the_link_table() {
    let links = nav_links();
    let items = render_full_nav(&links);
    assert_eq!(items.len(), 3);
    match &items[0] {
        LinkItem::Direct { label, href } => {
            assert_eq!(label.as_str(), "Docs");
            assert_eq!(href.as_str(), "/learn/0.4/");
        }
        LinkItem::Dropdown { .. } => panic!("expected a direct link"),
    }
}

#[test]
fn mobile_menu_follows_nav_flag() {
    let mut flags = UiFlags::new();
    assert!(!render_mobile_nav(&flags).menu_open);
    flags.set_show_nav(true);
    assert!(render_mobile_nav(&flags).menu_open);
}
