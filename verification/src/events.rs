//! The event handlers of the nav bar and the search modal, as one state
//! machine: a step function from state and input event to next state and
//! action. The surrounding code performs the action (following a route) and
//! feeds the next event back in.

use vstd::prelude::*;

use crate::search::Route;
use crate::state::ShowNav;
use crate::state::ShowSearch;
use crate::state::SidebarOpen;
use crate::state::UiFlags;

verus! {

/// The whole mutable UI state: the global flags and the modal's local query
/// text.
pub struct UiState {
    pub flags: UiFlags,
    pub query: String,
}

/// Mathematical model of the UI state.
#[verifier::ext_equal]
pub ghost struct UiStateModel {
    pub flags: UiFlags,
    pub query: Seq<char>,
}

impl View for UiState {
    type V = UiStateModel;

    open spec fn view(&self) -> UiStateModel {
        UiStateModel { flags: self.flags, query: self.query@ }
    }
}

impl UiState {
    /// The state at startup: every flag cleared, the query empty.
    pub open spec fn initial() -> UiStateModel {
        UiStateModel { flags: UiFlags::initial(), query: Seq::empty() }
    }

    /// Creates the startup state.
    pub fn new() -> (r: UiState)
        ensures
            r@ == UiState::initial(),
    {
        let r = UiState { flags: UiFlags::new(), query: String::new() };
        proof {
            assert(r@ =~= UiState::initial());
        }
        r
    }
}

/// One discrete input event, as the framework delivers them.
pub enum Event {
    /// The search trigger button was clicked.
    SearchTriggerClicked,
    /// Escape was pressed while focus was in the modal's input.
    EscapePressed,
    /// The modal's backdrop — outside the modal body — was clicked.
    BackdropClicked,
    /// The modal body itself was clicked; the click is contained and never
    /// reaches the backdrop handler.
    ModalBodyClicked,
    /// The modal's input text changed to this value.
    QueryEdited(String),
    /// A result entry with this route was selected.
    ResultChosen(Route),
    /// The mobile nav's menu button was clicked.
    NavToggleClicked,
    /// The hamburger button for the docs sidebar was clicked.
    SidebarToggleClicked,
}

/// Mathematical model of an input event.
#[verifier::ext_equal]
pub ghost enum EventModel {
    SearchTriggerClicked,
    EscapePressed,
    BackdropClicked,
    ModalBodyClicked,
    QueryEdited(Seq<char>),
    ResultChosen(Seq<char>),
    NavToggleClicked,
    SidebarToggleClicked,
}

impl View for Event {
    type V = EventModel;

    open spec fn view(&self) -> EventModel {
        match self {
            Event::SearchTriggerClicked => EventModel::SearchTriggerClicked,
            Event::EscapePressed => EventModel::EscapePressed,
            Event::BackdropClicked => EventModel::BackdropClicked,
            Event::ModalBodyClicked => EventModel::ModalBodyClicked,
            Event::QueryEdited(q) => EventModel::QueryEdited(q@),
            Event::ResultChosen(r) => EventModel::ResultChosen(r@),
            Event::NavToggleClicked => EventModel::NavToggleClicked,
            Event::SidebarToggleClicked => EventModel::SidebarToggleClicked,
        }
    }
}

/// What a step asks the surrounding code to do besides re-rendering.
pub enum Action {
    /// Nothing: the state change alone.
    Stay,
    /// Navigate to this route.
    Navigate(Route),
}

/// Mathematical model of an action.
#[verifier::ext_equal]
pub ghost enum ActionModel {
    Stay,
    Navigate(Seq<char>),
}

impl View for Action {
    type V = ActionModel;

    open spec fn view(&self) -> ActionModel {
        match self {
            Action::Stay => ActionModel::Stay,
            Action::Navigate(r) => ActionModel::Navigate(r@),
        }
    }
}

/// The state with the search flag set to the given value and everything
/// else unchanged.
pub open spec fn with_show_search(s: UiStateModel, v: bool) -> UiStateModel {
    UiStateModel { flags: UiFlags { show_search: ShowSearch(v), ..s.flags }, ..s }
}

/// What each event does: the complete handler table.
///
/// - The search trigger opens the modal; Escape in the input, a click on the
///   backdrop, and choosing a result all close it.
/// - A click inside the modal body is contained: it changes nothing.
/// - Editing the input replaces the query text.
/// - Choosing a result also asks for navigation to its route.
/// - The menu and hamburger buttons toggle their own flags.
pub open spec fn step_model(s: UiStateModel, e: EventModel) -> (UiStateModel, ActionModel) {
    match e {
        EventModel::SearchTriggerClicked => (with_show_search(s, true), ActionModel::Stay),
        EventModel::EscapePressed => (with_show_search(s, false), ActionModel::Stay),
        EventModel::BackdropClicked => (with_show_search(s, false), ActionModel::Stay),
        EventModel::ModalBodyClicked => (s, ActionModel::Stay),
        EventModel::QueryEdited(q) => (UiStateModel { query: q, ..s }, ActionModel::Stay),
        EventModel::ResultChosen(r) => (with_show_search(s, false), ActionModel::Navigate(r)),
        EventModel::NavToggleClicked => (
            UiStateModel { flags: UiFlags { show_nav: ShowNav(!s.flags.show_nav.0), ..s.flags }, ..s },
            ActionModel::Stay,
        ),
        EventModel::SidebarToggleClicked => (
            UiStateModel {
                flags: UiFlags { sidebar_open: SidebarOpen(!s.flags.sidebar_open.0), ..s.flags },
                ..s
            },
            ActionModel::Stay,
        ),
    }
}

/// Applies one input event to the state and returns the action the
/// surrounding code must perform. Escape with the modal already closed, and
/// any click inside the modal body, leave the state exactly as it was.
pub fn step(state: &mut UiState, event: &Event) -> (act: Action)
    ensures
        final(state)@ == step_model(old(state)@, event@).0,
        act@ == step_model(old(state)@, event@).1,
        event is EscapePressed && !old(state)@.flags.show_search.0 ==> final(state)@ == old(
            state,
        )@,
        event is ModalBodyClicked ==> final(state)@ == old(state)@,
{
    let act = match event {
        Event::SearchTriggerClicked => {
            state.flags.show_search = ShowSearch(true);
            Action::Stay
        },
        Event::EscapePressed => {
            state.flags.show_search = ShowSearch(false);
            Action::Stay
        },
        Event::BackdropClicked => {
            state.flags.show_search = ShowSearch(false);
            Action::Stay
        },
        Event::ModalBodyClicked => Action::Stay,
        Event::QueryEdited(q) => {
            state.query = q.clone();
            Action::Stay
        },
        Event::ResultChosen(r) => {
            state.flags.show_search = ShowSearch(false);
            Action::Navigate(r.duplicate())
        },
        Event::NavToggleClicked => {
            state.flags.show_nav = ShowNav(!state.flags.show_nav.0);
            Action::Stay
        },
        Event::SidebarToggleClicked => {
            state.flags.sidebar_open = SidebarOpen(!state.flags.sidebar_open.0);
            Action::Stay
        },
    };
    proof {
        assert(state@ =~= step_model(old(state)@, event@).0);
    }
    act
}

/// The state after a whole sequence of events, first event first.
pub open spec fn state_after(s: UiStateModel, evs: Seq<EventModel>) -> UiStateModel
    decreases evs.len(),
{
    if evs.len() == 0 {
        s
    } else {
        state_after(step_model(s, evs.first()).0, evs.drop_first())
    }
}

/// Peeling the last event off a sequence: the state after all of them is one
/// step from the state after all but the last.
pub proof fn lemma_state_after_snoc(s: UiStateModel, evs: Seq<EventModel>, e: EventModel)
    ensures
        state_after(s, evs.push(e)) == step_model(state_after(s, evs), e).0,
    decreases evs.len(),
{
    if evs.len() == 0 {
        assert(evs.push(e).first() == e);
        assert(evs.push(e).drop_first() =~= Seq::<EventModel>::empty());
        assert(state_after(s, evs.push(e)) == state_after(
            step_model(s, e).0,
            evs.push(e).drop_first(),
        ));
        assert(state_after(s, evs) == s);
    } else {
        assert(evs.push(e).first() == evs.first());
        assert(evs.push(e).drop_first() =~= evs.drop_first().push(e));
        assert(state_after(s, evs.push(e)) == state_after(
            step_model(s, evs.first()).0,
            evs.drop_first().push(e),
        ));
        lemma_state_after_snoc(step_model(s, evs.first()).0, evs.drop_first(), e);
        assert(state_after(s, evs) == state_after(step_model(s, evs.first()).0, evs.drop_first()));
    }
}

/// The value an event writes to the search flag, if it writes one.
pub open spec fn show_search_write(e: EventModel) -> Option<bool> {
    match e {
        EventModel::SearchTriggerClicked => Option::Some(true),
        EventModel::EscapePressed => Option::Some(false),
        EventModel::BackdropClicked => Option::Some(false),
        EventModel::ResultChosen(_) => Option::Some(false),
        _ => Option::None,
    }
}

/// The last value any event of the sequence writes to the search flag.
pub open spec fn last_show_search_write(evs: Seq<EventModel>) -> Option<bool>
    decreases evs.len(),
{
    if evs.len() == 0 {
        Option::None
    } else {
        match show_search_write(evs.last()) {
            Option::Some(v) => Option::Some(v),
            Option::None => last_show_search_write(evs.drop_last()),
        }
    }
}

/// Law: after any sequence of events, the modal's visibility is exactly the
/// last value written to the search flag — or the starting value if nothing
/// wrote it. Visibility is order-determined, repeat writes are idempotent,
/// and no other state feeds into it.
pub proof fn lemma_show_search_order_determined(s: UiStateModel, evs: Seq<EventModel>)
    ensures
        state_after(s, evs).flags.show_search.0 == (match last_show_search_write(evs) {
            Option::Some(v) => v,
            Option::None => s.flags.show_search.0,
        }),
    decreases evs.len(),
{
    if evs.len() > 0 {
        let front = evs.drop_last();
        let e = evs.last();
        assert(front.push(e) =~= evs);
        lemma_state_after_snoc(s, front, e);
        lemma_show_search_order_determined(s, front);
    }
}

/// Law: Escape with the modal already closed changes nothing at all.
pub proof fn lemma_escape_closed_no_effect(s: UiStateModel)
    requires
        !s.flags.show_search.0,
    ensures
        step_model(s, EventModel::EscapePressed).0 == s,
        step_model(s, EventModel::EscapePressed).1 == ActionModel::Stay,
{
    assert(step_model(s, EventModel::EscapePressed).0 =~= s);
}

/// Law: click containment. A click inside the modal body never closes the
/// modal — it changes nothing — while a click on the backdrop always closes
/// it; neither touches any other state.
pub proof fn lemma_click_containment(s: UiStateModel)
    ensures
        step_model(s, EventModel::ModalBodyClicked).0 == s,
        !step_model(s, EventModel::BackdropClicked).0.flags.show_search.0,
        step_model(s, EventModel::BackdropClicked).0 == with_show_search(s, false),
{
}

/// Replays a sequence of events against the state, dropping the actions:
/// the executable counterpart of `state_after`.
pub fn replay(state: &mut UiState, events: &Vec<Event>)
    ensures
        final(state)@ == state_after(old(state)@, events@.map_values(|e: Event| e@)),
{
    let ghost evs = events@.map_values(|e: Event| e@);
    let mut i: usize = 0;
    while i < events.len()
        invariant
            i <= events.len(),
            evs == events@.map_values(|e: Event| e@),
            state@ == state_after(old(state)@, evs.take(i as int)),
        decreases events.len() - i,
    {
        proof {
            lemma_state_after_snoc(old(state)@, evs.take(i as int), evs[i as int]);
            assert(evs.take(i as int).push(evs[i as int]) =~= evs.take(i + 1));
        }
        step(state, &events[i]);
        i += 1;
    }
    proof {
        assert(evs.take(events@.len() as int) =~= evs);
    }
}

} // verus!

