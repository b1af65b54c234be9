//! The search modal and the rendering of search results.
//!
//! The modal is visible iff the search flag is set. On every keystroke the
//! surrounding code queries the document index with the current text and
//! hands the outcome here: on success an ordered list of results, rendered
//! in exactly the order returned; on failure one error message, shown
//! verbatim in place of the results.

use vstd::prelude::*;

use crate::state::UiFlags;

verus! {

/// An opaque route identifier, carried through to the router untouched:
/// this module neither parses nor validates it.
#[derive(PartialEq, Eq, Debug)]
pub struct Route {
    pub path: String,
}

impl View for Route {
    type V = Seq<char>;

    open spec fn view(&self) -> Seq<char> {
        self.path@
    }
}

impl Route {
    /// Copies the route.
    pub fn duplicate(&self) -> (r: Route)
        ensures
            r@ == self@,
    {
        Route { path: self.path.clone() }
    }
}

/// One piece of an excerpt's text; highlighted iff it matched the query.
#[derive(PartialEq, Eq, Debug)]
pub struct Segment {
    pub text: String,
    pub highlighted: bool,
}

/// Mathematical model of an excerpt segment.
#[verifier::ext_equal]
pub ghost struct SegmentModel {
    pub text: Seq<char>,
    pub highlighted: bool,
}

impl View for Segment {
    type V = SegmentModel;

    open spec fn view(&self) -> SegmentModel {
        SegmentModel { text: self.text@, highlighted: self.highlighted }
    }
}

/// One excerpt of a matching page: an ordered run of text segments.
pub struct Excerpt {
    pub text: Vec<Segment>,
}

impl View for Excerpt {
    type V = Seq<SegmentModel>;

    open spec fn view(&self) -> Seq<SegmentModel> {
        self.text@.map_values(|s: Segment| s@)
    }
}

/// One match returned by the document index for a query.
pub struct SearchResult {
    pub title: String,
    pub route: Route,
    pub excerpts: Vec<Excerpt>,
}

/// Mathematical model of a search result.
#[verifier::ext_equal]
pub ghost struct SearchResultModel {
    pub title: Seq<char>,
    pub route: Seq<char>,
    pub excerpts: Seq<Seq<SegmentModel>>,
}

impl View for SearchResult {
    type V = SearchResultModel;

    open spec fn view(&self) -> SearchResultModel {
        SearchResultModel {
            title: self.title@,
            route: self.route@,
            excerpts: self.excerpts@.map_values(|e: Excerpt| e@),
        }
    }
}

/// One rendered result entry: the match's title, its route, and the
/// segments of its first excerpt, each styled by its highlight flag.
#[derive(PartialEq, Eq, Debug)]
pub struct ResultView {
    pub title: String,
    pub route: Route,
    pub segments: Vec<Segment>,
}

/// Mathematical model of a rendered result entry.
#[verifier::ext_equal]
pub ghost struct ResultViewModel {
    pub title: Seq<char>,
    pub route: Seq<char>,
    pub segments: Seq<SegmentModel>,
}

impl View for ResultView {
    type V = ResultViewModel;

    open spec fn view(&self) -> ResultViewModel {
        ResultViewModel {
            title: self.title@,
            route: self.route@,
            segments: self.segments@.map_values(|s: Segment| s@),
        }
    }
}

/// How one result renders: its title, its route, and its first excerpt's
/// segments, unchanged and in order.
pub open spec fn result_view_of(r: SearchResultModel) -> ResultViewModel
    recommends
        r.excerpts.len() > 0,
{
    ResultViewModel { title: r.title, route: r.route, segments: r.excerpts[0] }
}

fn clone_segments(segments: &Vec<Segment>) -> (r: Vec<Segment>)
    ensures
        r@.map_values(|s: Segment| s@) == segments@.map_values(|s: Segment| s@),
{
    let mut r: Vec<Segment> = Vec::new();
    let mut i: usize = 0;
    while i < segments.len()
        invariant
            i <= segments.len(),
            r@.len() == i,
            forall|j: int| 0 <= j < i ==> r@[j]@ == segments@[j]@,
        decreases segments.len() - i,
    {
        let s = &segments[i];
        r.push(Segment { text: s.text.clone(), highlighted: s.highlighted });
        i += 1;
    }
    proof {
        assert(r@.map_values(|s: Segment| s@) =~= segments@.map_values(|s: Segment| s@));
    }
    r
}

/// Renders one search result: its title and the segments of its first
/// excerpt. A result always carries at least one excerpt; one without any
/// has nothing to render and is left out by the precondition.
pub fn render_result(result: &SearchResult) -> (v: ResultView)
    requires
        result@.excerpts.len() > 0,
    ensures
        v@ == result_view_of(result@),
{
    let v = ResultView {
        title: result.title.clone(),
        route: result.route.duplicate(),
        segments: clone_segments(&result.excerpts[0].text),
    };
    proof {
        assert(v@ =~= result_view_of(result@));
    }
    v
}

/// The list section of the modal: either the rendered results, in the order
/// the index returned them, or the index's error message, verbatim, in place
/// of any results.
pub enum ResultsSection {
    Listed(Vec<ResultView>),
    Failed(String),
}

/// Mathematical model of the modal's list section.
#[verifier::ext_equal]
pub ghost enum SectionModel {
    Listed(Seq<ResultViewModel>),
    Failed(Seq<char>),
}

impl View for ResultsSection {
    type V = SectionModel;

    open spec fn view(&self) -> SectionModel {
        match self {
            ResultsSection::Listed(vs) => SectionModel::Listed(
                vs@.map_values(|v: ResultView| v@),
            ),
            ResultsSection::Failed(e) => SectionModel::Failed(e@),
        }
    }
}

/// The open search modal: the echoed query text and the list section.
pub struct ModalBody {
    pub query: String,
    pub section: ResultsSection,
}

/// Mathematical model of the open modal.
#[verifier::ext_equal]
pub ghost struct ModalModel {
    pub query: Seq<char>,
    pub section: SectionModel,
}

impl View for ModalBody {
    type V = ModalModel;

    open spec fn view(&self) -> ModalModel {
        ModalModel { query: self.query@, section: self.section@ }
    }
}

/// The view of an optional modal body.
pub open spec fn modal_view(m: Option<ModalBody>) -> Option<ModalModel> {
    match m {
        Option::Some(b) => Option::Some(b@),
        Option::None => Option::None,
    }
}

/// Every result of a successful outcome carries at least one excerpt.
pub open spec fn all_have_excerpts(rs: Seq<SearchResultModel>) -> bool {
    forall|i: int| 0 <= i < rs.len() ==> rs[i].excerpts.len() > 0
}

/// What the modal shows: nothing when the search flag is cleared; otherwise
/// the query text and, for a successful outcome, one rendered entry per
/// result in the index's order, or, for a failed one, exactly the error
/// message and no result entries.
pub open spec fn modal_model(
    flags: UiFlags,
    query: Seq<char>,
    outcome: Result<Seq<SearchResultModel>, Seq<char>>,
) -> Option<ModalModel> {
    if !flags.show_search.0 {
        Option::None
    } else {
        Option::Some(
            ModalModel {
                query: query,
                section: match outcome {
                    Result::Ok(rs) => SectionModel::Listed(
                        rs.map_values(|r: SearchResultModel| result_view_of(r)),
                    ),
                    Result::Err(e) => SectionModel::Failed(e),
                },
            },
        )
    }
}

/// The model of a search outcome as handed in by the caller.
pub open spec fn outcome_model(
    outcome: Result<Vec<SearchResult>, String>,
) -> Result<Seq<SearchResultModel>, Seq<char>> {
    match outcome {
        Result::Ok(rs) => Result::Ok(rs@.map_values(|r: SearchResult| r@)),
        Result::Err(e) => Result::Err(e@),
    }
}

/// Renders the search modal for the current flags, query text and search
/// outcome. The modal exists iff the search flag is set.
pub fn render_modal(flags: &UiFlags, query: &String, outcome: &Result<Vec<SearchResult>, String>) -> (m:
    Option<ModalBody>)
    requires
        outcome matches Result::Ok(rs) ==> all_have_excerpts(rs@.map_values(|r: SearchResult| r@)),
    ensures
        modal_view(m) == modal_model(*flags, query@, outcome_model(*outcome)),
{
    if !flags.show_search.0 {
        return Option::None;
    }
    let section = match outcome {
        Result::Ok(results) => {
            let mut views: Vec<ResultView> = Vec::new();
            let mut i: usize = 0;
            while i < results.len()
                invariant
                    i <= results.len(),
                    views@.len() == i,
                    all_have_excerpts(results@.map_values(|r: SearchResult| r@)),
                    forall|j: int| 0 <= j < i ==> views@[j]@ == result_view_of(results@[j]@),
                decreases results.len() - i,
            {
                proof {
                    assert(results@.map_values(|r: SearchResult| r@)[i as int] == results@[
                        i as int
                    ]@);
                }
                views.push(render_result(&results[i]));
                i += 1;
            }
            ResultsSection::Listed(views)
        },
        Result::Err(message) => ResultsSection::Failed(message.clone()),
    };
    let m = Option::Some(ModalBody { query: query.clone(), section });
    proof {
        assert(modal_view(m) matches Option::Some(b) && b =~= modal_model(
            *flags,
            query@,
            outcome_model(*outcome),
        ).unwrap());
    }
    m
}

/// Law: on a successful search the modal lists exactly one entry per result,
/// in the order the index returned them, each showing that result's title,
/// route, and first excerpt.
pub proof fn lemma_results_order_preserved(
    flags: UiFlags,
    query: Seq<char>,
    rs: Seq<SearchResultModel>,
)
    requires
        flags.show_search.0,
    ensures
        modal_model(flags, query, Result::Ok(rs)) matches Option::Some(m)
            && m.section matches SectionModel::Listed(vs) && vs.len() == rs.len() && (forall|
            i: int,
        |
            0 <= i < rs.len() ==> vs[i].title == rs[i].title && vs[i].route == rs[i].route
                && vs[i].segments == rs[i].excerpts[0]),
{
}

/// Law: on a failed search the modal shows exactly the index's error
/// message, and no result entries at all.
pub proof fn lemma_failure_shown_verbatim(flags: UiFlags, query: Seq<char>, err: Seq<char>)
    requires
        flags.show_search.0,
    ensures
        modal_model(flags, query, Result::Err(err)) matches Option::Some(m)
            && m.section matches SectionModel::Failed(e) && e == err,
        modal_model(flags, query, Result::Err(err)) matches Option::Some(m) && !(m.section
            matches SectionModel::Listed(_)),
{
}

/// Law: the modal is visible iff the search flag is set, whatever the query
/// and outcome.
pub proof fn lemma_modal_visibility(
    flags: UiFlags,
    query: Seq<char>,
    outcome: Result<Seq<SearchResultModel>, Seq<char>>,
)
    ensures
        modal_model(flags, query, outcome) is Some <==> flags.show_search.0,
{
}

} // verus!
