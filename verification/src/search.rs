//! Paginated search: one counting read and one page read over the same
//! conditions, run by the caller against the store.
//!
//! The library decides what to ask and what to make of each answer; the
//! caller performs the reads. `PagedSearch::start` hands out the first step,
//! and every answer of the store goes to `PagedSearch::step`, until a step is
//! `Done`.

use vstd::prelude::*;
use crate::criteria::{
    chair_criteria, estate_criteria, spec_chair_criteria, spec_estate_criteria, ChairSearchParams,
    EstateSearchParams,
};
use crate::entity::{Chair, Estate};
use crate::error::ErrorKind;
use crate::field::EntityKind;
use crate::page::{PageCursor, PageCursorView};
use crate::predicate::{BoundValueView, PredicateView};
use crate::query::{
    conditions_of, conjunction, count_query, page_query, ranking, Query, QueryView,
    SearchPredicateSet,
};
use crate::range::RangeBucketCatalog;

verus! {

/// One page of a listing, with the number of rows in the whole listing.
#[derive(Debug, Clone, PartialEq, Eq)]
pub struct Page<T> {
    pub count: i64,
    pub items: Vec<T>,
}

/// A `Page` with its rows as a sequence.
pub struct PageView<T> {
    pub count: i64,
    pub items: Seq<T>,
}

impl<T> View for Page<T> {
    type V = PageView<T>;

    open spec fn view(&self) -> PageView<T> {
        PageView { count: self.count, items: self.items@ }
    }
}

/// How far a search has come.
#[derive(Debug, Clone, Copy, PartialEq, Eq, Structural)]
pub enum SearchPhase {
    /// The counting read is out.
    Counting,
    /// The page read is out.
    Fetching,
    /// The search has ended.
    Closed,
}

/// What the store answered.
#[derive(Debug, PartialEq, Eq)]
pub enum SearchEvent<T> {
    /// The counting read's row, if it produced one.
    Counted(Option<i64>),
    /// The page read's rows, in the order in which they came.
    Fetched(Vec<T>),
    /// The read failed or timed out.
    Failed,
}

/// A `SearchEvent` with its rows as a sequence.
pub enum SearchEventView<T> {
    Counted(Option<i64>),
    Fetched(Seq<T>),
    Failed,
}

impl<T> View for SearchEvent<T> {
    type V = SearchEventView<T>;

    open spec fn view(&self) -> SearchEventView<T> {
        match *self {
            SearchEvent::Counted(row) => SearchEventView::Counted(row),
            SearchEvent::Fetched(items) => SearchEventView::Fetched(items@),
            SearchEvent::Failed => SearchEventView::Failed,
        }
    }
}

/// What the caller does next.
#[derive(Debug, PartialEq, Eq)]
pub enum SearchStep<T> {
    /// Run the counting read and answer with `Counted`.
    Count(Query),
    /// Run the page read and answer with `Fetched`.
    Fetch(Query),
    /// The search has ended with this result.
    Done(Result<Page<T>, ErrorKind>),
}

/// A `SearchStep` with its query and rows as sequences.
pub enum SearchStepView<T> {
    Count(QueryView),
    Fetch(QueryView),
    Done(Result<PageView<T>, ErrorKind>),
}

impl<T> View for SearchStep<T> {
    type V = SearchStepView<T>;

    open spec fn view(&self) -> SearchStepView<T> {
        match *self {
            SearchStep::Count(query) => SearchStepView::Count(query@),
            SearchStep::Fetch(query) => SearchStepView::Fetch(query@),
            SearchStep::Done(Ok(page)) => SearchStepView::Done(Ok(page@)),
            SearchStep::Done(Err(kind)) => SearchStepView::Done(Err(kind)),
        }
    }
}

/// A search under way.
#[derive(Debug)]
pub struct PagedSearch {
    set: SearchPredicateSet,
    cursor: PageCursor,
    phase: SearchPhase,
    count: i64,
}

/// What a search under way remembers.
pub struct PagedSearchView {
    pub entity: EntityKind,
    pub criteria: Seq<PredicateView>,
    pub cursor: PageCursorView,
    pub phase: SearchPhase,
    pub count: i64,
}

impl View for PagedSearch {
    type V = PagedSearchView;

    closed spec fn view(&self) -> PagedSearchView {
        PagedSearchView {
            entity: self.set.entity,
            criteria: self.set.criteria.deep_view(),
            cursor: self.cursor@,
            phase: self.phase,
            count: self.count,
        }
    }
}

impl PagedSearchView {
    /// All conditions of the search, the same for both of its reads.
    pub open spec fn conditions(self) -> Seq<PredicateView> {
        conditions_of(self.entity, self.criteria)
    }

    /// The counting read of the search. It does not depend on the page.
    pub open spec fn count_query(self) -> QueryView {
        count_query(self.entity, self.conditions())
    }

    /// The page read of the search: the limit is the page size, the offset
    /// the number of rows before the page.
    pub open spec fn page_query(self) -> QueryView {
        page_query(
            self.entity,
            self.conditions(),
            self.cursor.per_page,
            self.cursor.offset() as i64,
        )
    }

    /// The search with nothing more to do.
    pub open spec fn closed(self) -> PagedSearchView {
        PagedSearchView { phase: SearchPhase::Closed, ..self }
    }
}

/// A search at its start, and its first step: the counting read.
pub open spec fn search_start<T>(
    entity: EntityKind,
    criteria: Seq<PredicateView>,
    cursor: PageCursorView,
) -> (PagedSearchView, SearchStepView<T>) {
    let state = PagedSearchView { entity, criteria, cursor, phase: SearchPhase::Counting, count: 0 };
    (state, SearchStepView::Count(state.count_query()))
}

/// The search after the store's answer `event`, and its next step.
///
/// The count is taken from the counting read's row, zero where there is
/// none, and the page read follows. The page read's rows are handed on
/// unchanged, in their order, with that count. A failure, or an answer that
/// the search was not waiting for, ends it with `StorageUnavailable`.
pub open spec fn search_next<T>(state: PagedSearchView, event: SearchEventView<T>) -> (
    PagedSearchView,
    SearchStepView<T>,
) {
    match (state.phase, event) {
        (SearchPhase::Counting, SearchEventView::Counted(row)) => {
            let count = match row {
                Some(count) => count,
                None => 0,
            };
            let next = PagedSearchView { phase: SearchPhase::Fetching, count, ..state };
            (next, SearchStepView::Fetch(next.page_query()))
        },
        (SearchPhase::Fetching, SearchEventView::Fetched(items)) => (
            state.closed(),
            SearchStepView::Done(Ok(PageView { count: state.count, items })),
        ),
        _ => (state.closed(), SearchStepView::Done(Err(ErrorKind::StorageUnavailable))),
    }
}

impl PagedSearch {
    /// Starts a search for the page at `cursor` of the rows meeting `set`.
    pub fn start<T>(set: SearchPredicateSet, cursor: PageCursor) -> (begun: (
        PagedSearch,
        SearchStep<T>,
    ))
        ensures
            (begun.0@, begun.1@) == search_start::<T>(set.entity, set.criteria.deep_view(), cursor@),
    {
        let query = set.count_query();
        let state = PagedSearch { set, cursor, phase: SearchPhase::Counting, count: 0 };
        (state, SearchStep::Count(query))
    }

    /// Takes the store's answer and says what to do next.
    pub fn step<T>(self, event: SearchEvent<T>) -> (next: (PagedSearch, SearchStep<T>))
        ensures
            (next.0@, next.1@) == search_next(self@, event@),
    {
        let PagedSearch { set, cursor, phase, count } = self;
        match (phase, event) {
            (SearchPhase::Counting, SearchEvent::Counted(row)) => {
                let count = match row {
                    Some(count) => count,
                    None => 0,
                };
                let query = set.page_query(cursor.per_page(), cursor.offset());
                (
                    PagedSearch { set, cursor, phase: SearchPhase::Fetching, count },
                    SearchStep::Fetch(query),
                )
            },
            (SearchPhase::Fetching, SearchEvent::Fetched(items)) => (
                PagedSearch { set, cursor, phase: SearchPhase::Closed, count },
                SearchStep::Done(Ok(Page { count, items })),
            ),
            _ => (
                PagedSearch { set, cursor, phase: SearchPhase::Closed, count },
                SearchStep::Done(Err(ErrorKind::StorageUnavailable)),
            ),
        }
    }
}

/// What `begun` must be for a search whose conditions are `criteria`, or
/// whose request failed to give any: the failure itself and no read at all,
/// or the search at its start.
pub open spec fn begins<T>(
    begun: Result<(PagedSearch, SearchStep<T>), ErrorKind>,
    entity: EntityKind,
    criteria: Result<Seq<PredicateView>, ErrorKind>,
    cursor: PageCursorView,
) -> bool {
    match criteria {
        Ok(criteria) => begun matches Ok((state, step)) && (state@, step@) == search_start::<T>(
            entity,
            criteria,
            cursor,
        ),
        Err(kind) => begun matches Err(e) && e == kind,
    }
}

/// Starts a chair search: builds the conditions from the request's
/// selections and hands out the counting read, or fails before any read.
pub fn search_chairs(catalog: &RangeBucketCatalog, params: &ChairSearchParams, cursor: PageCursor)
    -> (begun: Result<(PagedSearch, SearchStep<Chair>), ErrorKind>)
    ensures
        begins(begun, EntityKind::Chair, spec_chair_criteria(catalog, params), cursor@),
{
    match chair_criteria(catalog, params) {
        Ok(set) => Ok(PagedSearch::start(set, cursor)),
        Err(kind) => Err(kind),
    }
}

/// Starts an estate search: builds the conditions from the request's
/// selections and hands out the counting read, or fails before any read.
pub fn search_estates(
    catalog: &RangeBucketCatalog,
    params: &EstateSearchParams,
    cursor: PageCursor,
) -> (begun: Result<(PagedSearch, SearchStep<Estate>), ErrorKind>)
    ensures
        begins(begun, EntityKind::Estate, spec_estate_criteria(catalog, params), cursor@),
{
    match estate_criteria(catalog, params) {
        Ok(set) => Ok(PagedSearch::start(set, cursor)),
        Err(kind) => Err(kind),
    }
}

/// The result of a search that is at `step`, run to its end against a store
/// that answers the read `q` with `store(q)`, within `reads` answers.
pub open spec fn search_outcome<T>(
    state: PagedSearchView,
    step: SearchStepView<T>,
    store: spec_fn(QueryView) -> SearchEventView<T>,
    reads: nat,
) -> Result<PageView<T>, ErrorKind>
    decreases reads,
{
    match step {
        SearchStepView::Done(result) => result,
        SearchStepView::Count(query) | SearchStepView::Fetch(query) => {
            if reads == 0 {
                Err(ErrorKind::StorageUnavailable)
            } else {
                let (next, then) = search_next(state, store(query));
                search_outcome(next, then, store, (reads - 1) as nat)
            }
        },
    }
}

/// The result of a whole search against `store`.
pub open spec fn search_result<T>(
    entity: EntityKind,
    criteria: Seq<PredicateView>,
    cursor: PageCursorView,
    store: spec_fn(QueryView) -> SearchEventView<T>,
) -> Result<PageView<T>, ErrorKind> {
    let (state, step) = search_start::<T>(entity, criteria, cursor);
    search_outcome(state, step, store, 2)
}

/// A search is two reads and no more. It succeeds exactly when the store
/// answers the counting read with a count and the page read with rows; the
/// result is then that count, zero for a missing row, with those rows as they
/// came. In every other case the whole search fails with
/// `StorageUnavailable`, and nothing of what was read is returned.
pub proof fn lemma_search_is_two_reads<T>(
    entity: EntityKind,
    criteria: Seq<PredicateView>,
    cursor: PageCursorView,
    store: spec_fn(QueryView) -> SearchEventView<T>,
)
    ensures
        ({
            let begun = search_start::<T>(entity, criteria, cursor).0;
            let counted = store(begun.count_query());
            let fetched = store(begun.page_query());
            search_result(entity, criteria, cursor, store) == match (counted, fetched) {
                (SearchEventView::Counted(row), SearchEventView::Fetched(items)) => Ok::<
                    PageView<T>,
                    ErrorKind,
                >(
                    PageView {
                        count: match row {
                            Some(count) => count,
                            None => 0,
                        },
                        items,
                    },
                ),
                _ => Err::<PageView<T>, ErrorKind>(ErrorKind::StorageUnavailable),
            }
        }),
{
    reveal_with_fuel(search_outcome, 3);
}

/// The total count does not depend on the page: two searches with the same
/// conditions over the same data report the same count, whichever pages
/// they read.
pub proof fn lemma_total_count_ignores_page<T>(
    entity: EntityKind,
    criteria: Seq<PredicateView>,
    one: PageCursorView,
    other: PageCursorView,
    store: spec_fn(QueryView) -> SearchEventView<T>,
)
    requires
        search_result(entity, criteria, one, store) is Ok,
        search_result(entity, criteria, other, store) is Ok,
    ensures
        search_result(entity, criteria, one, store).unwrap().count == search_result(
            entity,
            criteria,
            other,
            store,
        ).unwrap().count,
{
    lemma_search_is_two_reads(entity, criteria, one, store);
    lemma_search_is_two_reads(entity, criteria, other, store);
}

/// A search can be repeated: the same conditions and the same cursor, against
/// stores that answer the search's two reads alike, give the same result, the
/// same rows in the same order. Nothing else of the store matters.
pub proof fn lemma_search_repeatable<T>(
    entity: EntityKind,
    criteria: Seq<PredicateView>,
    cursor: PageCursorView,
    first: spec_fn(QueryView) -> SearchEventView<T>,
    second: spec_fn(QueryView) -> SearchEventView<T>,
)
    requires
        ({
            let begun = search_start::<T>(entity, criteria, cursor).0;
            &&& first(begun.count_query()) == second(begun.count_query())
            &&& first(begun.page_query()) == second(begun.page_query())
        }),
    ensures
        search_result(entity, criteria, cursor, first) == search_result(
            entity,
            criteria,
            cursor,
            second,
        ),
{
    lemma_search_is_two_reads(entity, criteria, cursor, first);
    lemma_search_is_two_reads(entity, criteria, cursor, second);
}

/// Both reads of a search carry the same conditions: the page read writes the
/// conditions as the counting read does, binds the values of the counting
/// read in the same order, and after them its limit and its offset.
pub proof fn lemma_reads_share_conditions(state: PagedSearchView)
    ensures
        state.count_query().text == "select count(*) from "@ + state.entity.table_name()
            + " where "@ + conjunction(state.conditions()),
        state.page_query().text == "select * from "@ + state.entity.table_name() + " where "@
            + conjunction(state.conditions()) + ranking() + " limit ? offset ?"@,
        state.page_query().values == state.count_query().values + seq![
            BoundValueView::Int(state.cursor.per_page),
            BoundValueView::Int(state.cursor.offset() as i64),
        ],
{
}

/// The counting read does not depend on the page: searches with the same
/// conditions start with the same read, whichever page they are after.
pub proof fn lemma_count_read_ignores_page<T>(
    entity: EntityKind,
    criteria: Seq<PredicateView>,
    one: PageCursorView,
    other: PageCursorView,
)
    ensures
        search_start::<T>(entity, criteria, one).1 == search_start::<T>(entity, criteria, other).1,
{
}

} // verus!
