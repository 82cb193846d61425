//! Searching the estates inside an area drawn as a polygon.
//!
//! The store first lists the estates inside the polygon's bounding box, most
//! popular first. Each of them is then tested against the polygon itself, by
//! the store again, in that order; the ones inside are kept in that order,
//! and at most the first `NAZOTTE_LIMIT` of them are returned.
//!
//! Latitudes and longitudes are order keys: integers that stand for the
//! angles and grow as the angles grow. The library orders and compares them
//! and hands them back.

use vstd::prelude::*;
use vstd::string::StringExecFns;
use crate::entity::Estate;
use crate::error::ErrorKind;
use crate::predicate::{BoundValue, BoundValueView};
use crate::query::{ranking, Query, QueryView};
use crate::search::{Page, PageView};

verus! {

/// The most estates that a search by area returns.
pub const NAZOTTE_LIMIT: usize = 50;

/// A point on the map.
#[derive(Debug, Clone, Copy, PartialEq, Eq, Structural)]
pub struct Coordinate {
    pub latitude: i64,
    pub longitude: i64,
}

/// The vertices of a polygon, in the order in which it was drawn.
#[derive(Debug, Clone, PartialEq, Eq)]
pub struct Coordinates {
    pub coordinates: Vec<Coordinate>,
}

/// The smallest upright rectangle around a polygon.
#[derive(Debug, Clone, Copy, PartialEq, Eq, Structural)]
pub struct BoundingBox {
    pub min_latitude: i64,
    pub max_latitude: i64,
    pub min_longitude: i64,
    pub max_longitude: i64,
}

impl BoundingBox {
    /// Whether `point` lies in the box, its edges included.
    pub open spec fn contains(self, point: Coordinate) -> bool {
        &&& self.min_latitude <= point.latitude <= self.max_latitude
        &&& self.min_longitude <= point.longitude <= self.max_longitude
    }

    /// Whether the box is the bounding box of `polygon`: every vertex lies in
    /// it, and each of its four edges passes through a vertex.
    pub open spec fn bounds(self, polygon: Seq<Coordinate>) -> bool {
        &&& forall|k: int| 0 <= k < polygon.len() ==> self.contains(#[trigger] polygon[k])
        &&& exists|k: int| 0 <= k < polygon.len() && (#[trigger] polygon[k]).latitude == self.min_latitude
        &&& exists|k: int| 0 <= k < polygon.len() && (#[trigger] polygon[k]).latitude == self.max_latitude
        &&& exists|k: int| 0 <= k < polygon.len() && (#[trigger] polygon[k]).longitude == self.min_longitude
        &&& exists|k: int| 0 <= k < polygon.len() && (#[trigger] polygon[k]).longitude == self.max_longitude
    }

    /// Tests whether `point` lies in the box, its edges included.
    pub fn covers(&self, point: &Coordinate) -> (inside: bool)
        ensures
            inside == self.contains(*point),
    {
        self.min_latitude <= point.latitude && point.latitude <= self.max_latitude
            && self.min_longitude <= point.longitude && point.longitude <= self.max_longitude
    }
}

/// A polygon has one bounding box: two boxes that both bound it are equal.
pub proof fn lemma_bounding_box_unique(polygon: Seq<Coordinate>, one: BoundingBox, other: BoundingBox)
    requires
        one.bounds(polygon),
        other.bounds(polygon),
    ensures
        one == other,
{
}

/// The bounding box is the smallest box around the polygon: every box that
/// contains all vertices contains all of the bounding box.
pub proof fn lemma_bounding_box_smallest(
    polygon: Seq<Coordinate>,
    bounding: BoundingBox,
    around: BoundingBox,
    point: Coordinate,
)
    requires
        bounding.bounds(polygon),
        forall|k: int| 0 <= k < polygon.len() ==> around.contains(#[trigger] polygon[k]),
        bounding.contains(point),
    ensures
        around.contains(point),
{
}

impl Coordinates {
    /// Computes the bounding box of the polygon; a polygon without vertices
    /// has none.
    pub fn get_bounding_box(&self) -> (bounding: Option<BoundingBox>)
        ensures
            bounding is Some <==> self.coordinates@.len() > 0,
            bounding matches Some(b) ==> b.bounds(self.coordinates@),
    {
        let n = self.coordinates.len();
        if n == 0 {
            return None;
        }
        let first = self.coordinates[0];
        let mut b = BoundingBox {
            min_latitude: first.latitude,
            max_latitude: first.latitude,
            min_longitude: first.longitude,
            max_longitude: first.longitude,
        };
        let mut i: usize = 1;
        assert(self.coordinates@.subrange(0, 1)[0] == first);
        while i < n
            invariant
                n == self.coordinates.len(),
                1 <= i <= n,
                b.bounds(self.coordinates@.subrange(0, i as int)),
            decreases n - i,
        {
            let ghost seen = self.coordinates@.subrange(0, i as int);
            let ghost next = self.coordinates@.subrange(0, i + 1);
            let ghost before = b;
            let point = self.coordinates[i];
            if point.latitude < b.min_latitude {
                b.min_latitude = point.latitude;
            }
            if point.latitude > b.max_latitude {
                b.max_latitude = point.latitude;
            }
            if point.longitude < b.min_longitude {
                b.min_longitude = point.longitude;
            }
            if point.longitude > b.max_longitude {
                b.max_longitude = point.longitude;
            }
            proof {
                assert(next[i as int] == point);
                assert forall|k: int| 0 <= k < next.len() implies b.contains(
                    #[trigger] next[k],
                ) by {
                    if k < i {
                        assert(seen[k] == next[k]);
                        assert(before.contains(seen[k]));
                    }
                }
                let k0 = choose|k: int|
                    0 <= k < seen.len() && (#[trigger] seen[k]).latitude == before.min_latitude;
                let k1 = choose|k: int|
                    0 <= k < seen.len() && (#[trigger] seen[k]).latitude == before.max_latitude;
                let k2 = choose|k: int|
                    0 <= k < seen.len() && (#[trigger] seen[k]).longitude == before.min_longitude;
                let k3 = choose|k: int|
                    0 <= k < seen.len() && (#[trigger] seen[k]).longitude == before.max_longitude;
                assert(next[k0] == seen[k0] && next[k1] == seen[k1] && next[k2] == seen[k2]
                    && next[k3] == seen[k3]);
                let j0 = if point.latitude < before.min_latitude { i as int } else { k0 };
                let j1 = if point.latitude > before.max_latitude { i as int } else { k1 };
                let j2 = if point.longitude < before.min_longitude { i as int } else { k2 };
                let j3 = if point.longitude > before.max_longitude { i as int } else { k3 };
                assert(next[j0].latitude == b.min_latitude);
                assert(next[j1].latitude == b.max_latitude);
                assert(next[j2].longitude == b.min_longitude);
                assert(next[j3].longitude == b.max_longitude);
            }
            i += 1;
        }
        assert(self.coordinates@.subrange(0, n as int) =~= self.coordinates@);
        Some(b)
    }
}

/// The query for the estates inside `bounding`, edges included, most
/// popular first. Its values are the upper bound before the lower, latitude
/// before longitude.
pub open spec fn bounding_box_query(bounding: BoundingBox) -> QueryView {
    QueryView {
        text:
            "select * from estate where latitude <= ? and latitude >= ? and longitude <= ? and longitude >= ?"@
            + ranking(),
        values: seq![
            BoundValueView::Coordinate(bounding.max_latitude),
            BoundValueView::Coordinate(bounding.min_latitude),
            BoundValueView::Coordinate(bounding.max_longitude),
            BoundValueView::Coordinate(bounding.min_longitude),
        ],
    }
}

impl BoundingBox {
    /// Builds the query for the estates inside the box.
    pub fn candidates_query(&self) -> (query: Query)
        ensures
            query@ == bounding_box_query(*self),
    {
        let mut text = String::from_str(
            "select * from estate where latitude <= ? and latitude >= ? and longitude <= ? and longitude >= ?",
        );
        text.append(" order by popularity desc, id asc");
        let mut values: Vec<BoundValue> = Vec::new();
        values.push(BoundValue::Coordinate(self.max_latitude));
        values.push(BoundValue::Coordinate(self.min_latitude));
        values.push(BoundValue::Coordinate(self.max_longitude));
        values.push(BoundValue::Coordinate(self.min_longitude));
        assert(values.deep_view() =~= bounding_box_query(*self).values);
        Query { text, values }
    }
}

/// The test of one candidate against the polygon: does the polygon, its
/// border included, contain the point at which the estate lies?
#[derive(Debug, Clone, Copy, PartialEq, Eq, Structural)]
pub struct ContainmentCheck {
    pub estate_id: i64,
    pub latitude: i64,
    pub longitude: i64,
}

impl Estate {
    /// The point at which the estate lies.
    pub open spec fn location(&self) -> Coordinate {
        Coordinate { latitude: self.latitude, longitude: self.longitude }
    }

    /// The test of this estate against the polygon.
    pub open spec fn containment_check(&self) -> ContainmentCheck {
        ContainmentCheck {
            estate_id: self.id,
            latitude: self.latitude,
            longitude: self.longitude,
        }
    }
}

/// How far a search by area has come.
#[derive(Debug, Clone, Copy, PartialEq, Eq, Structural)]
pub enum PolygonPhase {
    /// The read of the estates in the bounding box is out.
    Listing,
    /// The test of one candidate is out.
    Checking,
    /// The search has ended.
    Closed,
}

/// What the store answered.
#[derive(Debug, PartialEq, Eq)]
pub enum PolygonEvent {
    /// The estates in the bounding box, in the order in which they came.
    Candidates(Vec<Estate>),
    /// The estate that was tested, if the polygon contains it.
    Checked(Option<Estate>),
    /// The read failed or timed out.
    Failed,
}

/// A `PolygonEvent` with its rows as a sequence.
pub enum PolygonEventView {
    Candidates(Seq<Estate>),
    Checked(Option<Estate>),
    Failed,
}

impl View for PolygonEvent {
    type V = PolygonEventView;

    open spec fn view(&self) -> PolygonEventView {
        match *self {
            PolygonEvent::Candidates(estates) => PolygonEventView::Candidates(estates@),
            PolygonEvent::Checked(verdict) => PolygonEventView::Checked(verdict),
            PolygonEvent::Failed => PolygonEventView::Failed,
        }
    }
}

/// What the caller does next.
#[derive(Debug, PartialEq, Eq)]
pub enum PolygonStep {
    /// Read the estates in the bounding box and answer with `Candidates`.
    List(Query),
    /// Test one candidate against the polygon and answer with `Checked`.
    Check(ContainmentCheck),
    /// The search has ended with this result.
    Done(Result<Page<Estate>, ErrorKind>),
}

/// A `PolygonStep` with its query and rows as sequences.
pub enum PolygonStepView {
    List(QueryView),
    Check(ContainmentCheck),
    Done(Result<PageView<Estate>, ErrorKind>),
}

impl View for PolygonStep {
    type V = PolygonStepView;

    open spec fn view(&self) -> PolygonStepView {
        match *self {
            PolygonStep::List(query) => PolygonStepView::List(query@),
            PolygonStep::Check(check) => PolygonStepView::Check(check),
            PolygonStep::Done(Ok(page)) => PolygonStepView::Done(Ok(page@)),
            PolygonStep::Done(Err(kind)) => PolygonStepView::Done(Err(kind)),
        }
    }
}

/// A search by area under way.
#[derive(Debug)]
pub struct PolygonSearch {
    phase: PolygonPhase,
    candidates: Vec<Estate>,
    checked: usize,
    found: Vec<Estate>,
}

/// What a search by area remembers: the candidates, how many of them have
/// been tested, and the ones found inside so far.
pub struct PolygonSearchView {
    pub phase: PolygonPhase,
    pub candidates: Seq<Estate>,
    pub checked: nat,
    pub found: Seq<Estate>,
}

impl View for PolygonSearch {
    type V = PolygonSearchView;

    closed spec fn view(&self) -> PolygonSearchView {
        PolygonSearchView {
            phase: self.phase,
            candidates: self.candidates@,
            checked: self.checked as nat,
            found: self.found@,
        }
    }
}

/// The first `NAZOTTE_LIMIT` of `found`, as a page that counts its own rows.
pub open spec fn capped(found: Seq<Estate>) -> PageView<Estate> {
    let items = if found.len() > NAZOTTE_LIMIT {
        found.subrange(0, NAZOTTE_LIMIT as int)
    } else {
        found
    };
    PageView { count: items.len() as i64, items }
}

impl PolygonSearchView {
    /// A search with nothing more to do, and nothing kept.
    pub open spec fn closed() -> PolygonSearchView {
        PolygonSearchView {
            phase: PolygonPhase::Closed,
            candidates: Seq::empty(),
            checked: 0,
            found: Seq::empty(),
        }
    }

    /// Whether the search is in a state that a run can reach.
    pub open spec fn valid(self) -> bool {
        self.phase == PolygonPhase::Checking ==> self.checked < self.candidates.len()
    }
}

/// A search by area at its start, and its first step: the read of the
/// estates in the polygon's bounding box.
pub open spec fn polygon_start(bounding: BoundingBox) -> (PolygonSearchView, PolygonStepView) {
    (
        PolygonSearchView {
            phase: PolygonPhase::Listing,
            candidates: Seq::empty(),
            checked: 0,
            found: Seq::empty(),
        },
        PolygonStepView::List(bounding_box_query(bounding)),
    )
}

/// The search after the store's answer `event`, and its next step.
///
/// The candidates are tested one by one in the order in which they came; an
/// empty list ends the search with an empty page. A candidate that the
/// polygon contains is added behind the ones found before it. After the last
/// test the search ends with the first `NAZOTTE_LIMIT` of the estates found.
/// A failure, or an answer that the search was not waiting for, ends it with
/// `StorageUnavailable` and nothing of what was found.
pub open spec fn polygon_next(state: PolygonSearchView, event: PolygonEventView) -> (
    PolygonSearchView,
    PolygonStepView,
) {
    match (state.phase, event) {
        (PolygonPhase::Listing, PolygonEventView::Candidates(candidates)) => {
            if candidates.len() == 0 {
                (PolygonSearchView::closed(), PolygonStepView::Done(Ok(capped(Seq::empty()))))
            } else {
                (
                    PolygonSearchView {
                        phase: PolygonPhase::Checking,
                        candidates,
                        checked: 0,
                        found: Seq::empty(),
                    },
                    PolygonStepView::Check(candidates[0].containment_check()),
                )
            }
        },
        (PolygonPhase::Checking, PolygonEventView::Checked(verdict)) => {
            let found = match verdict {
                Some(estate) => state.found.push(estate),
                None => state.found,
            };
            let checked = state.checked + 1;
            if checked < state.candidates.len() {
                (
                    PolygonSearchView { checked, found, ..state },
                    PolygonStepView::Check(state.candidates[checked as int].containment_check()),
                )
            } else {
                (PolygonSearchView::closed(), PolygonStepView::Done(Ok(capped(found))))
            }
        },
        _ => (PolygonSearchView::closed(), PolygonStepView::Done(Err(ErrorKind::StorageUnavailable))),
    }
}

/// Cuts `found` down to its first `NAZOTTE_LIMIT` rows and counts them.
fn cap(found: Vec<Estate>) -> (page: Page<Estate>)
    ensures
        page@ == capped(found@),
{
    let mut items = found;
    if items.len() > NAZOTTE_LIMIT {
        items.truncate(NAZOTTE_LIMIT);
    }
    Page { count: items.len() as i64, items }
}

impl PolygonSearch {
    #[verifier::type_invariant]
    spec fn well_formed(&self) -> bool {
        self.phase == PolygonPhase::Checking ==> self.checked < self.candidates.len()
    }

    /// Takes the store's answer and says what to do next.
    pub fn step(self, event: PolygonEvent) -> (next: (PolygonSearch, PolygonStep))
        ensures
            self@.valid(),
            (next.0@, next.1@) == polygon_next(self@, event@),
    {
        proof {
            use_type_invariant(&self);
        }
        let PolygonSearch { phase, candidates, checked, found } = self;
        match (phase, event) {
            (PolygonPhase::Listing, PolygonEvent::Candidates(listed)) => {
                if listed.len() == 0 {
                    (PolygonSearch::closed(), PolygonStep::Done(Ok(cap(Vec::new()))))
                } else {
                    let check = ContainmentCheck {
                        estate_id: listed[0].id,
                        latitude: listed[0].latitude,
                        longitude: listed[0].longitude,
                    };
                    (
                        PolygonSearch {
                            phase: PolygonPhase::Checking,
                            candidates: listed,
                            checked: 0,
                            found: Vec::new(),
                        },
                        PolygonStep::Check(check),
                    )
                }
            },
            (PolygonPhase::Checking, PolygonEvent::Checked(verdict)) => {
                let mut found = found;
                if let Some(estate) = verdict {
                    found.push(estate);
                }
                let checked = checked + 1;
                if checked < candidates.len() {
                    let check = ContainmentCheck {
                        estate_id: candidates[checked].id,
                        latitude: candidates[checked].latitude,
                        longitude: candidates[checked].longitude,
                    };
                    (
                        PolygonSearch { phase: PolygonPhase::Checking, candidates, checked, found },
                        PolygonStep::Check(check),
                    )
                } else {
                    (PolygonSearch::closed(), PolygonStep::Done(Ok(cap(found))))
                }
            },
            _ => (
                PolygonSearch::closed(),
                PolygonStep::Done(Err(ErrorKind::StorageUnavailable)),
            ),
        }
    }

    fn closed() -> (state: PolygonSearch)
        ensures
            state@ == PolygonSearchView::closed(),
    {
        PolygonSearch {
            phase: PolygonPhase::Closed,
            candidates: Vec::new(),
            checked: 0,
            found: Vec::new(),
        }
    }
}

/// What `begun` must be for a search over the area `polygon`: a refusal with
/// `EmptyPolygon` and no read at all for a polygon without vertices, else the
/// search at its start, with the read of the polygon's bounding box.
pub open spec fn polygon_begins(
    begun: Result<(PolygonSearch, PolygonStep), ErrorKind>,
    polygon: Seq<Coordinate>,
) -> bool {
    if polygon.len() == 0 {
        begun matches Err(kind) && kind == ErrorKind::EmptyPolygon
    } else {
        begun matches Ok((state, step)) && exists|bounding: BoundingBox|
            #![auto]
            bounding.bounds(polygon) && (state@, step@) == polygon_start(bounding)
    }
}

/// Starts a search for the estates inside the polygon `coordinates`.
pub fn search_estate_nazotte(coordinates: &Coordinates) -> (begun: Result<
    (PolygonSearch, PolygonStep),
    ErrorKind,
>)
    ensures
        polygon_begins(begun, coordinates.coordinates@),
{
    match coordinates.get_bounding_box() {
        None => Err(ErrorKind::EmptyPolygon),
        Some(bounding) => {
            let state = PolygonSearch {
                phase: PolygonPhase::Listing,
                candidates: Vec::new(),
                checked: 0,
                found: Vec::new(),
            };
            let step = PolygonStep::List(bounding.candidates_query());
            assert(bounding.bounds(coordinates.coordinates@) && (state@, step@) == polygon_start(
                bounding,
            ));
            Ok((state, step))
        },
    }
}

/// The store as a search by area sees it: what it answers to the read of
/// the candidates, and to the test of each candidate.
pub struct PolygonStore {
    pub list: spec_fn(QueryView) -> PolygonEventView,
    pub check: spec_fn(ContainmentCheck) -> PolygonEventView,
}

/// The result of a search by area that is at `step`, run to its end against
/// `store`, within `reads` answers.
pub open spec fn polygon_outcome(
    state: PolygonSearchView,
    step: PolygonStepView,
    store: PolygonStore,
    reads: nat,
) -> Result<PageView<Estate>, ErrorKind>
    decreases reads,
{
    match step {
        PolygonStepView::Done(result) => result,
        PolygonStepView::List(query) => {
            if reads == 0 {
                Err(ErrorKind::StorageUnavailable)
            } else {
                let (next, then) = polygon_next(state, (store.list)(query));
                polygon_outcome(next, then, store, (reads - 1) as nat)
            }
        },
        PolygonStepView::Check(check) => {
            if reads == 0 {
                Err(ErrorKind::StorageUnavailable)
            } else {
                let (next, then) = polygon_next(state, (store.check)(check));
                polygon_outcome(next, then, store, (reads - 1) as nat)
            }
        },
    }
}

/// The estates that the tests find among `candidates`, in the order of the
/// candidates, or `None` where the test of a candidate is not answered with
/// a verdict.
pub open spec fn found_among(
    candidates: Seq<Estate>,
    check: spec_fn(ContainmentCheck) -> PolygonEventView,
) -> Option<Seq<Estate>>
    decreases candidates.len(),
{
    if candidates.len() == 0 {
        Some(Seq::empty())
    } else {
        match (
            found_among(candidates.drop_last(), check),
            check(candidates.last().containment_check()),
        ) {
            (Some(before), PolygonEventView::Checked(Some(estate))) => Some(before.push(estate)),
            (Some(before), PolygonEventView::Checked(None)) => Some(before),
            _ => None,
        }
    }
}

/// What a search by area comes to, given the store's answer to the read of
/// the candidates: the first `NAZOTTE_LIMIT` of the estates found among the
/// candidates, or `StorageUnavailable`.
pub open spec fn polygon_result(listed: PolygonEventView, store: PolygonStore) -> Result<
    PageView<Estate>,
    ErrorKind,
> {
    match listed {
        PolygonEventView::Candidates(candidates) => match found_among(candidates, store.check) {
            Some(found) => Ok(capped(found)),
            None => Err(ErrorKind::StorageUnavailable),
        },
        _ => Err(ErrorKind::StorageUnavailable),
    }
}

proof fn lemma_found_among_stays_none(
    candidates: Seq<Estate>,
    check: spec_fn(ContainmentCheck) -> PolygonEventView,
    tested: int,
)
    requires
        0 <= tested <= candidates.len(),
        found_among(candidates.subrange(0, tested), check) is None,
    ensures
        found_among(candidates, check) is None,
    decreases candidates.len() - tested,
{
    if tested == candidates.len() {
        assert(candidates.subrange(0, tested) =~= candidates);
    } else {
        let longer = candidates.subrange(0, tested + 1);
        assert(longer.drop_last() =~= candidates.subrange(0, tested));
        lemma_found_among_stays_none(candidates, check, tested + 1);
    }
}

proof fn lemma_checking_outcome(state: PolygonSearchView, store: PolygonStore, reads: nat)
    requires
        state.phase == PolygonPhase::Checking,
        state.checked < state.candidates.len(),
        found_among(state.candidates.subrange(0, state.checked as int), store.check) == Some(
            state.found,
        ),
        reads >= state.candidates.len() - state.checked,
    ensures
        polygon_outcome(
            state,
            PolygonStepView::Check(state.candidates[state.checked as int].containment_check()),
            store,
            reads,
        ) == polygon_result(PolygonEventView::Candidates(state.candidates), store),
    decreases state.candidates.len() - state.checked,
{
    let candidates = state.candidates;
    let tested = state.checked as int;
    let current = candidates[tested];
    let event = (store.check)(current.containment_check());
    let (next, then) = polygon_next(state, event);
    let longer = candidates.subrange(0, tested + 1);
    assert(longer.drop_last() =~= candidates.subrange(0, tested));
    assert(longer.last() == current);
    reveal_with_fuel(polygon_outcome, 2);
    match event {
        PolygonEventView::Checked(verdict) => {
            assert(found_among(longer, store.check) == Some(next.found) || tested + 1
                == candidates.len());
            if tested + 1 < candidates.len() {
                lemma_checking_outcome(next, store, (reads - 1) as nat);
            } else {
                assert(longer =~= candidates);
            }
        },
        _ => {
            assert(found_among(longer, store.check) is None);
            lemma_found_among_stays_none(candidates, store.check, tested + 1);
        },
    }
}

/// A search by area is one read of the candidates and one test of each of
/// them. It returns the first `NAZOTTE_LIMIT` of the estates found among the
/// candidates, in the candidates' order, and counts them. Should the read or
/// any of the tests fail, the whole search fails with `StorageUnavailable`
/// and returns nothing of what it had found.
pub proof fn lemma_polygon_search_outcome(bounding: BoundingBox, store: PolygonStore, reads: nat)
    requires
        (store.list)(bounding_box_query(bounding)) matches PolygonEventView::Candidates(candidates)
            ==> reads > candidates.len(),
        reads > 0,
    ensures
        ({
            let (state, step) = polygon_start(bounding);
            polygon_outcome(state, step, store, reads) == polygon_result(
                (store.list)(bounding_box_query(bounding)),
                store,
            )
        }),
{
    let (state, step) = polygon_start(bounding);
    let listed = (store.list)(bounding_box_query(bounding));
    let (next, then) = polygon_next(state, listed);
    reveal_with_fuel(polygon_outcome, 2);
    match listed {
        PolygonEventView::Candidates(candidates) => {
            if candidates.len() > 0 {
                assert(candidates.subrange(0, 0) =~= Seq::<Estate>::empty());
                lemma_checking_outcome(next, store, (reads - 1) as nat);
            }
        },
        _ => {},
    }
}

/// The estates found keep the order of the candidates: where the store
/// answers each test with the tested estate itself or with nothing, the
/// estates found are the candidates that passed, none added, none moved.
pub proof fn lemma_found_keeps_order(
    candidates: Seq<Estate>,
    check: spec_fn(ContainmentCheck) -> PolygonEventView,
)
    requires
        forall|k: int|
            0 <= k < candidates.len() ==> {
                let verdict = check((#[trigger] candidates[k]).containment_check());
                verdict == PolygonEventView::Checked(None) || verdict == PolygonEventView::Checked(
                    Some(candidates[k]),
                )
            },
    ensures
        found_among(candidates, check) == Some(
            candidates.filter(
                |estate: Estate|
                    check(estate.containment_check()) == PolygonEventView::Checked(Some(estate)),
            ),
        ),
    decreases candidates.len(),
{
    let passed = |estate: Estate|
        check(estate.containment_check()) == PolygonEventView::Checked(Some(estate));
    reveal(Seq::filter);
    if candidates.len() > 0 {
        let before = candidates.drop_last();
        assert forall|k: int| 0 <= k < before.len() implies {
            let verdict = check((#[trigger] before[k]).containment_check());
            verdict == PolygonEventView::Checked(None) || verdict == PolygonEventView::Checked(
                Some(before[k]),
            )
        } by {
            assert(before[k] == candidates[k]);
        }
        lemma_found_keeps_order(before, check);
        assert(candidates.last() == candidates[candidates.len() - 1]);
    }
}

/// Both stages cut, and neither adds: where the store lists only estates in
/// the bounding box, and answers each test with the tested estate itself or
/// with nothing, every estate of the result is one of the candidates, lies in
/// the bounding box, and passed the test against the polygon. An estate
/// outside the box, or one that fails the test, is never returned.
pub proof fn lemma_area_search_returns_only_contained(
    bounding: BoundingBox,
    candidates: Seq<Estate>,
    store: PolygonStore,
    k: int,
)
    requires
        forall|j: int|
            0 <= j < candidates.len() ==> bounding.contains((#[trigger] candidates[j]).location()),
        forall|j: int|
            0 <= j < candidates.len() ==> {
                let verdict = (store.check)((#[trigger] candidates[j]).containment_check());
                verdict == PolygonEventView::Checked(None) || verdict == PolygonEventView::Checked(
                    Some(candidates[j]),
                )
            },
        0 <= k < polygon_result(PolygonEventView::Candidates(candidates), store).unwrap().items.len(),
    ensures
        polygon_result(PolygonEventView::Candidates(candidates), store) is Ok,
        ({
            let estate = polygon_result(
                PolygonEventView::Candidates(candidates),
                store,
            ).unwrap().items[k];
            &&& candidates.contains(estate)
            &&& bounding.contains(estate.location())
            &&& (store.check)(estate.containment_check()) == PolygonEventView::Checked(
                Some(estate),
            )
        }),
{
    let passed = |estate: Estate|
        (store.check)(estate.containment_check()) == PolygonEventView::Checked(Some(estate));
    lemma_found_keeps_order(candidates, store.check);
    let found = candidates.filter(passed);
    lemma_capped_is_front(found);
    let estate = found[k];
    candidates.lemma_filter_contains_rev(passed, estate);
    let j = choose|j: int| 0 <= j < candidates.len() && candidates[j] == estate;
    assert(bounding.contains(candidates[j].location()));
}

/// The cap keeps the front: a page made of the estates found holds the first
/// `NAZOTTE_LIMIT` of them, all of them where they are no more than that,
/// and its count is the number of rows it holds.
pub proof fn lemma_capped_is_front(found: Seq<Estate>)
    ensures
        capped(found).items.len() == if found.len() > NAZOTTE_LIMIT {
            NAZOTTE_LIMIT as nat
        } else {
            found.len()
        },
        capped(found).count == capped(found).items.len(),
        forall|k: int| 0 <= k < capped(found).items.len() ==> capped(found).items[k] == found[k],
{
}

} // verus!
