//! Recommending estates for a chair: the estates whose door lets the chair
//! through in some orientation.
//!
//! A chair can face the door with any two of its three dimensions, in either
//! order, as the width and height of its footprint. The door admits the
//! chair when it is at least as wide and as high as one of those six
//! footprints.

use vstd::prelude::*;
use vstd::string::StringExecFns;
use crate::entity::{Chair, Estate};
use crate::error::ErrorKind;
use crate::listing::{chair_by_id_query, find_chair_query, LIMIT};
use crate::predicate::{BoundValue, BoundValueView};
use crate::query::{ranking, Query, QueryView};

verus! {

/// The three dimensions of a chair.
#[derive(Debug, Clone, Copy, PartialEq, Eq, Structural)]
pub struct Dimensions {
    pub width: i64,
    pub height: i64,
    pub depth: i64,
}

/// The door of an estate.
#[derive(Debug, Clone, Copy, PartialEq, Eq, Structural)]
pub struct Opening {
    pub width: i64,
    pub height: i64,
}

impl Dimensions {
    /// The six footprints of the chair, as (width, height): every ordered
    /// pair of two different dimensions.
    pub open spec fn orientations(self) -> Seq<(i64, i64)> {
        seq![
            (self.width, self.height),
            (self.width, self.depth),
            (self.height, self.width),
            (self.height, self.depth),
            (self.depth, self.width),
            (self.depth, self.height),
        ]
    }

    /// Lists the six footprints.
    pub fn orientation_pairs(&self) -> (pairs: Vec<(i64, i64)>)
        ensures
            pairs@ == self.orientations(),
    {
        let mut pairs: Vec<(i64, i64)> = Vec::new();
        pairs.push((self.width, self.height));
        pairs.push((self.width, self.depth));
        pairs.push((self.height, self.width));
        pairs.push((self.height, self.depth));
        pairs.push((self.depth, self.width));
        pairs.push((self.depth, self.height));
        assert(pairs@ =~= self.orientations());
        pairs
    }
}

impl Chair {
    /// The dimensions of the chair.
    pub open spec fn spec_dimensions(&self) -> Dimensions {
        Dimensions { width: self.width, height: self.height, depth: self.depth }
    }

    #[verifier::when_used_as_spec(spec_dimensions)]
    pub fn dimensions(&self) -> (dimensions: Dimensions)
        ensures
            dimensions == self.spec_dimensions(),
    {
        Dimensions { width: self.width, height: self.height, depth: self.depth }
    }
}

impl Estate {
    /// The door of the estate.
    pub open spec fn spec_opening(&self) -> Opening {
        Opening { width: self.door_width, height: self.door_height }
    }

    #[verifier::when_used_as_spec(spec_opening)]
    pub fn opening(&self) -> (opening: Opening)
        ensures
            opening == self.spec_opening(),
    {
        Opening { width: self.door_width, height: self.door_height }
    }
}

impl Opening {
    /// Whether a footprint passes: the door is at least as wide and at least
    /// as high.
    pub open spec fn passes(self, footprint: (i64, i64)) -> bool {
        self.width >= footprint.0 && self.height >= footprint.1
    }

    /// Whether the door admits the chair: one of its six footprints passes.
    pub open spec fn admits(self, dimensions: Dimensions) -> bool {
        exists|k: int|
            0 <= k < dimensions.orientations().len() && self.passes(
                #[trigger] dimensions.orientations()[k],
            )
    }

    /// Tests the door against the six footprints of the chair.
    pub fn fits(&self, dimensions: &Dimensions) -> (admitted: bool)
        ensures
            admitted == self.admits(*dimensions),
    {
        let pairs = dimensions.orientation_pairs();
        let mut k: usize = 0;
        while k < pairs.len()
            invariant
                k <= pairs.len(),
                pairs@ == dimensions.orientations(),
                forall|j: int| 0 <= j < k ==> !self.passes(#[trigger] pairs@[j]),
            decreases pairs.len() - k,
        {
            let (width, height) = pairs[k];
            if self.width >= width && self.height >= height {
                return true;
            }
            k += 1;
        }
        false
    }
}

/// Turning the chair changes nothing: the door admits it whichever of its
/// dimensions is called width, height or depth.
pub proof fn lemma_admits_any_naming(opening: Opening, dimensions: Dimensions)
    ensures
        opening.admits(dimensions) == opening.admits(
            Dimensions {
                width: dimensions.height,
                height: dimensions.width,
                depth: dimensions.depth,
            },
        ),
        opening.admits(dimensions) == opening.admits(
            Dimensions {
                width: dimensions.width,
                height: dimensions.depth,
                depth: dimensions.height,
            },
        ),
{
    let swapped = Dimensions {
        width: dimensions.height,
        height: dimensions.width,
        depth: dimensions.depth,
    };
    let tilted = Dimensions {
        width: dimensions.width,
        height: dimensions.depth,
        depth: dimensions.height,
    };
    lemma_admits_spelled_out(opening, dimensions);
    lemma_admits_spelled_out(opening, swapped);
    lemma_admits_spelled_out(opening, tilted);
}

/// The door admits the chair exactly when one of the six conditions of the
/// recommendation query holds of it.
pub proof fn lemma_admits_spelled_out(opening: Opening, dimensions: Dimensions)
    ensures
        opening.admits(dimensions) <==> {
            ||| (opening.width >= dimensions.width && opening.height >= dimensions.height)
            ||| (opening.width >= dimensions.width && opening.height >= dimensions.depth)
            ||| (opening.width >= dimensions.height && opening.height >= dimensions.width)
            ||| (opening.width >= dimensions.height && opening.height >= dimensions.depth)
            ||| (opening.width >= dimensions.depth && opening.height >= dimensions.width)
            ||| (opening.width >= dimensions.depth && opening.height >= dimensions.height)
        },
{
    let pairs = dimensions.orientations();
    assert(pairs.len() == 6);
    if opening.width >= dimensions.width && opening.height >= dimensions.height {
        assert(opening.passes(pairs[0]));
    }
    if opening.width >= dimensions.width && opening.height >= dimensions.depth {
        assert(opening.passes(pairs[1]));
    }
    if opening.width >= dimensions.height && opening.height >= dimensions.width {
        assert(opening.passes(pairs[2]));
    }
    if opening.width >= dimensions.height && opening.height >= dimensions.depth {
        assert(opening.passes(pairs[3]));
    }
    if opening.width >= dimensions.depth && opening.height >= dimensions.width {
        assert(opening.passes(pairs[4]));
    }
    if opening.width >= dimensions.depth && opening.height >= dimensions.height {
        assert(opening.passes(pairs[5]));
    }
}

/// Only the two smallest dimensions decide: for a chair whose dimensions are
/// named in rising order, the door admits it exactly when the two smallest
/// pass, one way round or the other.
pub proof fn lemma_admits_by_two_smallest(opening: Opening, dimensions: Dimensions)
    requires
        dimensions.width <= dimensions.height <= dimensions.depth,
    ensures
        opening.admits(dimensions) <==> opening.passes((dimensions.width, dimensions.height))
            || opening.passes((dimensions.height, dimensions.width)),
{
    lemma_admits_spelled_out(opening, dimensions);
}

/// One condition of the recommendation query: the door is at least as wide
/// and as high as the footprint bound to the two placeholders.
pub open spec fn footprint_condition() -> Seq<char> {
    "(door_width >= ? and door_height >= ?)"@
}

/// `count` footprint conditions with ` or ` between neighbours.
pub open spec fn any_footprint(count: nat) -> Seq<char>
    decreases count,
{
    if count == 0 {
        Seq::empty()
    } else if count == 1 {
        footprint_condition()
    } else {
        any_footprint((count - 1) as nat) + " or "@ + footprint_condition()
    }
}

/// The values of the footprints' placeholders: width, then height, of each
/// footprint in turn.
pub open spec fn footprint_values(pairs: Seq<(i64, i64)>) -> Seq<BoundValueView>
    decreases pairs.len(),
{
    if pairs.len() == 0 {
        Seq::empty()
    } else {
        footprint_values(pairs.drop_last()) + seq![
            BoundValueView::Int(pairs.last().0),
            BoundValueView::Int(pairs.last().1),
        ]
    }
}

/// The query for the `limit` most popular estates whose door admits a chair
/// of the given dimensions: one condition for each footprint, any of which
/// may hold.
pub open spec fn recommend_query(dimensions: Dimensions, limit: i64) -> QueryView {
    QueryView {
        text: "select * from estate where "@ + any_footprint(dimensions.orientations().len())
            + ranking() + " limit ?"@,
        values: footprint_values(dimensions.orientations()).push(BoundValueView::Int(limit)),
    }
}

/// Builds the query for the estates that admit a chair of the given
/// dimensions.
pub fn recommend(dimensions: &Dimensions, limit: i64) -> (query: Query)
    ensures
        query@ == recommend_query(*dimensions, limit),
{
    let pairs = dimensions.orientation_pairs();
    let mut text = String::from_str("select * from estate where ");
    let mut values: Vec<BoundValue> = Vec::new();
    let mut k: usize = 0;
    assert(values.deep_view() =~= footprint_values(pairs@.subrange(0, 0)));
    assert(text@ =~= "select * from estate where "@ + any_footprint(0));
    while k < pairs.len()
        invariant
            k <= pairs.len(),
            text@ == "select * from estate where "@ + any_footprint(k as nat),
            values.deep_view() == footprint_values(pairs@.subrange(0, k as int)),
        decreases pairs.len() - k,
    {
        let ghost bound = values.deep_view();
        let ghost next = pairs@.subrange(0, k + 1);
        assert(next.drop_last() =~= pairs@.subrange(0, k as int));
        if k > 0 {
            text.append(" or ");
        }
        text.append("(door_width >= ? and door_height >= ?)");
        assert(text@ =~= "select * from estate where "@ + any_footprint((k + 1) as nat));
        let (width, height) = pairs[k];
        values.push(BoundValue::Int(width));
        values.push(BoundValue::Int(height));
        assert(values.deep_view() =~= bound + seq![
            BoundValueView::Int(width),
            BoundValueView::Int(height),
        ]);
        k += 1;
    }
    assert(pairs@.subrange(0, pairs.len() as int) =~= pairs@);
    text.append(" order by popularity desc, id asc");
    text.append(" limit ?");
    let ghost bound = values.deep_view();
    values.push(BoundValue::Int(limit));
    assert(values.deep_view() =~= bound.push(BoundValueView::Int(limit)));
    Query { text, values }
}

/// How far a recommendation has come.
#[derive(Debug, Clone, Copy, PartialEq, Eq, Structural)]
pub enum RecommendPhase {
    /// The read of the chair is out.
    FindingChair,
    /// The read of the estates is out.
    FindingEstates,
    /// The recommendation has ended.
    Closed,
}

/// A recommendation under way.
#[derive(Debug, Clone, Copy, PartialEq, Eq, Structural)]
pub struct Recommendation {
    pub phase: RecommendPhase,
}

/// What the store answered.
#[derive(Debug, PartialEq, Eq)]
pub enum RecommendEvent {
    /// The chair with the requested id, if there is one.
    Chair(Option<Chair>),
    /// The estates that the store found, in the order in which they came.
    Estates(Vec<Estate>),
    /// The read failed or timed out.
    Failed,
}

/// A `RecommendEvent` with its rows as a sequence.
pub enum RecommendEventView {
    Chair(Option<Chair>),
    Estates(Seq<Estate>),
    Failed,
}

impl View for RecommendEvent {
    type V = RecommendEventView;

    open spec fn view(&self) -> RecommendEventView {
        match *self {
            RecommendEvent::Chair(found) => RecommendEventView::Chair(found),
            RecommendEvent::Estates(estates) => RecommendEventView::Estates(estates@),
            RecommendEvent::Failed => RecommendEventView::Failed,
        }
    }
}

/// What the caller does next.
#[derive(Debug, PartialEq, Eq)]
pub enum RecommendStep {
    /// Read the chair and answer with `Chair`.
    FindChair(Query),
    /// Read the estates and answer with `Estates`.
    FindEstates(Query),
    /// The recommendation has ended with this result.
    Done(Result<Vec<Estate>, ErrorKind>),
}

/// A `RecommendStep` with its query and rows as sequences.
pub enum RecommendStepView {
    FindChair(QueryView),
    FindEstates(QueryView),
    Done(Result<Seq<Estate>, ErrorKind>),
}

impl View for RecommendStep {
    type V = RecommendStepView;

    open spec fn view(&self) -> RecommendStepView {
        match *self {
            RecommendStep::FindChair(query) => RecommendStepView::FindChair(query@),
            RecommendStep::FindEstates(query) => RecommendStepView::FindEstates(query@),
            RecommendStep::Done(Ok(estates)) => RecommendStepView::Done(Ok(estates@)),
            RecommendStep::Done(Err(kind)) => RecommendStepView::Done(Err(kind)),
        }
    }
}

/// A recommendation at its start, and its first step: the read of the chair.
pub open spec fn recommend_start(chair_id: i64) -> (Recommendation, RecommendStepView) {
    (
        Recommendation { phase: RecommendPhase::FindingChair },
        RecommendStepView::FindChair(chair_by_id_query(chair_id)),
    )
}

/// The recommendation after the store's answer `event`, and its next step.
///
/// A chair that was found leads to the read of the estates that admit it; a
/// chair that was not ends the recommendation with
/// `ReferenceObjectNotFound`, which is not the same as finding no estate.
/// The estates are handed on unchanged. A failure, or an answer that the
/// recommendation was not waiting for, ends it with `StorageUnavailable`.
pub open spec fn recommend_next(state: Recommendation, event: RecommendEventView) -> (
    Recommendation,
    RecommendStepView,
) {
    let closed = Recommendation { phase: RecommendPhase::Closed };
    match (state.phase, event) {
        (RecommendPhase::FindingChair, RecommendEventView::Chair(Some(chair))) => (
            Recommendation { phase: RecommendPhase::FindingEstates },
            RecommendStepView::FindEstates(recommend_query(chair.dimensions(), LIMIT)),
        ),
        (RecommendPhase::FindingChair, RecommendEventView::Chair(None)) => (
            closed,
            RecommendStepView::Done(Err(ErrorKind::ReferenceObjectNotFound)),
        ),
        (RecommendPhase::FindingEstates, RecommendEventView::Estates(estates)) => (
            closed,
            RecommendStepView::Done(Ok(estates)),
        ),
        _ => (closed, RecommendStepView::Done(Err(ErrorKind::StorageUnavailable))),
    }
}

/// Starts the recommendation of estates for the chair with id `chair_id`.
pub fn search_recommended_estate_with_chair(chair_id: i64) -> (begun: (
    Recommendation,
    RecommendStep,
))
    ensures
        (begun.0, begun.1@) == recommend_start(chair_id),
{
    (
        Recommendation { phase: RecommendPhase::FindingChair },
        RecommendStep::FindChair(find_chair_query(chair_id)),
    )
}

impl Recommendation {
    /// Takes the store's answer and says what to do next.
    pub fn step(self, event: RecommendEvent) -> (next: (Recommendation, RecommendStep))
        ensures
            (next.0, next.1@) == recommend_next(self, event@),
    {
        let closed = Recommendation { phase: RecommendPhase::Closed };
        match (self.phase, event) {
            (RecommendPhase::FindingChair, RecommendEvent::Chair(Some(chair))) => (
                Recommendation { phase: RecommendPhase::FindingEstates },
                RecommendStep::FindEstates(recommend(&chair.dimensions(), LIMIT)),
            ),
            (RecommendPhase::FindingChair, RecommendEvent::Chair(None)) => (
                closed,
                RecommendStep::Done(Err(ErrorKind::ReferenceObjectNotFound)),
            ),
            (RecommendPhase::FindingEstates, RecommendEvent::Estates(estates)) => (
                closed,
                RecommendStep::Done(Ok(estates)),
            ),
            _ => (closed, RecommendStep::Done(Err(ErrorKind::StorageUnavailable))),
        }
    }
}

/// The result of a recommendation that is at `step`, run to its end against
/// a store that answers the read `q` with `store(q)`, within `reads` answers.
pub open spec fn recommend_outcome(
    state: Recommendation,
    step: RecommendStepView,
    store: spec_fn(QueryView) -> RecommendEventView,
    reads: nat,
) -> Result<Seq<Estate>, ErrorKind>
    decreases reads,
{
    match step {
        RecommendStepView::Done(result) => result,
        RecommendStepView::FindChair(query) | RecommendStepView::FindEstates(query) => {
            if reads == 0 {
                Err(ErrorKind::StorageUnavailable)
            } else {
                let (next, then) = recommend_next(state, store(query));
                recommend_outcome(next, then, store, (reads - 1) as nat)
            }
        },
    }
}

/// The result of a whole recommendation against `store`.
pub open spec fn recommend_result(chair_id: i64, store: spec_fn(QueryView) -> RecommendEventView)
    -> Result<Seq<Estate>, ErrorKind> {
    let (state, step) = recommend_start(chair_id);
    recommend_outcome(state, step, store, 2)
}

/// A recommendation is at most two reads. Without the chair it fails with
/// `ReferenceObjectNotFound` and the estates are never read. With the chair
/// it returns what the store finds for the chair's six footprints, be it
/// nothing. In every other case it fails with `StorageUnavailable`.
pub proof fn lemma_recommendation_is_two_reads(
    chair_id: i64,
    store: spec_fn(QueryView) -> RecommendEventView,
)
    ensures
        recommend_result(chair_id, store) == match store(chair_by_id_query(chair_id)) {
            RecommendEventView::Chair(Some(chair)) => match store(
                recommend_query(chair.dimensions(), LIMIT),
            ) {
                RecommendEventView::Estates(estates) => Ok::<Seq<Estate>, ErrorKind>(estates),
                _ => Err::<Seq<Estate>, ErrorKind>(ErrorKind::StorageUnavailable),
            },
            RecommendEventView::Chair(None) => Err::<Seq<Estate>, ErrorKind>(
                ErrorKind::ReferenceObjectNotFound,
            ),
            _ => Err::<Seq<Estate>, ErrorKind>(ErrorKind::StorageUnavailable),
        },
{
    reveal_with_fuel(recommend_outcome, 3);
}

/// The recommendation query binds the six footprints in their order, width
/// before height, and the limit last: thirteen values for twelve footprint
/// placeholders and one limit.
pub proof fn lemma_recommend_query_values(dimensions: Dimensions, limit: i64)
    ensures
        recommend_query(dimensions, limit).values == seq![
            BoundValueView::Int(dimensions.width),
            BoundValueView::Int(dimensions.height),
            BoundValueView::Int(dimensions.width),
            BoundValueView::Int(dimensions.depth),
            BoundValueView::Int(dimensions.height),
            BoundValueView::Int(dimensions.width),
            BoundValueView::Int(dimensions.height),
            BoundValueView::Int(dimensions.depth),
            BoundValueView::Int(dimensions.depth),
            BoundValueView::Int(dimensions.width),
            BoundValueView::Int(dimensions.depth),
            BoundValueView::Int(dimensions.height),
            BoundValueView::Int(limit),
        ],
{
    let pairs = dimensions.orientations();
    let none = pairs.drop_last().drop_last().drop_last().drop_last().drop_last().drop_last();
    assert(none.len() == 0);
    reveal_with_fuel(footprint_values, 7);
    assert(footprint_values(none) =~= Seq::<BoundValueView>::empty());
    assert(recommend_query(dimensions, limit).values =~= seq![
        BoundValueView::Int(dimensions.width),
        BoundValueView::Int(dimensions.height),
        BoundValueView::Int(dimensions.width),
        BoundValueView::Int(dimensions.depth),
        BoundValueView::Int(dimensions.height),
        BoundValueView::Int(dimensions.width),
        BoundValueView::Int(dimensions.height),
        BoundValueView::Int(dimensions.depth),
        BoundValueView::Int(dimensions.depth),
        BoundValueView::Int(dimensions.width),
        BoundValueView::Int(dimensions.depth),
        BoundValueView::Int(dimensions.height),
        BoundValueView::Int(limit),
    ]);
}

} // verus!
