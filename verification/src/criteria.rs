//! From the filter selections of a request to the conditions of a search.
//!
//! A selection left empty contributes nothing. A bucket index that the
//! catalog does not hold fails the request, and so does a request that in the
//! end selects nothing.

use vstd::prelude::*;
use crate::error::ErrorKind;
use crate::field::{EntityKind, Field};
use crate::entity::Row;
use crate::predicate::{
    all_hold, bucket_conditions, lemma_bucket_conditions_mean_admits, push_bucket_conditions,
    Predicate, PredicateView,
};
use crate::query::SearchPredicateSet;
use crate::range::RangeBucketCatalog;
use crate::text::{comma_tokens, split_commas};

verus! {

/// The filter selections of a chair search, each as the request wrote it.
#[derive(Debug, Clone, PartialEq, Eq)]
pub struct ChairSearchParams {
    pub price_range_id: String,
    pub height_range_id: String,
    pub width_range_id: String,
    pub depth_range_id: String,
    pub kind: String,
    pub color: String,
    pub features: String,
}

/// The filter selections of an estate search, each as the request wrote it.
#[derive(Debug, Clone, PartialEq, Eq)]
pub struct EstateSearchParams {
    pub door_height_range_id: String,
    pub door_width_range_id: String,
    pub rent_range_id: String,
    pub features: String,
}

/// What a bucket selection contributes: nothing where it is empty, the
/// conditions of the selected bucket where the catalog holds it, and `None`
/// where it does not.
pub open spec fn range_criteria(catalog: &RangeBucketCatalog, field: Field, raw: Seq<char>)
    -> Option<Seq<PredicateView>> {
    if raw.len() == 0 {
        Some(Seq::empty())
    } else {
        match catalog.selected(field, raw) {
            Some(bucket) => Some(bucket_conditions(field, bucket)),
            None => None,
        }
    }
}

/// What an exact-match selection contributes: one condition unless empty.
pub open spec fn exact_criteria(field: Field, raw: Seq<char>) -> Seq<PredicateView> {
    if raw.len() == 0 {
        Seq::empty()
    } else {
        seq![PredicateView::Equals { field, value: raw }]
    }
}

/// What a feature selection contributes: one condition for each of its
/// comma-separated tokens, taken as written, unless it is empty.
pub open spec fn feature_criteria(field: Field, raw: Seq<char>) -> Seq<PredicateView> {
    if raw.len() == 0 {
        Seq::empty()
    } else {
        Seq::new(
            comma_tokens(raw).len(),
            |k: int| PredicateView::Contains { field, token: comma_tokens(raw)[k] },
        )
    }
}

/// The conditions that a chair search builds from `params`: the selections
/// are read in the order price, height, width, depth, kind, color, features.
/// A bucket selection that the catalog does not hold fails the request with
/// `InvalidFilterSelection`, whatever else is selected; a request that selects
/// nothing fails with `NoSearchCriteria`.
pub open spec fn spec_chair_criteria(catalog: &RangeBucketCatalog, params: &ChairSearchParams)
    -> Result<Seq<PredicateView>, ErrorKind> {
    let price = range_criteria(catalog, Field::Price, params.price_range_id@);
    let height = range_criteria(catalog, Field::Height, params.height_range_id@);
    let width = range_criteria(catalog, Field::Width, params.width_range_id@);
    let depth = range_criteria(catalog, Field::Depth, params.depth_range_id@);
    if price is None || height is None || width is None || depth is None {
        Err(ErrorKind::InvalidFilterSelection)
    } else {
        let all = price.unwrap() + height.unwrap() + width.unwrap() + depth.unwrap()
            + exact_criteria(Field::Kind, params.kind@) + exact_criteria(
            Field::Color,
            params.color@,
        ) + feature_criteria(Field::Features, params.features@);
        if all.len() == 0 {
            Err(ErrorKind::NoSearchCriteria)
        } else {
            Ok(all)
        }
    }
}

/// The conditions that an estate search builds from `params`: the selections
/// are read in the order door height, door width, rent, features, and fail as
/// those of a chair search do.
pub open spec fn spec_estate_criteria(catalog: &RangeBucketCatalog, params: &EstateSearchParams)
    -> Result<Seq<PredicateView>, ErrorKind> {
    let door_height = range_criteria(catalog, Field::DoorHeight, params.door_height_range_id@);
    let door_width = range_criteria(catalog, Field::DoorWidth, params.door_width_range_id@);
    let rent = range_criteria(catalog, Field::Rent, params.rent_range_id@);
    if door_height is None || door_width is None || rent is None {
        Err(ErrorKind::InvalidFilterSelection)
    } else {
        let all = door_height.unwrap() + door_width.unwrap() + rent.unwrap() + feature_criteria(
            Field::Features,
            params.features@,
        );
        if all.len() == 0 {
            Err(ErrorKind::NoSearchCriteria)
        } else {
            Ok(all)
        }
    }
}

/// Whether `built` is the set of conditions, or the failure, that `expected`
/// describes for a search over `entity`.
pub open spec fn builds(
    built: Result<SearchPredicateSet, ErrorKind>,
    entity: EntityKind,
    expected: Result<Seq<PredicateView>, ErrorKind>,
) -> bool {
    match built {
        Ok(set) => set.entity == entity && expected == Ok::<Seq<PredicateView>, ErrorKind>(
            set.criteria.deep_view(),
        ),
        Err(kind) => expected == Err::<Seq<PredicateView>, ErrorKind>(kind),
    }
}

/// Appends what the bucket selection `raw` contributes for `field`. Returns
/// `false`, with `out` as it was, where the catalog does not hold the bucket.
fn push_range_criteria(
    out: &mut Vec<Predicate>,
    catalog: &RangeBucketCatalog,
    field: Field,
    raw: &str,
) -> (held: bool)
    ensures
        held == range_criteria(catalog, field, raw@) is Some,
        held ==> final(out).deep_view() == old(out).deep_view() + range_criteria(
            catalog,
            field,
            raw@,
        ).unwrap(),
        !held ==> final(out).deep_view() == old(out).deep_view(),
{
    if raw.is_empty() {
        assert(out.deep_view() =~= out.deep_view() + Seq::<PredicateView>::empty());
        return true;
    }
    match catalog.get_range(field, raw) {
        Some(bucket) => {
            push_bucket_conditions(out, field, bucket);
            true
        },
        None => false,
    }
}

/// Appends what the exact-match selection `raw` contributes for `field`.
fn push_exact_criteria(out: &mut Vec<Predicate>, field: Field, raw: &String)
    ensures
        final(out).deep_view() == old(out).deep_view() + exact_criteria(field, raw@),
{
    let ghost before = out.deep_view();
    if !raw.as_str().is_empty() {
        out.push(Predicate::Equals { field, value: raw.clone() });
    }
    assert(out.deep_view() =~= before + exact_criteria(field, raw@));
}

/// Appends what the feature selection `raw` contributes for `field`.
fn push_feature_criteria(out: &mut Vec<Predicate>, field: Field, raw: &str)
    ensures
        final(out).deep_view() == old(out).deep_view() + feature_criteria(field, raw@),
{
    let ghost before = out.deep_view();
    if raw.is_empty() {
        assert(out.deep_view() =~= before + feature_criteria(field, raw@));
        return ;
    }
    let tokens = split_commas(raw);
    let ghost wanted = feature_criteria(field, raw@);
    let n = tokens.len();
    let mut i: usize = 0;
    assert(out.deep_view() =~= before + wanted.subrange(0, 0));
    while i < n
        invariant
            i <= n,
            n == tokens.len(),
            tokens.deep_view() == comma_tokens(raw@),
            wanted == feature_criteria(field, raw@),
            wanted.len() == n,
            out.deep_view() == before + wanted.subrange(0, i as int),
        decreases n - i,
    {
        let ghost sofar = out.deep_view();
        assert(tokens[i as int]@ == tokens.deep_view()[i as int]);
        out.push(Predicate::Contains { field, token: tokens[i].clone() });
        assert(out.deep_view() =~= sofar.push(wanted[i as int]));
        assert(wanted.subrange(0, i + 1) =~= wanted.subrange(0, i as int).push(wanted[i as int]));
        i += 1;
    }
    assert(wanted.subrange(0, n as int) =~= wanted);
}

/// Builds the conditions of a chair search from the request's selections.
pub fn chair_criteria(catalog: &RangeBucketCatalog, params: &ChairSearchParams) -> (built: Result<
    SearchPredicateSet,
    ErrorKind,
>)
    ensures
        builds(built, EntityKind::Chair, spec_chair_criteria(catalog, params)),
{
    let mut out: Vec<Predicate> = Vec::new();
    assert(out.deep_view() =~= Seq::<PredicateView>::empty());
    if !push_range_criteria(&mut out, catalog, Field::Price, params.price_range_id.as_str()) {
        return Err(ErrorKind::InvalidFilterSelection);
    }
    if !push_range_criteria(&mut out, catalog, Field::Height, params.height_range_id.as_str()) {
        return Err(ErrorKind::InvalidFilterSelection);
    }
    if !push_range_criteria(&mut out, catalog, Field::Width, params.width_range_id.as_str()) {
        return Err(ErrorKind::InvalidFilterSelection);
    }
    if !push_range_criteria(&mut out, catalog, Field::Depth, params.depth_range_id.as_str()) {
        return Err(ErrorKind::InvalidFilterSelection);
    }
    push_exact_criteria(&mut out, Field::Kind, &params.kind);
    push_exact_criteria(&mut out, Field::Color, &params.color);
    push_feature_criteria(&mut out, Field::Features, params.features.as_str());
    assert(out.deep_view() =~= range_criteria(
        catalog,
        Field::Price,
        params.price_range_id@,
    ).unwrap() + range_criteria(catalog, Field::Height, params.height_range_id@).unwrap()
        + range_criteria(catalog, Field::Width, params.width_range_id@).unwrap() + range_criteria(
        catalog,
        Field::Depth,
        params.depth_range_id@,
    ).unwrap() + exact_criteria(Field::Kind, params.kind@) + exact_criteria(
        Field::Color,
        params.color@,
    ) + feature_criteria(Field::Features, params.features@));
    if out.len() == 0 {
        return Err(ErrorKind::NoSearchCriteria);
    }
    Ok(SearchPredicateSet { entity: EntityKind::Chair, criteria: out })
}

/// Builds the conditions of an estate search from the request's selections.
pub fn estate_criteria(catalog: &RangeBucketCatalog, params: &EstateSearchParams) -> (built:
    Result<SearchPredicateSet, ErrorKind>)
    ensures
        builds(built, EntityKind::Estate, spec_estate_criteria(catalog, params)),
{
    let mut out: Vec<Predicate> = Vec::new();
    assert(out.deep_view() =~= Seq::<PredicateView>::empty());
    if !push_range_criteria(
        &mut out,
        catalog,
        Field::DoorHeight,
        params.door_height_range_id.as_str(),
    ) {
        return Err(ErrorKind::InvalidFilterSelection);
    }
    if !push_range_criteria(
        &mut out,
        catalog,
        Field::DoorWidth,
        params.door_width_range_id.as_str(),
    ) {
        return Err(ErrorKind::InvalidFilterSelection);
    }
    if !push_range_criteria(&mut out, catalog, Field::Rent, params.rent_range_id.as_str()) {
        return Err(ErrorKind::InvalidFilterSelection);
    }
    push_feature_criteria(&mut out, Field::Features, params.features.as_str());
    assert(out.deep_view() =~= range_criteria(
        catalog,
        Field::DoorHeight,
        params.door_height_range_id@,
    ).unwrap() + range_criteria(catalog, Field::DoorWidth, params.door_width_range_id@).unwrap()
        + range_criteria(catalog, Field::Rent, params.rent_range_id@).unwrap() + feature_criteria(
        Field::Features,
        params.features@,
    ));
    if out.len() == 0 {
        return Err(ErrorKind::NoSearchCriteria);
    }
    Ok(SearchPredicateSet { entity: EntityKind::Estate, criteria: out })
}

/// The bucket selection that a chair request makes for `field`.
pub open spec fn chair_selection(params: &ChairSearchParams, field: Field) -> Seq<char> {
    match field {
        Field::Price => params.price_range_id@,
        Field::Height => params.height_range_id@,
        Field::Width => params.width_range_id@,
        Field::Depth => params.depth_range_id@,
        _ => Seq::empty(),
    }
}

/// The bucket selection that an estate request makes for `field`.
pub open spec fn estate_selection(params: &EstateSearchParams, field: Field) -> Seq<char> {
    match field {
        Field::DoorHeight => params.door_height_range_id@,
        Field::DoorWidth => params.door_width_range_id@,
        Field::Rent => params.rent_range_id@,
        _ => Seq::empty(),
    }
}

/// A row meets all of two lists of conditions exactly when it meets all of
/// each.
pub proof fn lemma_all_hold_of_both(first: Seq<PredicateView>, second: Seq<PredicateView>, row: Row)
    ensures
        all_hold(first + second, row) <==> all_hold(first, row) && all_hold(second, row),
{
    let both = first + second;
    if all_hold(both, row) {
        assert forall|k: int| 0 <= k < first.len() implies (#[trigger] first[k]).holds(row) by {
            assert(both[k] == first[k]);
        }
        assert forall|k: int| 0 <= k < second.len() implies (#[trigger] second[k]).holds(row) by {
            assert(both[first.len() + k] == second[k]);
        }
    }
    if all_hold(first, row) && all_hold(second, row) {
        assert forall|k: int| 0 <= k < both.len() implies (#[trigger] both[k]).holds(row) by {
            if k < first.len() {
                assert(both[k] == first[k]);
            } else {
                assert(both[k] == second[k - first.len()]);
            }
        }
    }
}

/// A chair search keeps to the buckets it selected: whatever else the
/// request selects, every row that meets the conditions built from it has, in
/// each field with a bucket selection, a number that the selected bucket
/// admits. With the bucket from 5000 to 10000 selected for the price, every
/// such row has a price from 5000 up to but not including 10000.
pub proof fn lemma_chair_search_keeps_to_buckets(
    catalog: &RangeBucketCatalog,
    params: &ChairSearchParams,
    field: Field,
    row: Row,
)
    requires
        chair_selection(params, field).len() > 0,
        spec_chair_criteria(catalog, params) is Ok,
        all_hold(spec_chair_criteria(catalog, params).unwrap(), row),
    ensures
        catalog.selected(field, chair_selection(params, field)) is Some,
        catalog.selected(field, chair_selection(params, field)).unwrap().admits(
            (row.number)(field),
        ),
{
    let price = range_criteria(catalog, Field::Price, params.price_range_id@).unwrap();
    let height = range_criteria(catalog, Field::Height, params.height_range_id@).unwrap();
    let width = range_criteria(catalog, Field::Width, params.width_range_id@).unwrap();
    let depth = range_criteria(catalog, Field::Depth, params.depth_range_id@).unwrap();
    let kind = exact_criteria(Field::Kind, params.kind@);
    let color = exact_criteria(Field::Color, params.color@);
    let features = feature_criteria(Field::Features, params.features@);
    lemma_all_hold_of_both(price + height + width + depth + kind + color, features, row);
    lemma_all_hold_of_both(price + height + width + depth + kind, color, row);
    lemma_all_hold_of_both(price + height + width + depth, kind, row);
    lemma_all_hold_of_both(price + height + width, depth, row);
    lemma_all_hold_of_both(price + height, width, row);
    lemma_all_hold_of_both(price, height, row);
    let bucket = catalog.selected(field, chair_selection(params, field)).unwrap();
    lemma_bucket_conditions_mean_admits(field, bucket, row);
}

/// An estate search keeps to the buckets it selected, as a chair search does.
pub proof fn lemma_estate_search_keeps_to_buckets(
    catalog: &RangeBucketCatalog,
    params: &EstateSearchParams,
    field: Field,
    row: Row,
)
    requires
        estate_selection(params, field).len() > 0,
        spec_estate_criteria(catalog, params) is Ok,
        all_hold(spec_estate_criteria(catalog, params).unwrap(), row),
    ensures
        catalog.selected(field, estate_selection(params, field)) is Some,
        catalog.selected(field, estate_selection(params, field)).unwrap().admits(
            (row.number)(field),
        ),
{
    let door_height = range_criteria(
        catalog,
        Field::DoorHeight,
        params.door_height_range_id@,
    ).unwrap();
    let door_width = range_criteria(
        catalog,
        Field::DoorWidth,
        params.door_width_range_id@,
    ).unwrap();
    let rent = range_criteria(catalog, Field::Rent, params.rent_range_id@).unwrap();
    let features = feature_criteria(Field::Features, params.features@);
    lemma_all_hold_of_both(door_height + door_width + rent, features, row);
    lemma_all_hold_of_both(door_height + door_width, rent, row);
    lemma_all_hold_of_both(door_height, door_width, row);
    let bucket = catalog.selected(field, estate_selection(params, field)).unwrap();
    lemma_bucket_conditions_mean_admits(field, bucket, row);
}

/// A chair request that selects nothing is refused: with every selection
/// empty the outcome is `NoSearchCriteria`, whatever the catalog holds.
pub proof fn lemma_empty_chair_request_refused(
    catalog: &RangeBucketCatalog,
    params: &ChairSearchParams,
)
    requires
        params.price_range_id@.len() == 0,
        params.height_range_id@.len() == 0,
        params.width_range_id@.len() == 0,
        params.depth_range_id@.len() == 0,
        params.kind@.len() == 0,
        params.color@.len() == 0,
        params.features@.len() == 0,
    ensures
        spec_chair_criteria(catalog, params) == Err::<Seq<PredicateView>, ErrorKind>(
            ErrorKind::NoSearchCriteria,
        ),
{
}

/// An estate request that selects nothing is refused: with every selection
/// empty the outcome is `NoSearchCriteria`, whatever the catalog holds.
pub proof fn lemma_empty_estate_request_refused(
    catalog: &RangeBucketCatalog,
    params: &EstateSearchParams,
)
    requires
        params.door_height_range_id@.len() == 0,
        params.door_width_range_id@.len() == 0,
        params.rent_range_id@.len() == 0,
        params.features@.len() == 0,
    ensures
        spec_estate_criteria(catalog, params) == Err::<Seq<PredicateView>, ErrorKind>(
            ErrorKind::NoSearchCriteria,
        ),
{
}

} // verus!
