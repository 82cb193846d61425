//! Queries for the store: text with `?` placeholders and the values that
//! fill them, built from a set of search conditions.

use vstd::prelude::*;
use vstd::string::StringExecFns;
use crate::field::EntityKind;
use crate::predicate::{BoundValue, BoundValueView, Predicate, PredicateView};

verus! {

/// A statement for the store.
#[derive(Debug, Clone, PartialEq, Eq)]
pub struct Query {
    pub text: String,
    pub values: Vec<BoundValue>,
}

/// A `Query` as character and value sequences.
pub struct QueryView {
    pub text: Seq<char>,
    pub values: Seq<BoundValueView>,
}

impl View for Query {
    type V = QueryView;

    open spec fn view(&self) -> QueryView {
        QueryView { text: self.text@, values: self.values.deep_view() }
    }
}

impl DeepView for Query {
    type V = QueryView;

    open spec fn deep_view(&self) -> QueryView {
        self@
    }
}

/// The conditions of a search over one catalog. `criteria` holds what the
/// request selected, in the order in which the request's fields are read.
#[derive(Debug, Clone, PartialEq, Eq)]
pub struct SearchPredicateSet {
    pub entity: EntityKind,
    pub criteria: Vec<Predicate>,
}

/// The conditions of a search, in the order in which they are written and
/// bound: the selected ones, then availability for a catalog that tracks
/// stock.
pub open spec fn conditions_of(entity: EntityKind, criteria: Seq<PredicateView>) -> Seq<
    PredicateView,
> {
    if entity.tracks_stock() {
        criteria.push(PredicateView::Available)
    } else {
        criteria
    }
}

/// The conditions written one after another with ` and ` between neighbours.
pub open spec fn conjunction(conditions: Seq<PredicateView>) -> Seq<char>
    decreases conditions.len(),
{
    if conditions.len() == 0 {
        Seq::empty()
    } else if conditions.len() == 1 {
        conditions[0].condition()
    } else {
        conjunction(conditions.drop_last()) + " and "@ + conditions.last().condition()
    }
}

/// The values of all placeholders of the conditions, in the order in which
/// `conjunction` writes the placeholders.
pub open spec fn bindings(conditions: Seq<PredicateView>) -> Seq<BoundValueView>
    decreases conditions.len(),
{
    if conditions.len() == 0 {
        Seq::empty()
    } else {
        bindings(conditions.drop_last()) + conditions.last().bound_values()
    }
}

/// The order in which every listing comes back: most popular first, the
/// smaller id first among equals.
pub open spec fn ranking() -> Seq<char> {
    " order by popularity desc, id asc"@
}

/// The query that counts the rows meeting `conditions`.
pub open spec fn count_query(entity: EntityKind, conditions: Seq<PredicateView>) -> QueryView {
    QueryView {
        text: "select count(*) from "@ + entity.table_name() + " where "@ + conjunction(
            conditions,
        ),
        values: bindings(conditions),
    }
}

/// The query that reads `limit` rows meeting `conditions`, after skipping
/// `offset` of them, in ranking order.
pub open spec fn page_query(
    entity: EntityKind,
    conditions: Seq<PredicateView>,
    limit: i64,
    offset: i64,
) -> QueryView {
    QueryView {
        text: "select * from "@ + entity.table_name() + " where "@ + conjunction(conditions)
            + ranking() + " limit ? offset ?"@,
        values: bindings(conditions) + seq![
            BoundValueView::Int(limit),
            BoundValueView::Int(offset),
        ],
    }
}

impl SearchPredicateSet {
    /// All conditions of the search, availability included where it applies.
    pub open spec fn conditions(&self) -> Seq<PredicateView> {
        conditions_of(self.entity, self.criteria.deep_view())
    }

    /// Writes the conditions joined by ` and `.
    pub fn where_text(&self) -> (text: String)
        ensures
            text@ == conjunction(self.conditions()),
    {
        let mut text = String::new();
        let n = self.criteria.len();
        let mut i: usize = 0;
        while i < n
            invariant
                n == self.criteria.len(),
                i <= n,
                text@ == conjunction(self.criteria.deep_view().subrange(0, i as int)),
            decreases n - i,
        {
            let ghost seen = self.criteria.deep_view().subrange(0, i as int);
            let ghost next = self.criteria.deep_view().subrange(0, i + 1);
            assert(next.drop_last() =~= seen);
            assert(next.last() == self.criteria[i as int]@);
            if i > 0 {
                text.append(" and ");
            }
            let piece = self.criteria[i].condition();
            text.append(piece.as_str());
            assert(text@ =~= conjunction(next));
            i += 1;
        }
        let ghost selected = self.criteria.deep_view();
        assert(selected.subrange(0, n as int) =~= selected);
        if let EntityKind::Chair = self.entity {
            let ghost all = selected.push(PredicateView::Available);
            assert(all.drop_last() =~= selected);
            if n > 0 {
                text.append(" and ");
            }
            let piece = Predicate::Available.condition();
            text.append(piece.as_str());
            assert(text@ =~= conjunction(all));
        }
        text
    }

    /// Collects the values of the conditions' placeholders.
    pub fn bound_values(&self) -> (values: Vec<BoundValue>)
        ensures
            values.deep_view() == bindings(self.conditions()),
    {
        let mut values: Vec<BoundValue> = Vec::new();
        let n = self.criteria.len();
        let mut i: usize = 0;
        assert(values.deep_view() =~= bindings(self.criteria.deep_view().subrange(0, 0)));
        while i < n
            invariant
                n == self.criteria.len(),
                i <= n,
                values.deep_view() == bindings(self.criteria.deep_view().subrange(0, i as int)),
            decreases n - i,
        {
            let ghost seen = self.criteria.deep_view().subrange(0, i as int);
            let ghost next = self.criteria.deep_view().subrange(0, i + 1);
            assert(next.drop_last() =~= seen);
            assert(next.last() == self.criteria[i as int]@);
            self.criteria[i].push_bound_values(&mut values);
            i += 1;
        }
        let ghost selected = self.criteria.deep_view();
        assert(selected.subrange(0, n as int) =~= selected);
        if let EntityKind::Chair = self.entity {
            let ghost all = selected.push(PredicateView::Available);
            assert(all.drop_last() =~= selected);
            assert(bindings(all) =~= bindings(selected));
        }
        values
    }

    /// Builds the query that counts the rows meeting the conditions.
    pub fn count_query(&self) -> (query: Query)
        ensures
            query@ == count_query(self.entity, self.conditions()),
    {
        let mut text = String::from_str("select count(*) from ");
        text.append(self.entity.table());
        text.append(" where ");
        let conditions = self.where_text();
        text.append(conditions.as_str());
        Query { text, values: self.bound_values() }
    }

    /// Builds the query that reads one page of the rows meeting the
    /// conditions, with the same condition text and the same leading values
    /// as the counting query.
    pub fn page_query(&self, limit: i64, offset: i64) -> (query: Query)
        ensures
            query@ == page_query(self.entity, self.conditions(), limit, offset),
    {
        let mut text = String::from_str("select * from ");
        text.append(self.entity.table());
        text.append(" where ");
        let conditions = self.where_text();
        text.append(conditions.as_str());
        text.append(" order by popularity desc, id asc");
        text.append(" limit ? offset ?");
        let mut values = self.bound_values();
        let ghost bound = values.deep_view();
        values.push(BoundValue::Int(limit));
        values.push(BoundValue::Int(offset));
        assert(values.deep_view() =~= bound + seq![
            BoundValueView::Int(limit),
            BoundValueView::Int(offset),
        ]);
        Query { text, values }
    }
}

} // verus!
