//! Search conditions as values: what each one demands of a row, and how it
//! is written for the store.

use vstd::prelude::*;
use vstd::string::StringExecFns;
use crate::entity::Row;
use crate::field::Field;
use crate::range::{RangeBucket, UNBOUNDED};

verus! {

/// The side of a bucket that a range condition guards.
#[derive(Debug, Clone, Copy, PartialEq, Eq, Structural)]
pub enum RangeOp {
    /// The column is at or above the bound.
    AtLeast,
    /// The column is strictly below the bound.
    Below,
}

/// One condition of a search.
#[derive(Debug, Clone, PartialEq, Eq)]
pub enum Predicate {
    Range { field: Field, op: RangeOp, bound: i64 },
    Equals { field: Field, value: String },
    Contains { field: Field, token: String },
    Available,
}

/// A value bound to a placeholder of a query, in placeholder order.
#[derive(Debug, Clone, PartialEq, Eq)]
pub enum BoundValue {
    Int(i64),
    Text(String),
    /// An order key of a latitude or longitude.
    Coordinate(i64),
}

/// A `Predicate` with its texts as character sequences.
pub enum PredicateView {
    Range { field: Field, op: RangeOp, bound: i64 },
    Equals { field: Field, value: Seq<char> },
    Contains { field: Field, token: Seq<char> },
    Available,
}

/// A `BoundValue` with its text as a character sequence.
pub enum BoundValueView {
    Int(i64),
    Text(Seq<char>),
    Coordinate(i64),
}

impl View for Predicate {
    type V = PredicateView;

    open spec fn view(&self) -> PredicateView {
        match *self {
            Predicate::Range { field, op, bound } => PredicateView::Range { field, op, bound },
            Predicate::Equals { field, value } => PredicateView::Equals { field, value: value@ },
            Predicate::Contains { field, token } => PredicateView::Contains { field, token: token@ },
            Predicate::Available => PredicateView::Available,
        }
    }
}

impl DeepView for Predicate {
    type V = PredicateView;

    open spec fn deep_view(&self) -> PredicateView {
        self@
    }
}

impl View for BoundValue {
    type V = BoundValueView;

    open spec fn view(&self) -> BoundValueView {
        match *self {
            BoundValue::Int(n) => BoundValueView::Int(n),
            BoundValue::Text(text) => BoundValueView::Text(text@),
            BoundValue::Coordinate(key) => BoundValueView::Coordinate(key),
        }
    }
}

impl DeepView for BoundValue {
    type V = BoundValueView;

    open spec fn deep_view(&self) -> BoundValueView {
        self@
    }
}

/// Whether `needle` occurs in `hay` as a run of neighbouring characters.
pub open spec fn occurs_in(needle: Seq<char>, hay: Seq<char>) -> bool {
    exists|at: int|
        0 <= at && at + needle.len() <= hay.len() && #[trigger] hay.subrange(
            at,
            at + needle.len(),
        ) == needle
}

impl PredicateView {
    /// Whether `row` meets the condition.
    pub open spec fn holds(self, row: Row) -> bool {
        match self {
            PredicateView::Range { field, op: RangeOp::AtLeast, bound } => (row.number)(field)
                >= bound,
            PredicateView::Range { field, op: RangeOp::Below, bound } => (row.number)(field)
                < bound,
            PredicateView::Equals { field, value } => (row.text)(field) == value,
            PredicateView::Contains { field, token } => occurs_in(token, (row.text)(field)),
            PredicateView::Available => row.stock > 0,
        }
    }

    /// The condition as the store reads it, with `?` where its value goes.
    pub open spec fn condition(self) -> Seq<char> {
        match self {
            PredicateView::Range { field, op: RangeOp::AtLeast, .. } => field.column_name()
                + " >= ?"@,
            PredicateView::Range { field, op: RangeOp::Below, .. } => field.column_name()
                + " < ?"@,
            PredicateView::Equals { field, .. } => field.column_name() + " = ?"@,
            PredicateView::Contains { field, .. } => field.column_name()
                + " like concat('%', ?, '%')"@,
            PredicateView::Available => "stock > 0"@,
        }
    }

    /// The values that fill the placeholders of `condition`, in order.
    pub open spec fn bound_values(self) -> Seq<BoundValueView> {
        match self {
            PredicateView::Range { bound, .. } => seq![BoundValueView::Int(bound)],
            PredicateView::Equals { value, .. } => seq![BoundValueView::Text(value)],
            PredicateView::Contains { token, .. } => seq![BoundValueView::Text(token)],
            PredicateView::Available => Seq::empty(),
        }
    }
}

/// Whether `row` meets every condition of `conditions`.
pub open spec fn all_hold(conditions: Seq<PredicateView>, row: Row) -> bool {
    forall|k: int| 0 <= k < conditions.len() ==> (#[trigger] conditions[k]).holds(row)
}

/// The conditions that keep a column inside `bucket`: one for each side that
/// has a bound, the lower side first.
pub open spec fn bucket_conditions(field: Field, bucket: RangeBucket) -> Seq<PredicateView> {
    let lower = if bucket.min != UNBOUNDED {
        seq![PredicateView::Range { field, op: RangeOp::AtLeast, bound: bucket.min }]
    } else {
        Seq::empty()
    };
    let upper = if bucket.max != UNBOUNDED {
        seq![PredicateView::Range { field, op: RangeOp::Below, bound: bucket.max }]
    } else {
        Seq::empty()
    };
    lower + upper
}

/// A row meets the conditions of a bucket exactly when the bucket admits the
/// row's number: the lower bound belongs to the bucket, the upper bound does
/// not.
pub proof fn lemma_bucket_conditions_mean_admits(field: Field, bucket: RangeBucket, row: Row)
    ensures
        all_hold(bucket_conditions(field, bucket), row) <==> bucket.admits((row.number)(field)),
{
    let conditions = bucket_conditions(field, bucket);
    if bucket.min != UNBOUNDED {
        assert(conditions[0] == PredicateView::Range {
            field,
            op: RangeOp::AtLeast,
            bound: bucket.min,
        });
    }
    if bucket.max != UNBOUNDED {
        let last = conditions.len() - 1;
        assert(conditions[last] == PredicateView::Range {
            field,
            op: RangeOp::Below,
            bound: bucket.max,
        });
    }
}

impl Predicate {
    /// Writes the condition for the store.
    pub fn condition(&self) -> (text: String)
        ensures
            text@ == self@.condition(),
    {
        match self {
            Predicate::Range { field, op: RangeOp::AtLeast, .. } => String::from_str(
                field.column(),
            ).concat(" >= ?"),
            Predicate::Range { field, op: RangeOp::Below, .. } => String::from_str(
                field.column(),
            ).concat(" < ?"),
            Predicate::Equals { field, .. } => String::from_str(field.column()).concat(" = ?"),
            Predicate::Contains { field, .. } => String::from_str(field.column()).concat(
                " like concat('%', ?, '%')",
            ),
            Predicate::Available => String::from_str("stock > 0"),
        }
    }

    /// Appends the values of the condition's placeholders to `values`.
    pub fn push_bound_values(&self, values: &mut Vec<BoundValue>)
        ensures
            final(values).deep_view() == old(values).deep_view() + self@.bound_values(),
    {
        let ghost before = values.deep_view();
        match self {
            Predicate::Range { bound, .. } => {
                values.push(BoundValue::Int(*bound));
            },
            Predicate::Equals { value, .. } => {
                values.push(BoundValue::Text(value.clone()));
            },
            Predicate::Contains { token, .. } => {
                values.push(BoundValue::Text(token.clone()));
            },
            Predicate::Available => {},
        }
        assert(values.deep_view() =~= before + self@.bound_values());
    }
}

/// Appends to `out` the conditions that keep `field` inside `bucket`.
pub fn push_bucket_conditions(out: &mut Vec<Predicate>, field: Field, bucket: RangeBucket)
    ensures
        final(out).deep_view() == old(out).deep_view() + bucket_conditions(field, bucket),
{
    let ghost before = out.deep_view();
    if bucket.min != UNBOUNDED {
        out.push(Predicate::Range { field, op: RangeOp::AtLeast, bound: bucket.min });
    }
    if bucket.max != UNBOUNDED {
        out.push(Predicate::Range { field, op: RangeOp::Below, bound: bucket.max });
    }
    assert(out.deep_view() =~= before + bucket_conditions(field, bucket));
}

} // verus!
