//! Range buckets: the named intervals that a search request selects by index.

use vstd::prelude::*;
use crate::decimal::{decimal_i64, parse_i64};
use crate::field::Field;

verus! {

/// The bound value that stands for "no bound on this side".
pub const UNBOUNDED: i64 = -1;

/// One interval of a field, closed below and open above.
#[derive(Debug, Clone, Copy, PartialEq, Eq, Structural)]
pub struct RangeBucket {
    pub id: i64,
    pub min: i64,
    pub max: i64,
}

/// The ordered buckets of one field, with the text shown around their bounds.
#[derive(Debug, Clone, PartialEq, Eq)]
pub struct RangeField {
    pub prefix: String,
    pub suffix: String,
    pub ranges: Vec<RangeBucket>,
}

/// The buckets of every ranged field. Filled once and only read afterwards.
#[derive(Debug, Clone, PartialEq, Eq)]
pub struct RangeBucketCatalog {
    pub price: RangeField,
    pub height: RangeField,
    pub width: RangeField,
    pub depth: RangeField,
    pub door_height: RangeField,
    pub door_width: RangeField,
    pub rent: RangeField,
}

impl RangeBucket {
    /// Whether `value` lies in the bucket: at or above `min` and strictly
    /// below `max`, a bound of `UNBOUNDED` letting every value pass.
    pub open spec fn admits(self, value: int) -> bool {
        &&& (self.min != UNBOUNDED ==> self.min <= value)
        &&& (self.max != UNBOUNDED ==> value < self.max)
    }

    /// Tests `value` against the bucket.
    pub fn contains(&self, value: i64) -> (inside: bool)
        ensures
            inside == self.admits(value as int),
    {
        (self.min == UNBOUNDED || self.min <= value) && (self.max == UNBOUNDED || value < self.max)
    }
}

/// A bucket is closed below and open above: with both bounds set, and the
/// lower under the upper, it admits its lower bound and the number just under
/// its upper bound, and does not admit the upper bound.
pub proof fn lemma_bucket_is_half_open(bucket: RangeBucket)
    requires
        bucket.min != UNBOUNDED,
        bucket.max != UNBOUNDED,
        bucket.min < bucket.max,
    ensures
        bucket.admits(bucket.min as int),
        bucket.admits(bucket.max - 1),
        !bucket.admits(bucket.max as int),
        forall|value: int| bucket.admits(value) <==> bucket.min <= value < bucket.max,
{
}

/// Neighbouring buckets do not overlap: where one ends at the bound at which
/// the other starts, no number lies in both, the bound itself belonging to
/// the upper one.
pub proof fn lemma_neighbours_do_not_overlap(lower: RangeBucket, upper: RangeBucket, value: int)
    requires
        lower.max != UNBOUNDED,
        lower.max == upper.min,
    ensures
        !(lower.admits(value) && upper.admits(value)),
        !lower.admits(lower.max as int),
        upper.max == UNBOUNDED || upper.min < upper.max ==> upper.admits(upper.min as int),
{
}

/// The bucket at position `id` of `ranges`, where there is one.
pub open spec fn bucket_at(ranges: Seq<RangeBucket>, id: int) -> Option<RangeBucket> {
    if 0 <= id < ranges.len() {
        Some(ranges[id])
    } else {
        None
    }
}

impl RangeField {
    /// The bucket with index `id`, or `None` where the index is negative or
    /// past the last bucket.
    pub fn lookup(&self, id: i64) -> (found: Option<RangeBucket>)
        ensures
            found == bucket_at(self.ranges@, id as int),
    {
        if id < 0 || self.ranges.len() as u64 <= id as u64 {
            None
        } else {
            Some(self.ranges[id as usize])
        }
    }
}

impl RangeBucketCatalog {
    /// The buckets configured for `field`; none for a field without ranges.
    pub open spec fn buckets(&self, field: Field) -> Seq<RangeBucket> {
        match field {
            Field::Price => self.price.ranges@,
            Field::Height => self.height.ranges@,
            Field::Width => self.width.ranges@,
            Field::Depth => self.depth.ranges@,
            Field::DoorHeight => self.door_height.ranges@,
            Field::DoorWidth => self.door_width.ranges@,
            Field::Rent => self.rent.ranges@,
            _ => Seq::empty(),
        }
    }

    /// The bucket of `field` that the request text `raw` selects.
    pub open spec fn selected(&self, field: Field, raw: Seq<char>) -> Option<RangeBucket> {
        match decimal_i64(raw) {
            Some(id) => bucket_at(self.buckets(field), id as int),
            None => None,
        }
    }

    /// The ranged field's entry, or `None` for a field without ranges.
    pub fn field(&self, field: Field) -> (entry: Option<&RangeField>)
        ensures
            entry is Some <==> field.is_ranged(),
            entry matches Some(f) ==> f.ranges@ == self.buckets(field),
            entry is None ==> self.buckets(field).len() == 0,
    {
        match field {
            Field::Price => Some(&self.price),
            Field::Height => Some(&self.height),
            Field::Width => Some(&self.width),
            Field::Depth => Some(&self.depth),
            Field::DoorHeight => Some(&self.door_height),
            Field::DoorWidth => Some(&self.door_width),
            Field::Rent => Some(&self.rent),
            _ => None,
        }
    }

    /// The bucket of `field` with index `id`: exactly the configured one for
    /// an index from zero up to the number of buckets, `None` for any other.
    pub fn lookup(&self, field: Field, id: i64) -> (found: Option<RangeBucket>)
        ensures
            found == bucket_at(self.buckets(field), id as int),
    {
        match self.field(field) {
            Some(entry) => entry.lookup(id),
            None => None,
        }
    }

    /// The bucket of `field` that the decimal index written in `range_id`
    /// selects. Text that is no decimal number selects nothing.
    pub fn get_range(&self, field: Field, range_id: &str) -> (found: Option<RangeBucket>)
        ensures
            found == self.selected(field, range_id@),
    {
        match parse_i64(range_id) {
            Some(id) => self.lookup(field, id),
            None => None,
        }
    }
}

} // verus!
