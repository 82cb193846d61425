//! Reads of single rows, the two low-priced listings, and the statements
//! that add rows to the catalogs.

use vstd::prelude::*;
use vstd::string::StringExecFns;
use crate::entity::{Chair, Estate};
use crate::predicate::{BoundValue, BoundValueView};
use crate::query::{Query, QueryView};

verus! {

/// The number of rows in a recommendation and in a low-priced listing.
pub const LIMIT: i64 = 20;

/// The query `text` with the one value `value` bound to it.
pub open spec fn with_one_value(text: Seq<char>, value: i64) -> QueryView {
    QueryView { text, values: seq![BoundValueView::Int(value)] }
}

/// The query for the chair with the given id.
pub open spec fn chair_by_id_query(id: i64) -> QueryView {
    with_one_value("select * from chair where id = ?"@, id)
}

/// The query for the estate with the given id.
pub open spec fn estate_by_id_query(id: i64) -> QueryView {
    with_one_value("select * from estate where id = ?"@, id)
}

/// The query for the `LIMIT` cheapest chairs that have stock left, the
/// smaller id first among equals.
pub open spec fn low_priced_chair_query() -> QueryView {
    with_one_value("select * from chair where stock > 0 order by price asc, id asc limit ?"@, LIMIT)
}

/// The query for the `LIMIT` estates with the lowest rent, the smaller id
/// first among equals.
pub open spec fn low_priced_estate_query() -> QueryView {
    with_one_value("select * from estate order by rent asc, id asc limit ?"@, LIMIT)
}

fn one_value_query(text: &str, value: i64) -> (query: Query)
    ensures
        query@ == with_one_value(text@, value),
{
    let mut values: Vec<BoundValue> = Vec::new();
    values.push(BoundValue::Int(value));
    assert(values.deep_view() =~= seq![BoundValueView::Int(value)]);
    Query { text: String::from_str(text), values }
}

/// Builds the query for the chair with the given id.
pub fn find_chair_query(id: i64) -> (query: Query)
    ensures
        query@ == chair_by_id_query(id),
{
    one_value_query("select * from chair where id = ?", id)
}

/// Builds the query for the estate with the given id.
pub fn find_estate_query(id: i64) -> (query: Query)
    ensures
        query@ == estate_by_id_query(id),
{
    one_value_query("select * from estate where id = ?", id)
}

/// Builds the query for the cheapest chairs in stock.
pub fn get_low_priced_chair() -> (query: Query)
    ensures
        query@ == low_priced_chair_query(),
{
    one_value_query("select * from chair where stock > 0 order by price asc, id asc limit ?", LIMIT)
}

/// Builds the query for the estates with the lowest rent.
pub fn get_low_priced_estate() -> (query: Query)
    ensures
        query@ == low_priced_estate_query(),
{
    one_value_query("select * from estate order by rent asc, id asc limit ?", LIMIT)
}

/// What a request for one chair shows of what the store found: the chair,
/// unless there is none or it is sold out. A chair without stock is hidden
/// as if it did not exist.
pub open spec fn shown_chair(found: Option<Chair>) -> Option<Chair> {
    match found {
        Some(chair) => if chair.stock > 0 {
            Some(chair)
        } else {
            None
        },
        None => None,
    }
}

/// Decides what a request for one chair returns, given what the store found.
pub fn get_chair_detail(found: Option<Chair>) -> (shown: Option<Chair>)
    ensures
        shown == shown_chair(found),
{
    match found {
        Some(chair) => {
            if chair.stock <= 0 {
                None
            } else {
                Some(chair)
            }
        },
        None => None,
    }
}

/// The statement that adds `chair` to the catalog: one placeholder for each
/// column, bound in the order in which the statement names the columns.
pub open spec fn insert_chair_statement(chair: &Chair) -> QueryView {
    QueryView {
        text:
            "insert into chair (id, name, description, thumbnail, price, height, width, depth, color, features, kind, popularity, stock) values (?, ?, ?, ?, ?, ?, ?, ?, ?, ?, ?, ?, ?)"@,
        values: seq![
            BoundValueView::Int(chair.id),
            BoundValueView::Text(chair.name@),
            BoundValueView::Text(chair.description@),
            BoundValueView::Text(chair.thumbnail@),
            BoundValueView::Int(chair.price),
            BoundValueView::Int(chair.height),
            BoundValueView::Int(chair.width),
            BoundValueView::Int(chair.depth),
            BoundValueView::Text(chair.color@),
            BoundValueView::Text(chair.features@),
            BoundValueView::Text(chair.kind@),
            BoundValueView::Int(chair.popularity),
            BoundValueView::Int(chair.stock),
        ],
    }
}

/// The statement that adds `estate` to the catalog: one placeholder for each
/// column, bound in the order in which the statement names the columns.
pub open spec fn insert_estate_statement(estate: &Estate) -> QueryView {
    QueryView {
        text:
            "insert into estate (id, name, description, thumbnail, address, latitude, longitude, rent, door_height, door_width, features, popularity) values (?, ?, ?, ?, ?, ?, ?, ?, ?, ?, ?, ?)"@,
        values: seq![
            BoundValueView::Int(estate.id),
            BoundValueView::Text(estate.name@),
            BoundValueView::Text(estate.description@),
            BoundValueView::Text(estate.thumbnail@),
            BoundValueView::Text(estate.address@),
            BoundValueView::Coordinate(estate.latitude),
            BoundValueView::Coordinate(estate.longitude),
            BoundValueView::Int(estate.rent),
            BoundValueView::Int(estate.door_height),
            BoundValueView::Int(estate.door_width),
            BoundValueView::Text(estate.features@),
            BoundValueView::Int(estate.popularity),
        ],
    }
}

/// Builds the statement that adds `chair` to the catalog.
pub fn post_chair(chair: &Chair) -> (statement: Query)
    ensures
        statement@ == insert_chair_statement(chair),
{
    let mut values: Vec<BoundValue> = Vec::new();
    values.push(BoundValue::Int(chair.id));
    values.push(BoundValue::Text(chair.name.clone()));
    values.push(BoundValue::Text(chair.description.clone()));
    values.push(BoundValue::Text(chair.thumbnail.clone()));
    values.push(BoundValue::Int(chair.price));
    values.push(BoundValue::Int(chair.height));
    values.push(BoundValue::Int(chair.width));
    values.push(BoundValue::Int(chair.depth));
    values.push(BoundValue::Text(chair.color.clone()));
    values.push(BoundValue::Text(chair.features.clone()));
    values.push(BoundValue::Text(chair.kind.clone()));
    values.push(BoundValue::Int(chair.popularity));
    values.push(BoundValue::Int(chair.stock));
    assert(values.deep_view() =~= insert_chair_statement(chair).values);
    Query {
        text: String::from_str(
            "insert into chair (id, name, description, thumbnail, price, height, width, depth, color, features, kind, popularity, stock) values (?, ?, ?, ?, ?, ?, ?, ?, ?, ?, ?, ?, ?)",
        ),
        values,
    }
}

/// Builds the statement that adds `estate` to the catalog.
pub fn post_estate(estate: &Estate) -> (statement: Query)
    ensures
        statement@ == insert_estate_statement(estate),
{
    let mut values: Vec<BoundValue> = Vec::new();
    values.push(BoundValue::Int(estate.id));
    values.push(BoundValue::Text(estate.name.clone()));
    values.push(BoundValue::Text(estate.description.clone()));
    values.push(BoundValue::Text(estate.thumbnail.clone()));
    values.push(BoundValue::Text(estate.address.clone()));
    values.push(BoundValue::Coordinate(estate.latitude));
    values.push(BoundValue::Coordinate(estate.longitude));
    values.push(BoundValue::Int(estate.rent));
    values.push(BoundValue::Int(estate.door_height));
    values.push(BoundValue::Int(estate.door_width));
    values.push(BoundValue::Text(estate.features.clone()));
    values.push(BoundValue::Int(estate.popularity));
    assert(values.deep_view() =~= insert_estate_statement(estate).values);
    Query {
        text: String::from_str(
            "insert into estate (id, name, description, thumbnail, address, latitude, longitude, rent, door_height, door_width, features, popularity) values (?, ?, ?, ?, ?, ?, ?, ?, ?, ?, ?, ?)",
        ),
        values,
    }
}

} // verus!
