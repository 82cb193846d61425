use isuumo::criteria::{ChairSearchParams, EstateSearchParams};
use isuumo::entity::{Chair, Estate};
use isuumo::error::ErrorKind;
use isuumo::page::PageCursor;
use isuumo::predicate::BoundValue;
use isuumo::range::{RangeBucket, RangeBucketCatalog, RangeField};
use isuumo::search::{search_chairs, search_estates, Page, SearchEvent, SearchStep};

fn ranges(list: Vec<RangeBucket>) -> RangeField {
    RangeField { prefix: String::new(), suffix: String::new(), ranges: list }
}

fn small_catalog() -> RangeBucketCatalog {
    let one = ranges(vec![RangeBucket { id: 0, min: 5000, max: 10000 }]);
    RangeBucketCatalog {
        price: one.clone(),
        height: one.clone(),
        width: one.clone(),
        depth: one.clone(),
        door_height: one.clone(),
        door_width: one.clone(),
        rent: one,
    }
}

fn chair_request(price: &str, kind: &str) -> ChairSearchParams {
    ChairSearchParams {
        price_range_id: price.to_string(),
        height_range_id: String::new(),
        width_range_id: String::new(),
        depth_range_id: String::new(),
        kind: kind.to_string(),
        color: String::new(),
        features: String::new(),
    }
}

fn estate_request(rent: &str, features: &str) -> EstateSearchParams {
    EstateSearchParams {
        door_height_range_id: String::new(),
        door_width_range_id: String::new(),
        rent_range_id: rent.to_string(),
        features: features.to_string(),
    }
}

fn chair(id: i64, price: i64, popularity: i64, stock: i64) -> Chair {
    Chair {
        id,
        name: format!("chair {}", id),
        description: String::new(),
        thumbnail: String::new(),
        price,
        height: 10,
        width: 10,
        depth: 10,
        color: "red".to_string(),
        features: String::new(),
        kind: "stool".to_string(),
        popularity,
        stock,
    }
}

fn estate(id: i64, rent: i64, popularity: i64) -> Estate {
    Estate {
        id,
        name: format!("estate {}", id),
        description: String::new(),
        thumbnail: String::new(),
        address: String::new(),
        latitude: 0,
        longitude: 0,
        rent,
        door_height: 100,
        door_width: 100,
        features: String::new(),
        popularity,
    }
}

/// A store of chairs in memory that answers the two reads of a price search.
fn run_price_search(stock: &[Chair], page: i64, per_page: i64) -> Result<Page<Chair>, ErrorKind> {
    let cursor = PageCursor::new(page, per_page).unwrap();
    let (mut search, mut step) = search_chairs(&small_catalog(), &chair_request("0", ""), cursor)?;
    let mut matching: Vec<Chair> = stock
        .iter()
        .filter(|c| c.price >= 5000 && c.price < 10000 && c.stock > 0)
        .cloned()
        .collect();
    matching.sort_by(|a, b| b.popularity.cmp(&a.popularity).then(a.id.cmp(&b.id)));
    loop {
        let event = match step {
            SearchStep::Count(query) => {
                assert_eq!(
                    query.text,
                    "select count(*) from chair where price >= ? and price < ? and stock > 0"
                );
                assert_eq!(query.values, vec![BoundValue::Int(5000), BoundValue::Int(10000)]);
                SearchEvent::Counted(Some(matching.len() as i64))
            }
            SearchStep::Fetch(query) => {
                assert_eq!(
                    query.text,
                    "select * from chair where price >= ? and price < ? and stock > 0 order by popularity desc, id asc limit ? offset ?"
                );
                let limit = match query.values[2] {
                    BoundValue::Int(n) => n as usize,
                    _ => panic!("limit is a number"),
                };
                let offset = match query.values[3] {
                    BoundValue::Int(n) => n as usize,
                    _ => panic!("offset is a number"),
                };
                SearchEvent::Fetched(matching.iter().skip(offset).take(limit).cloned().collect())
            }
            SearchStep::Done(result) => return result,
        };
        let next = search.step(event);
        search = next.0;
        step = next.1;
    }
}

fn some_chairs() -> Vec<Chair> {
    vec![
        chair(1, 4999, 9, 1),
        chair(2, 5000, 3, 1),
        chair(3, 9999, 8, 2),
        chair(4, 10000, 7, 1),
        chair(5, 7000, 8, 1),
        chair(6, 7000, 1, 0),
        chair(7, 6000, 5, 4),
        chair(8, 8000, 5, 1),
    ]
}

#[test]
fn cursor_names_a_page() {
    let c = PageCursor::new(3, 25).unwrap();
    assert_eq!(c.page(), 3);
    assert_eq!(c.per_page(), 25);
    assert_eq!(c.offset(), 75);
    assert_eq!(PageCursor::new(0, 1).unwrap().offset(), 0);
}

#[test]
fn cursor_refuses_what_names_no_page() {
    assert!(PageCursor::new(-1, 10).is_none());
    assert!(PageCursor::new(0, 0).is_none());
    assert!(PageCursor::new(0, -5).is_none());
    assert!(PageCursor::new(i64::MIN, i64::MIN).is_none());
}

#[test]
fn cursor_offset_must_fit() {
    assert!(PageCursor::new(i64::MAX, 2).is_none());
    assert!(PageCursor::new(2, i64::MAX).is_none());
    assert!(PageCursor::new(3037000500, 3037000500).is_none());
    assert_eq!(PageCursor::new(i64::MAX, 1).unwrap().offset(), i64::MAX);
    assert_eq!(PageCursor::new(1, i64::MAX).unwrap().offset(), i64::MAX);
    assert_eq!(PageCursor::new(0, i64::MAX).unwrap().offset(), 0);
    assert_eq!(PageCursor::new(3037000499, 3037000499).unwrap().offset(), 9223372030926249001);
}

#[test]
fn search_without_criteria_asks_the_store_nothing() {
    let cursor = PageCursor::new(0, 10).unwrap();
    let begun = search_chairs(&small_catalog(), &chair_request("", ""), cursor);
    assert_eq!(begun.err(), Some(ErrorKind::NoSearchCriteria));
    let begun = search_estates(&small_catalog(), &estate_request("", ""), cursor);
    assert_eq!(begun.err(), Some(ErrorKind::NoSearchCriteria));
}

#[test]
fn search_with_unknown_bucket_asks_the_store_nothing() {
    let cursor = PageCursor::new(0, 10).unwrap();
    let begun = search_chairs(&small_catalog(), &chair_request("1", "stool"), cursor);
    assert_eq!(begun.err(), Some(ErrorKind::InvalidFilterSelection));
    let begun = search_estates(&small_catalog(), &estate_request("x", "a"), cursor);
    assert_eq!(begun.err(), Some(ErrorKind::InvalidFilterSelection));
}

#[test]
fn every_returned_chair_lies_in_the_price_bucket() {
    let page = run_price_search(&some_chairs(), 0, 100).unwrap();
    assert_eq!(page.count, 5);
    let ids: Vec<i64> = page.items.iter().map(|c| c.id).collect();
    assert_eq!(ids, vec![3, 5, 7, 8, 2]);
    for c in &page.items {
        assert!(5000 <= c.price && c.price < 10000);
    }
}

#[test]
fn repeated_search_returns_the_same_page() {
    let first = run_price_search(&some_chairs(), 1, 2).unwrap();
    let second = run_price_search(&some_chairs(), 1, 2).unwrap();
    assert_eq!(first, second);
    let ids: Vec<i64> = first.items.iter().map(|c| c.id).collect();
    assert_eq!(ids, vec![7, 8]);
}

#[test]
fn total_count_is_the_same_on_every_page() {
    let mut seen = Vec::new();
    for page_number in 0..4 {
        let page = run_price_search(&some_chairs(), page_number, 2).unwrap();
        assert_eq!(page.count, 5);
        seen.extend(page.items.iter().map(|c| c.id));
    }
    assert_eq!(seen, vec![3, 5, 7, 8, 2]);
}

#[test]
fn page_far_beyond_the_end_is_empty_with_the_count() {
    let page = run_price_search(&some_chairs(), 1_000_000_000, 1_000_000_000).unwrap();
    assert_eq!(page.count, 5);
    assert!(page.items.is_empty());
}

#[test]
fn missing_count_row_counts_as_zero() {
    let cursor = PageCursor::new(2, 10).unwrap();
    let (search, step) = search_estates(&small_catalog(), &estate_request("0", ""), cursor).unwrap();
    match step {
        SearchStep::Count(query) => {
            assert_eq!(query.text, "select count(*) from estate where rent >= ? and rent < ?");
        }
        _ => panic!("a search starts by counting"),
    }
    let (search, step) = search.step(SearchEvent::<Estate>::Counted(None));
    match step {
        SearchStep::Fetch(query) => {
            assert_eq!(
                query.values,
                vec![
                    BoundValue::Int(5000),
                    BoundValue::Int(10000),
                    BoundValue::Int(10),
                    BoundValue::Int(20)
                ]
            );
        }
        _ => panic!("the page read follows the count"),
    }
    let rows = vec![estate(4, 6000, 2), estate(1, 7000, 1)];
    let (_, step) = search.step(SearchEvent::Fetched(rows.clone()));
    assert_eq!(step, SearchStep::Done(Ok(Page { count: 0, items: rows })));
}

#[test]
fn failed_count_aborts_the_search() {
    let cursor = PageCursor::new(0, 10).unwrap();
    let (search, _) = search_chairs(&small_catalog(), &chair_request("0", ""), cursor).unwrap();
    let (search, step) = search.step(SearchEvent::<Chair>::Failed);
    assert_eq!(step, SearchStep::Done(Err(ErrorKind::StorageUnavailable)));
    let (_, step) = search.step(SearchEvent::<Chair>::Counted(Some(3)));
    assert_eq!(step, SearchStep::Done(Err(ErrorKind::StorageUnavailable)));
}

#[test]
fn failed_page_read_returns_nothing() {
    let cursor = PageCursor::new(0, 10).unwrap();
    let (search, _) = search_chairs(&small_catalog(), &chair_request("0", ""), cursor).unwrap();
    let (search, _) = search.step(SearchEvent::<Chair>::Counted(Some(3)));
    let (_, step) = search.step(SearchEvent::<Chair>::Failed);
    assert_eq!(step, SearchStep::Done(Err(ErrorKind::StorageUnavailable)));
}

#[test]
fn answer_out_of_turn_ends_the_search() {
    let cursor = PageCursor::new(0, 10).unwrap();
    let (search, _) = search_chairs(&small_catalog(), &chair_request("0", ""), cursor).unwrap();
    let (_, step) = search.step(SearchEvent::Fetched(vec![chair(1, 6000, 1, 1)]));
    assert_eq!(step, SearchStep::Done(Err(ErrorKind::StorageUnavailable)));
    let (search, _) = search_chairs(&small_catalog(), &chair_request("0", ""), cursor).unwrap();
    let (search, _) = search.step(SearchEvent::<Chair>::Counted(Some(1)));
    let (_, step) = search.step(SearchEvent::<Chair>::Counted(Some(1)));
    assert_eq!(step, SearchStep::Done(Err(ErrorKind::StorageUnavailable)));
}
