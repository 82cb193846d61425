use isuumo::entity::{Chair, Estate};
use isuumo::error::ErrorKind;
use isuumo::listing::{
    find_chair_query, find_estate_query, get_chair_detail, get_low_priced_chair,
    get_low_priced_estate, LIMIT,
};
use isuumo::predicate::BoundValue;
use isuumo::recommend::{
    recommend, search_recommended_estate_with_chair, Dimensions, Opening, RecommendEvent,
    RecommendPhase, RecommendStep,
};
use isuumo::reserve::{
    buy_chair, InventoryRow, ReserveEvent, ReservePhase, ReserveStep, Settlement,
};

fn seat(id: i64, width: i64, height: i64, depth: i64, stock: i64) -> Chair {
    Chair {
        id,
        name: "seat".to_string(),
        description: "d".to_string(),
        thumbnail: "t".to_string(),
        price: 100,
        height,
        width,
        depth,
        color: "c".to_string(),
        features: "f".to_string(),
        kind: "k".to_string(),
        popularity: 1,
        stock,
    }
}

fn home(id: i64, door_width: i64, door_height: i64) -> Estate {
    Estate {
        id,
        name: "home".to_string(),
        description: String::new(),
        thumbnail: String::new(),
        address: String::new(),
        latitude: 1,
        longitude: 2,
        rent: 3,
        door_height,
        door_width,
        features: String::new(),
        popularity: 4,
    }
}

fn ints(values: &[i64]) -> Vec<BoundValue> {
    values.iter().map(|v| BoundValue::Int(*v)).collect()
}

const SIX: &str = "select * from estate where (door_width >= ? and door_height >= ?) or (door_width >= ? and door_height >= ?) or (door_width >= ? and door_height >= ?) or (door_width >= ? and door_height >= ?) or (door_width >= ? and door_height >= ?) or (door_width >= ? and door_height >= ?) order by popularity desc, id asc limit ?";

#[test]
fn six_footprints_in_order() {
    let d = Dimensions { width: 30, height: 40, depth: 50 };
    assert_eq!(
        d.orientation_pairs(),
        vec![(30, 40), (30, 50), (40, 30), (40, 50), (50, 30), (50, 40)]
    );
}

#[test]
fn opening_checked_against_all_six_footprints() {
    let d = Dimensions { width: 30, height: 40, depth: 50 };
    let opening = Opening { width: 45, height: 35 };
    let by_hand = [
        45 >= 30 && 35 >= 40,
        45 >= 30 && 35 >= 50,
        45 >= 40 && 35 >= 30,
        45 >= 40 && 35 >= 50,
        45 >= 50 && 35 >= 30,
        45 >= 50 && 35 >= 40,
    ];
    assert_eq!(by_hand, [false, false, true, false, false, false]);
    let pairs = d.orientation_pairs();
    for k in 0..6 {
        assert_eq!(opening.width >= pairs[k].0 && opening.height >= pairs[k].1, by_hand[k]);
    }
    assert!(opening.fits(&d));
}

#[test]
fn opening_too_small_for_every_footprint() {
    let d = Dimensions { width: 30, height: 40, depth: 50 };
    assert!(!Opening { width: 29, height: 1000 }.fits(&d));
    assert!(!Opening { width: 1000, height: 29 }.fits(&d));
    assert!(!Opening { width: 39, height: 39 }.fits(&d));
    assert!(!Opening { width: 30, height: 39 }.fits(&d));
    assert!(Opening { width: 30, height: 40 }.fits(&d));
    assert!(Opening { width: 40, height: 30 }.fits(&d));
    assert!(!Opening { width: 0, height: 0 }.fits(&d));
}

#[test]
fn turning_the_chair_changes_nothing() {
    let names = [
        (30, 40, 50),
        (30, 50, 40),
        (40, 30, 50),
        (40, 50, 30),
        (50, 30, 40),
        (50, 40, 30),
    ];
    for w in (20..60).step_by(5) {
        for h in (20..60).step_by(5) {
            let opening = Opening { width: w, height: h };
            let expected = (w >= 30 && h >= 40) || (w >= 40 && h >= 30);
            for (a, b, c) in names {
                assert_eq!(opening.fits(&Dimensions { width: a, height: b, depth: c }), expected);
            }
        }
    }
}

#[test]
fn chair_and_estate_give_their_measures() {
    assert_eq!(seat(1, 3, 4, 5, 1).dimensions(), Dimensions { width: 3, height: 4, depth: 5 });
    assert_eq!(home(1, 7, 9).opening(), Opening { width: 7, height: 9 });
}

#[test]
fn recommend_query_binds_the_six_footprints() {
    let q = recommend(&Dimensions { width: 1, height: 2, depth: 3 }, 20);
    assert_eq!(q.text, SIX);
    assert_eq!(q.values, ints(&[1, 2, 1, 3, 2, 1, 2, 3, 3, 1, 3, 2, 20]));
    assert_eq!(q.text.matches('?').count(), q.values.len());
}

#[test]
fn recommendation_reads_the_chair_then_the_estates() {
    let (state, step) = search_recommended_estate_with_chair(17);
    assert_eq!(state.phase, RecommendPhase::FindingChair);
    match step {
        RecommendStep::FindChair(q) => {
            assert_eq!(q.text, "select * from chair where id = ?");
            assert_eq!(q.values, ints(&[17]));
        }
        _ => panic!("a recommendation starts with the chair"),
    }
    let (state, step) = state.step(RecommendEvent::Chair(Some(seat(17, 30, 40, 50, 0))));
    assert_eq!(state.phase, RecommendPhase::FindingEstates);
    match step {
        RecommendStep::FindEstates(q) => {
            assert_eq!(q.text, SIX);
            assert_eq!(q.values, ints(&[30, 40, 30, 50, 40, 30, 40, 50, 50, 30, 50, 40, LIMIT]));
        }
        _ => panic!("the estates follow the chair"),
    }
    let found = vec![home(2, 45, 35), home(1, 60, 60)];
    let (state, step) = state.step(RecommendEvent::Estates(found.clone()));
    assert_eq!(state.phase, RecommendPhase::Closed);
    assert_eq!(step, RecommendStep::Done(Ok(found)));
}

#[test]
fn recommendation_without_the_chair_is_not_an_empty_result() {
    let (state, _) = search_recommended_estate_with_chair(5);
    let (state, step) = state.step(RecommendEvent::Chair(None));
    assert_eq!(step, RecommendStep::Done(Err(ErrorKind::ReferenceObjectNotFound)));
    assert_eq!(state.phase, RecommendPhase::Closed);
    let (state, _) = search_recommended_estate_with_chair(5);
    let (state, _) = state.step(RecommendEvent::Chair(Some(seat(5, 1, 1, 1, 1))));
    let (_, step) = state.step(RecommendEvent::Estates(vec![]));
    assert_eq!(step, RecommendStep::Done(Ok(vec![])));
}

#[test]
fn recommendation_fails_with_the_store() {
    let (state, _) = search_recommended_estate_with_chair(5);
    let (_, step) = state.step(RecommendEvent::Failed);
    assert_eq!(step, RecommendStep::Done(Err(ErrorKind::StorageUnavailable)));
    let (state, _) = search_recommended_estate_with_chair(5);
    let (state, _) = state.step(RecommendEvent::Chair(Some(seat(5, 1, 1, 1, 1))));
    let (state, step) = state.step(RecommendEvent::Failed);
    assert_eq!(step, RecommendStep::Done(Err(ErrorKind::StorageUnavailable)));
    let (_, step) = state.step(RecommendEvent::Estates(vec![]));
    assert_eq!(step, RecommendStep::Done(Err(ErrorKind::StorageUnavailable)));
    let (state, _) = search_recommended_estate_with_chair(5);
    let (_, step) = state.step(RecommendEvent::Estates(vec![home(1, 1, 1)]));
    assert_eq!(step, RecommendStep::Done(Err(ErrorKind::StorageUnavailable)));
}

#[test]
fn single_row_and_low_priced_queries() {
    assert_eq!(find_chair_query(3).text, "select * from chair where id = ?");
    assert_eq!(find_chair_query(3).values, ints(&[3]));
    assert_eq!(find_estate_query(-4).text, "select * from estate where id = ?");
    assert_eq!(find_estate_query(-4).values, ints(&[-4]));
    assert_eq!(LIMIT, 20);
    assert_eq!(
        get_low_priced_chair().text,
        "select * from chair where stock > 0 order by price asc, id asc limit ?"
    );
    assert_eq!(get_low_priced_chair().values, ints(&[20]));
    assert_eq!(
        get_low_priced_estate().text,
        "select * from estate order by rent asc, id asc limit ?"
    );
    assert_eq!(get_low_priced_estate().values, ints(&[20]));
}

#[test]
fn sold_out_chair_is_hidden() {
    assert_eq!(get_chair_detail(None), None);
    assert_eq!(get_chair_detail(Some(seat(1, 1, 1, 1, 0))), None);
    assert_eq!(get_chair_detail(Some(seat(1, 1, 1, 1, -2))), None);
    assert_eq!(get_chair_detail(Some(seat(1, 1, 1, 1, 1))), Some(seat(1, 1, 1, 1, 1)));
    assert_eq!(get_chair_detail(Some(seat(9, 1, 1, 1, 40))), Some(seat(9, 1, 1, 1, 40)));
}

/// One row of stock behind a store that does as it is told.
struct Shelf {
    item_id: i64,
    committed: i64,
    working: i64,
    open: bool,
    rollbacks: usize,
}

fn reserve_on(shelf: &mut Shelf) -> Result<(), ErrorKind> {
    let (mut state, mut step) = buy_chair(shelf.item_id);
    loop {
        let event = match step {
            ReserveStep::Begin => {
                assert!(!shelf.open);
                shelf.open = true;
                shelf.working = shelf.committed;
                ReserveEvent::Opened
            }
            ReserveStep::Lock(q) => {
                assert!(shelf.open);
                assert_eq!(q.text, "select * from chair where id = ? and stock > 0 for update");
                assert_eq!(q.values, ints(&[shelf.item_id]));
                if shelf.working > 0 {
                    ReserveEvent::Locked(Some(InventoryRow {
                        id: shelf.item_id,
                        stock: shelf.working,
                    }))
                } else {
                    ReserveEvent::Locked(None)
                }
            }
            ReserveStep::Decrement(q) => {
                assert!(shelf.open);
                assert_eq!(q.text, "update chair set stock = stock - 1 where id = ?");
                assert_eq!(q.values, ints(&[shelf.item_id]));
                shelf.working -= 1;
                ReserveEvent::Decremented
            }
            ReserveStep::Commit => {
                assert!(shelf.open);
                shelf.committed = shelf.working;
                shelf.open = false;
                ReserveEvent::Committed
            }
            ReserveStep::Done(Settlement { rollback, result }) => {
                assert_eq!(rollback, shelf.open);
                if rollback {
                    shelf.open = false;
                    shelf.rollbacks += 1;
                }
                return result;
            }
        };
        let next = state.step(event);
        state = next.0;
        step = next.1;
    }
}

#[test]
fn reservation_takes_one_unit() {
    let mut shelf = Shelf { item_id: 8, committed: 3, working: 0, open: false, rollbacks: 0 };
    assert_eq!(reserve_on(&mut shelf), Ok(()));
    assert_eq!(shelf.committed, 2);
    assert_eq!(shelf.rollbacks, 0);
    assert!(!shelf.open);
}

#[test]
fn reservation_of_a_sold_out_chair_is_refused() {
    let mut shelf = Shelf { item_id: 8, committed: 0, working: 0, open: false, rollbacks: 0 };
    assert_eq!(reserve_on(&mut shelf), Err(ErrorKind::OutOfStockOrNotFound));
    assert_eq!(shelf.committed, 0);
    assert_eq!(shelf.rollbacks, 1);
    assert!(!shelf.open);
}

#[test]
fn many_reservations_of_the_last_unit() {
    let n = 25;
    let mut shelf = Shelf { item_id: 1, committed: 1, working: 0, open: false, rollbacks: 0 };
    let mut reserved = 0;
    let mut refused = 0;
    for _ in 0..n {
        match reserve_on(&mut shelf) {
            Ok(()) => reserved += 1,
            Err(ErrorKind::OutOfStockOrNotFound) => refused += 1,
            Err(other) => panic!("unexpected {:?}", other),
        }
    }
    assert_eq!(reserved, 1);
    assert_eq!(refused, n - 1);
    assert_eq!(shelf.committed, 0);
}

#[test]
fn reservations_never_sell_more_than_there_is() {
    for stock in 0..6 {
        for n in 0..10 {
            let mut shelf =
                Shelf { item_id: 2, committed: stock, working: 0, open: false, rollbacks: 0 };
            let mut reserved = 0;
            for _ in 0..n {
                if reserve_on(&mut shelf).is_ok() {
                    reserved += 1;
                }
            }
            assert_eq!(reserved, std::cmp::min(stock, n));
            assert_eq!(shelf.committed, stock - reserved);
            assert!(shelf.committed >= 0);
        }
    }
}

#[test]
fn reservation_walks_through_its_phases() {
    let (state, step) = buy_chair(4);
    assert_eq!(state.item_id, 4);
    assert_eq!(state.phase, ReservePhase::Opening);
    assert_eq!(step, ReserveStep::Begin);
    let (state, _) = state.step(ReserveEvent::Opened);
    assert_eq!(state.phase, ReservePhase::Locking);
    let (state, _) = state.step(ReserveEvent::Locked(Some(InventoryRow { id: 4, stock: 2 })));
    assert_eq!(state.phase, ReservePhase::Decrementing);
    let (state, step) = state.step(ReserveEvent::Decremented);
    assert_eq!(state.phase, ReservePhase::Committing);
    assert_eq!(step, ReserveStep::Commit);
    let (state, step) = state.step(ReserveEvent::Committed);
    assert_eq!(state.phase, ReservePhase::Closed);
    assert_eq!(step, ReserveStep::Done(Settlement { rollback: false, result: Ok(()) }));
    let (_, step) = state.step(ReserveEvent::Committed);
    assert_eq!(
        step,
        ReserveStep::Done(Settlement {
            rollback: false,
            result: Err(ErrorKind::StorageUnavailable)
        })
    );
}

#[test]
fn failure_before_the_transaction_needs_no_rollback() {
    let (state, _) = buy_chair(4);
    let (_, step) = state.step(ReserveEvent::Failed);
    assert_eq!(
        step,
        ReserveStep::Done(Settlement {
            rollback: false,
            result: Err(ErrorKind::StorageUnavailable)
        })
    );
}

#[test]
fn failure_inside_the_transaction_rolls_back() {
    let unavailable =
        ReserveStep::Done(Settlement { rollback: true, result: Err(ErrorKind::StorageUnavailable) });
    let row = InventoryRow { id: 4, stock: 1 };
    let (state, _) = buy_chair(4);
    let (locking, _) = state.step(ReserveEvent::Opened);
    assert_eq!(locking.step(ReserveEvent::Failed).1, unavailable);
    assert_eq!(locking.step(ReserveEvent::Committed).1, unavailable);
    assert_eq!(locking.step(ReserveEvent::Decremented).1, unavailable);
    let (decrementing, _) = locking.step(ReserveEvent::Locked(Some(row)));
    assert_eq!(decrementing.step(ReserveEvent::Failed).1, unavailable);
    assert_eq!(decrementing.step(ReserveEvent::Locked(Some(row))).1, unavailable);
    let (committing, _) = decrementing.step(ReserveEvent::Decremented);
    assert_eq!(committing.step(ReserveEvent::Failed).1, unavailable);
    assert_eq!(committing.step(ReserveEvent::Opened).1, unavailable);
    assert_eq!(
        locking.step(ReserveEvent::Locked(None)).1,
        ReserveStep::Done(Settlement {
            rollback: true,
            result: Err(ErrorKind::OutOfStockOrNotFound)
        })
    );
}

#[test]
fn only_the_store_failure_is_not_the_requests_fault() {
    assert!(ErrorKind::InvalidFilterSelection.is_client_error());
    assert!(ErrorKind::NoSearchCriteria.is_client_error());
    assert!(ErrorKind::EmptyPolygon.is_client_error());
    assert!(ErrorKind::ReferenceObjectNotFound.is_client_error());
    assert!(ErrorKind::OutOfStockOrNotFound.is_client_error());
    assert!(!ErrorKind::StorageUnavailable.is_client_error());
}

#[test]
fn insert_statements_bind_every_column_in_order() {
    let chair = Chair {
        id: 1,
        name: "n".to_string(),
        description: "d".to_string(),
        thumbnail: "t".to_string(),
        price: 2,
        height: 3,
        width: 4,
        depth: 5,
        color: "c".to_string(),
        features: "f".to_string(),
        kind: "k".to_string(),
        popularity: 6,
        stock: 7,
    };
    let q = isuumo::listing::post_chair(&chair);
    assert_eq!(q.text, "insert into chair (id, name, description, thumbnail, price, height, width, depth, color, features, kind, popularity, stock) values (?, ?, ?, ?, ?, ?, ?, ?, ?, ?, ?, ?, ?)");
    let t = |s: &str| BoundValue::Text(s.to_string());
    assert_eq!(
        q.values,
        vec![
            BoundValue::Int(1),
            t("n"),
            t("d"),
            t("t"),
            BoundValue::Int(2),
            BoundValue::Int(3),
            BoundValue::Int(4),
            BoundValue::Int(5),
            t("c"),
            t("f"),
            t("k"),
            BoundValue::Int(6),
            BoundValue::Int(7),
        ]
    );
    let estate = Estate {
        id: 1,
        name: "n".to_string(),
        description: "d".to_string(),
        thumbnail: "t".to_string(),
        address: "a".to_string(),
        latitude: 8,
        longitude: 9,
        rent: 2,
        door_height: 3,
        door_width: 4,
        features: "f".to_string(),
        popularity: 5,
    };
    let q = isuumo::listing::post_estate(&estate);
    assert_eq!(q.text, "insert into estate (id, name, description, thumbnail, address, latitude, longitude, rent, door_height, door_width, features, popularity) values (?, ?, ?, ?, ?, ?, ?, ?, ?, ?, ?, ?)");
    assert_eq!(
        q.values,
        vec![
            BoundValue::Int(1),
            t("n"),
            t("d"),
            t("t"),
            t("a"),
            BoundValue::Coordinate(8),
            BoundValue::Coordinate(9),
            BoundValue::Int(2),
            BoundValue::Int(3),
            BoundValue::Int(4),
            t("f"),
            BoundValue::Int(5),
        ]
    );
    assert_eq!(q.text.matches('?').count(), q.values.len());
}
