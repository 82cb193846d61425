use isuumo::entity::Estate;
use isuumo::error::ErrorKind;
use isuumo::polygon::{
    search_estate_nazotte, BoundingBox, ContainmentCheck, Coordinate, Coordinates, PolygonEvent,
    PolygonStep, NAZOTTE_LIMIT,
};
use isuumo::predicate::BoundValue;
use isuumo::search::Page;

/// The order key of an angle: an integer that grows as the angle grows.
fn key(angle: f64) -> i64 {
    let bits = angle.to_bits() as i64;
    if bits < 0 {
        bits ^ i64::MAX
    } else {
        bits
    }
}

fn angle(key: i64) -> f64 {
    let bits = if key < 0 { key ^ i64::MAX } else { key };
    f64::from_bits(bits as u64)
}

fn at(latitude: f64, longitude: f64) -> Coordinate {
    Coordinate { latitude: key(latitude), longitude: key(longitude) }
}

fn polygon(points: &[(f64, f64)]) -> Coordinates {
    Coordinates { coordinates: points.iter().map(|p| at(p.0, p.1)).collect() }
}

fn place(id: i64, latitude: f64, longitude: f64, popularity: i64) -> Estate {
    Estate {
        id,
        name: format!("estate {}", id),
        description: String::new(),
        thumbnail: String::new(),
        address: String::new(),
        latitude: key(latitude),
        longitude: key(longitude),
        rent: 1,
        door_height: 1,
        door_width: 1,
        features: String::new(),
        popularity,
    }
}

fn side(a: (f64, f64), b: (f64, f64), p: (f64, f64)) -> f64 {
    (b.0 - a.0) * (p.1 - a.1) - (b.1 - a.1) * (p.0 - a.0)
}

/// Whether the triangle, its border included, contains the point.
fn in_triangle(t: &[(f64, f64)], p: (f64, f64)) -> bool {
    let d0 = side(t[0], t[1], p);
    let d1 = side(t[1], t[2], p);
    let d2 = side(t[2], t[0], p);
    let negative = d0 < 0.0 || d1 < 0.0 || d2 < 0.0;
    let positive = d0 > 0.0 || d1 > 0.0 || d2 > 0.0;
    !(negative && positive)
}

/// Runs a search by area against estates kept in memory. `fail_at` makes the
/// store fail at the test with that number.
fn search_area(
    triangle: &[(f64, f64)],
    estates: &[Estate],
    fail_at: Option<usize>,
) -> (Result<Page<Estate>, ErrorKind>, Vec<i64>) {
    let (mut search, mut step) = search_estate_nazotte(&polygon(triangle)).unwrap();
    let mut tested = Vec::new();
    loop {
        let event = match step {
            PolygonStep::List(query) => {
                assert_eq!(
                    query.text,
                    "select * from estate where latitude <= ? and latitude >= ? and longitude <= ? and longitude >= ? order by popularity desc, id asc"
                );
                let bound: Vec<f64> = query
                    .values
                    .iter()
                    .map(|v| match v {
                        BoundValue::Coordinate(k) => angle(*k),
                        _ => panic!("the bounds are coordinates"),
                    })
                    .collect();
                let mut inside: Vec<Estate> = estates
                    .iter()
                    .filter(|e| {
                        let (lat, lon) = (angle(e.latitude), angle(e.longitude));
                        lat <= bound[0] && lat >= bound[1] && lon <= bound[2] && lon >= bound[3]
                    })
                    .cloned()
                    .collect();
                inside.sort_by(|a, b| b.popularity.cmp(&a.popularity).then(a.id.cmp(&b.id)));
                PolygonEvent::Candidates(inside)
            }
            PolygonStep::Check(ContainmentCheck { estate_id, latitude, longitude }) => {
                if fail_at == Some(tested.len()) {
                    tested.push(estate_id);
                    PolygonEvent::Failed
                } else {
                    tested.push(estate_id);
                    let found = estates.iter().find(|e| e.id == estate_id).unwrap();
                    assert_eq!((found.latitude, found.longitude), (latitude, longitude));
                    if in_triangle(triangle, (angle(latitude), angle(longitude))) {
                        PolygonEvent::Checked(Some(found.clone()))
                    } else {
                        PolygonEvent::Checked(None)
                    }
                }
            }
            PolygonStep::Done(result) => return (result, tested),
        };
        let next = search.step(event);
        search = next.0;
        step = next.1;
    }
}

const TRIANGLE: [(f64, f64); 3] = [(0.0, 0.0), (10.0, 0.0), (0.0, 10.0)];

#[test]
fn order_keys_grow_with_the_angle() {
    let angles = [-180.0, -90.5, -1.0, -0.000001, 0.0, 0.000001, 35.6581, 139.7414, 180.0];
    for w in angles.windows(2) {
        assert!(key(w[0]) < key(w[1]));
    }
    for a in angles {
        assert_eq!(angle(key(a)), a);
    }
}

#[test]
fn bounding_box_is_the_min_and_max_of_each_axis() {
    let p = polygon(&[(35.2, 139.9), (34.8, 140.3), (35.9, 139.1), (35.0, 139.5)]);
    assert_eq!(
        p.get_bounding_box(),
        Some(BoundingBox {
            min_latitude: key(34.8),
            max_latitude: key(35.9),
            min_longitude: key(139.1),
            max_longitude: key(140.3),
        })
    );
}

#[test]
fn bounding_box_of_one_point_is_the_point() {
    let p = polygon(&[(-3.5, 7.25)]);
    let b = p.get_bounding_box().unwrap();
    assert_eq!((b.min_latitude, b.max_latitude), (key(-3.5), key(-3.5)));
    assert_eq!((b.min_longitude, b.max_longitude), (key(7.25), key(7.25)));
    assert!(b.covers(&at(-3.5, 7.25)));
    assert!(!b.covers(&at(-3.5, 7.26)));
}

#[test]
fn bounding_box_of_nothing_is_none() {
    assert_eq!(Coordinates { coordinates: vec![] }.get_bounding_box(), None);
}

#[test]
fn bounding_box_handles_the_extremes() {
    let p = Coordinates {
        coordinates: vec![
            Coordinate { latitude: i64::MAX, longitude: i64::MIN },
            Coordinate { latitude: i64::MIN, longitude: i64::MAX },
            Coordinate { latitude: 0, longitude: 0 },
        ],
    };
    assert_eq!(
        p.get_bounding_box(),
        Some(BoundingBox {
            min_latitude: i64::MIN,
            max_latitude: i64::MAX,
            min_longitude: i64::MIN,
            max_longitude: i64::MAX,
        })
    );
}

#[test]
fn bounding_box_covers_every_vertex_and_its_edges() {
    let p = polygon(&TRIANGLE);
    let b = p.get_bounding_box().unwrap();
    for c in &p.coordinates {
        assert!(b.covers(c));
    }
    assert!(b.covers(&at(10.0, 10.0)));
    assert!(b.covers(&at(0.0, 10.0)));
    assert!(b.covers(&at(5.0, 5.0)));
    assert!(!b.covers(&at(10.000001, 5.0)));
    assert!(!b.covers(&at(5.0, -0.000001)));
    assert!(!b.covers(&at(-1.0, -1.0)));
}

#[test]
fn candidates_query_binds_upper_before_lower() {
    let b = BoundingBox { min_latitude: 1, max_latitude: 2, min_longitude: 3, max_longitude: 4 };
    let q = b.candidates_query();
    assert_eq!(
        q.values,
        vec![
            BoundValue::Coordinate(2),
            BoundValue::Coordinate(1),
            BoundValue::Coordinate(4),
            BoundValue::Coordinate(3)
        ]
    );
    assert_eq!(q.text.matches('?').count(), 4);
}

#[test]
fn empty_polygon_is_refused_before_any_read() {
    let begun = search_estate_nazotte(&Coordinates { coordinates: vec![] });
    assert_eq!(begun.err(), Some(ErrorKind::EmptyPolygon));
}

#[test]
fn triangle_keeps_what_is_inside_it() {
    let estates = vec![
        place(1, 1.0, 1.0, 5),
        place(2, 9.0, 9.0, 9),
        place(3, 11.0, 1.0, 8),
        place(4, 5.0, 5.0, 7),
        place(5, -0.5, 3.0, 6),
        place(6, 2.0, 3.0, 7),
        place(7, 6.0, 6.0, 1),
        place(8, 0.0, 0.0, 2),
        place(9, 3.0, 12.0, 3),
    ];
    let (result, tested) = search_area(&TRIANGLE, &estates, None);
    assert_eq!(tested, vec![2, 4, 6, 1, 8, 7]);
    let page = result.unwrap();
    let ids: Vec<i64> = page.items.iter().map(|e| e.id).collect();
    assert_eq!(ids, vec![4, 6, 1, 8]);
    assert_eq!(page.count, 4);
}

#[test]
fn no_candidate_means_an_empty_page_and_no_test() {
    let estates = vec![place(1, 50.0, 50.0, 5)];
    let (result, tested) = search_area(&TRIANGLE, &estates, None);
    assert_eq!(result, Ok(Page { count: 0, items: vec![] }));
    assert!(tested.is_empty());
}

#[test]
fn at_most_fifty_of_the_most_popular_are_returned() {
    assert_eq!(NAZOTTE_LIMIT, 50);
    let mut estates = Vec::new();
    for id in 0..140 {
        let inside = id % 2 == 0;
        let (lat, lon) = if inside { (1.0, 1.0) } else { (9.0, 9.0) };
        estates.push(place(id, lat, lon, 1000 - id));
    }
    let (result, tested) = search_area(&TRIANGLE, &estates, None);
    assert_eq!(tested.len(), 140);
    let page = result.unwrap();
    assert_eq!(page.count, 50);
    let ids: Vec<i64> = page.items.iter().map(|e| e.id).collect();
    let expected: Vec<i64> = (0..100).filter(|id| id % 2 == 0).collect();
    assert_eq!(ids, expected);
}

#[test]
fn exactly_fifty_are_all_returned() {
    let estates: Vec<Estate> = (0..50).map(|id| place(id, 1.0, 1.0, 100 - id)).collect();
    let (result, _) = search_area(&TRIANGLE, &estates, None);
    let page = result.unwrap();
    assert_eq!(page.count, 50);
    assert_eq!(page.items, estates);
}

#[test]
fn failed_test_returns_nothing_of_what_was_found() {
    let estates: Vec<Estate> = (0..5).map(|id| place(id, 1.0, 1.0, 100 - id)).collect();
    for k in 0..5 {
        let (result, tested) = search_area(&TRIANGLE, &estates, Some(k));
        assert_eq!(result, Err(ErrorKind::StorageUnavailable));
        assert_eq!(tested.len(), k + 1);
    }
}

#[test]
fn failed_listing_ends_the_search() {
    let (search, _) = search_estate_nazotte(&polygon(&TRIANGLE)).unwrap();
    let (search, step) = search.step(PolygonEvent::Failed);
    assert_eq!(step, PolygonStep::Done(Err(ErrorKind::StorageUnavailable)));
    let (_, step) = search.step(PolygonEvent::Candidates(vec![place(1, 1.0, 1.0, 1)]));
    assert_eq!(step, PolygonStep::Done(Err(ErrorKind::StorageUnavailable)));
}

#[test]
fn answer_out_of_turn_ends_the_area_search() {
    let (search, _) = search_estate_nazotte(&polygon(&TRIANGLE)).unwrap();
    let (_, step) = search.step(PolygonEvent::Checked(None));
    assert_eq!(step, PolygonStep::Done(Err(ErrorKind::StorageUnavailable)));
    let (search, _) = search_estate_nazotte(&polygon(&TRIANGLE)).unwrap();
    let (search, step) =
        search.step(PolygonEvent::Candidates(vec![place(1, 1.0, 1.0, 1), place(2, 1.0, 1.0, 1)]));
    assert_eq!(
        step,
        PolygonStep::Check(ContainmentCheck {
            estate_id: 1,
            latitude: key(1.0),
            longitude: key(1.0)
        })
    );
    let (_, step) = search.step(PolygonEvent::Candidates(vec![]));
    assert_eq!(step, PolygonStep::Done(Err(ErrorKind::StorageUnavailable)));
}

#[test]
fn the_row_that_the_test_returns_is_the_one_kept() {
    let (search, _) = search_estate_nazotte(&polygon(&TRIANGLE)).unwrap();
    let (search, _) = search.step(PolygonEvent::Candidates(vec![place(1, 1.0, 1.0, 1)]));
    let fresh = place(1, 1.0, 1.0, 77);
    let (_, step) = search.step(PolygonEvent::Checked(Some(fresh.clone())));
    assert_eq!(step, PolygonStep::Done(Ok(Page { count: 1, items: vec![fresh] })));
}
