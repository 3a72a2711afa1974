use mmitm::error::AppError;
use mmitm::google_maps::{
    assemble_venues, batch_bounds, distance_matrix_query, place_details_from, travel_times_from_matrix,
    PlaceDetails,
};
use mmitm::models::{
    Coordinate, GoogleDistanceElement, GoogleDistanceMatrixResponse, GoogleDistanceRow,
    GoogleDuration, GooglePlaceDetailsNewResponse, PlaceCandidate, TransportMode,
};

fn place(id: &str, lat: f64, lng: f64) -> PlaceCandidate {
    PlaceCandidate {
        place_id: id.to_string(),
        name: format!("name of {}", id),
        coordinate: Coordinate { lat: lat.to_string(), lng: lng.to_string() },
        types: vec!["cafe".to_string()],
        rating: None,
        user_ratings_total: None,
        price_level: None,
    }
}

fn element(status: &str, seconds: Option<u32>) -> GoogleDistanceElement {
    GoogleDistanceElement { status: status.to_string(), duration: seconds.map(|value| GoogleDuration { value }) }
}

fn details(address: &str) -> Option<PlaceDetails> {
    Some(PlaceDetails { address: address.to_string(), url: format!("https://maps/{}", address) })
}

#[test]
fn matrix_is_read_in_whole_minutes_and_transposed() {
    let reply = GoogleDistanceMatrixResponse {
        status: "OK".to_string(),
        rows: vec![
            GoogleDistanceRow { elements: vec![element("OK", Some(600)), element("OK", Some(59)), element("OK", Some(125))] },
            GoogleDistanceRow { elements: vec![element("ZERO_RESULTS", Some(600)), element("OK", None)] },
        ],
    };
    let table = travel_times_from_matrix(&reply, 2, 3).unwrap();
    assert_eq!(table, vec![vec![10, 0], vec![0, 0], vec![2, 0]]);
}

#[test]
fn matrix_with_bad_status_is_an_error() {
    let reply = GoogleDistanceMatrixResponse { status: "REQUEST_DENIED".to_string(), rows: vec![] };
    match travel_times_from_matrix(&reply, 2, 3) {
        Err(AppError::GoogleApiError(m)) => assert_eq!(m, "Distance Matrix API error: REQUEST_DENIED"),
        other => panic!("unexpected {:?}", other),
    }
}

#[test]
fn matrix_query_parameters() {
    let participants = vec![
        Coordinate { lat: "1.5".to_string(), lng: "2".to_string() },
        Coordinate { lat: "-3".to_string(), lng: "4.25".to_string() },
    ];
    let places = vec![place("a", 5.0, 6.0), place("b", 7.5, 8.0)];
    let q = distance_matrix_query(&participants, &places, TransportMode::Bicycle, "KEY");
    let expected = vec![
        ("origins", "1.5,2|-3,4.25"),
        ("destinations", "5,6|7.5,8"),
        ("mode", "bicycling"),
        ("units", "metric"),
        ("key", "KEY"),
    ];
    let got: Vec<(&str, &str)> = q.iter().map(|(a, b)| (a.as_str(), b.as_str())).collect();
    assert_eq!(got, expected);
}

#[test]
fn venues_need_details_times_and_reachability() {
    let places = vec![place("a", 0.0, 0.0), place("b", 0.0, 0.0), place("c", 0.0, 0.0), place("d", 0.0, 0.0)];
    let fetched = vec![details("A"), None, details("C"), details("D")];
    let times = vec![vec![10, 30], vec![5, 5], vec![0, 7]];
    let venues = assemble_venues(places, fetched, times);
    // "b" has no details, "c" is unreachable for one participant, "d" has no travel times.
    assert_eq!(venues.len(), 1);
    let v = &venues[0];
    assert_eq!(v.place.place_id, "a");
    assert_eq!(v.address, "A");
    assert_eq!(v.google_url, "https://maps/A");
    assert_eq!(v.travel_times, vec![10, 30]);
    assert_eq!(v.total_travel_time, 40);
    assert_eq!(v.max_travel_time, 30);
    assert_eq!(v.min_travel_time, 10);
    assert_eq!(v.fairness_score, 20);
}

#[test]
fn places_with_the_same_id_share_the_last_fetched_details() {
    let places = vec![place("x", 0.0, 0.0), place("x", 1.0, 1.0), place("x", 2.0, 2.0)];
    let fetched = vec![details("first"), details("second"), None];
    let times = vec![vec![1], vec![2], vec![3]];
    let venues = assemble_venues(places, fetched, times);
    let addresses: Vec<&str> = venues.iter().map(|v| v.address.as_str()).collect();
    assert_eq!(addresses, vec!["second", "second", "second"]);
}

#[test]
fn details_from_reply() {
    let d = place_details_from(GooglePlaceDetailsNewResponse {
        formatted_address: "123 MG Road".to_string(),
        google_maps_uri: "https://maps.google.com/?cid=1".to_string(),
    });
    assert_eq!(d.address, "123 MG Road");
    assert_eq!(d.url, "https://maps.google.com/?cid=1");
}

#[test]
fn elements_without_a_travel_time_may_lie_outside_the_request() {
    // A third row and a fourth element, neither with an "OK" duration, are
    // ignored.
    let reply = GoogleDistanceMatrixResponse {
        status: "OK".to_string(),
        rows: vec![
            GoogleDistanceRow { elements: vec![element("OK", Some(120)), element("NOT_FOUND", Some(60))] },
            GoogleDistanceRow { elements: vec![element("OK", Some(180)), element("OK", Some(240)), element("OK", None)] },
            GoogleDistanceRow { elements: vec![element("ZERO_RESULTS", None)] },
        ],
    };
    let table = travel_times_from_matrix(&reply, 2, 2).unwrap();
    assert_eq!(table, vec![vec![2, 3], vec![0, 4]]);
}

#[test]
fn batches_cover_the_places_in_order() {
    assert_eq!(batch_bounds(0, 25), vec![]);
    assert_eq!(batch_bounds(7, 25), vec![(0, 7)]);
    assert_eq!(batch_bounds(25, 25), vec![(0, 25)]);
    assert_eq!(batch_bounds(23, 10), vec![(0, 10), (10, 20), (20, 23)]);
    assert_eq!(batch_bounds(20, 10), vec![(0, 10), (10, 20)]);
}
