use mmitm::error::AppError;
use mmitm::geocoding::GeocodingService;
use mmitm::geometry::{CenterMethod, GeometryService};
use mmitm::models::{
    default_limit, Coordinate, ParticipantInput, PlaceCandidate, RecommendationRequest,
    TransportMode, VenueWithTravelTimes,
};
use mmitm::recommendations::{
    build_recommendations, recommend_from_venues, transport_label_of, validate_recommendation_request,
};

fn at(lat: &str, lng: &str) -> Coordinate {
    Coordinate { lat: lat.to_string(), lng: lng.to_string() }
}

fn req(n: usize, categories: &[&str]) -> RecommendationRequest {
    RecommendationRequest {
        participants: (0..n).map(|i| ParticipantInput::Address { address: format!("a{}", i) }).collect(),
        categories: categories.iter().map(|c| c.to_string()).collect(),
        limit: default_limit(),
        transport_mode: TransportMode::default(),
    }
}

fn message(r: Result<(), AppError>) -> String {
    match r {
        Err(AppError::BadRequest(m)) => m,
        other => panic!("unexpected {:?}", other),
    }
}

#[test]
fn defaults() {
    assert_eq!(default_limit(), 10);
    assert_eq!(TransportMode::default(), TransportMode::Drive);
}

#[test]
fn request_checks_in_order() {
    assert_eq!(message(validate_recommendation_request(&req(1, &[]))), "At least 2 participants are required");
    assert_eq!(message(validate_recommendation_request(&req(2, &[]))), "At least one category is required");
    assert_eq!(
        message(validate_recommendation_request(&req(3, &["cafe", "nope"]))),
        "Invalid place types: Invalid place types: nope. See Google Places API documentation for valid types."
    );
    assert!(validate_recommendation_request(&req(2, &["cafe", "bar"])).is_ok());
}

#[test]
fn search_area_rules() {
    let e = GeometryService::search_area_rule(1).unwrap_err();
    assert_eq!(e.status_code(), 400);
    let two = GeometryService::search_area_rule(2).unwrap();
    assert_eq!((two.method, two.added_meters, two.cap_meters), (CenterMethod::Midpoint, 1000, 5000));
    let five = GeometryService::search_area_rule(5).unwrap();
    assert_eq!((five.method, five.added_meters, five.cap_meters), (CenterMethod::Centroid, 2000, 50000));
}

fn venue(name: &str, types: Vec<&str>, times: Vec<u32>) -> VenueWithTravelTimes {
    VenueWithTravelTimes {
        place: PlaceCandidate {
            place_id: format!("pid_{}", name),
            name: name.to_string(),
            coordinate: at("12.5", "77.5"),
            types: types.into_iter().map(|t| t.to_string()).collect(),
            rating: Some("4.5".to_string()),
            user_ratings_total: Some(250),
            price_level: Some("PRICE_LEVEL_MODERATE".to_string()),
        },
        address: format!("{} street", name),
        google_url: "https://maps.google.com/x".to_string(),
        total_travel_time: times.iter().sum(),
        max_travel_time: *times.iter().max().unwrap(),
        min_travel_time: *times.iter().min().unwrap(),
        fairness_score: 0,
        travel_times: times,
    }
}

#[test]
fn recommendations_from_ranked_venues() {
    let participants = vec![at("1", "2"), at("3", "4")];
    let ranked = vec![
        venue("first", vec!["cafe", "bar"], vec![12, 15]),
        venue("second", vec![], vec![20, 21]),
        venue("third", vec!["bar"], vec![30, 31]),
    ];
    let geocoding = GeocodingService::new("k".to_string());
    let recs = build_recommendations(ranked, &participants, TransportMode::Walk, 2, &geocoding);
    assert_eq!(recs.len(), 2);
    let r = &recs[0];
    assert_eq!(r.name, "first");
    assert_eq!(r.address, "first street");
    assert_eq!((r.lat.as_str(), r.lng.as_str()), ("12.5", "77.5"));
    assert_eq!(r.rating.as_deref(), Some("4.5"));
    assert_eq!(r.reviews, Some(250));
    assert_eq!(r.google_maps_url, "https://www.google.com/maps/place/?q=place_id:pid_first");
    assert_eq!(r.category, "cafe");
    assert_eq!(r.price_level.as_deref(), Some("PRICE_LEVEL_MODERATE"));
    assert_eq!(r.travel_times.len(), 2);
    assert_eq!(r.travel_times[1].participant_index, 1);
    assert_eq!(r.travel_times[1].travel_time_minutes, 15);
    assert_eq!(r.travel_times[1].transport_mode, "WALK");
    assert_eq!(
        r.travel_times[1].google_maps_directions_url,
        "https://www.google.com/maps/dir/3,4/12.5,77.5/@12.5,77.5,15z/data=!3m1!4b1!4m2!4m1!3e2"
    );
    assert_eq!(recs[1].category, "unknown");
    assert_eq!(transport_label_of(TransportMode::Bicycle), "BICYCLE");
    assert_eq!(transport_label_of(TransportMode::Drive), "DRIVE");
    assert_eq!(transport_label_of(TransportMode::Transit), "TRANSIT");
}

#[test]
fn limit_larger_than_the_list() {
    let participants = vec![at("1", "2")];
    let geocoding = GeocodingService::new("k".to_string());
    let recs = build_recommendations(vec![venue("only", vec!["cafe"], vec![5])], &participants, TransportMode::Drive, 10, &geocoding);
    assert_eq!(recs.len(), 1);
    assert!(recs[0].travel_times[0].google_maps_directions_url.ends_with("3e0"));
}

fn scored(name: &str, times: Vec<u32>) -> VenueWithTravelTimes {
    let mut v = venue(name, vec!["cafe"], times);
    v.fairness_score = (v.max_travel_time - v.min_travel_time) as u64;
    v
}

#[test]
fn answer_is_the_head_of_the_ranking() {
    // Two participants: "lopsided" (10 vs 30, spread 20) is penalized to
    // 20 + 40 = 60; "even" (25 vs 27, spread 2) stays at 2; "close" (20 vs
    // 25, spread 5) stays at 5.
    let participants = vec![at("1", "2"), at("3", "4")];
    let venues = vec![scored("lopsided", vec![10, 30]), scored("even", vec![25, 27]), scored("close", vec![20, 25])];
    let geocoding = GeocodingService::new("k".to_string());
    let recs = recommend_from_venues(venues, &participants, TransportMode::Drive, 2, &geocoding);
    assert_eq!(recs.len(), 2);
    assert_eq!(recs[0].name, "even");
    assert_eq!(recs[1].name, "close");
    for r in &recs {
        assert_eq!(r.travel_times.len(), 2);
        for (k, t) in r.travel_times.iter().enumerate() {
            assert_eq!(t.participant_index, k);
            assert_eq!(t.transport_mode, "DRIVE");
            assert!(t.google_maps_directions_url.ends_with("3e0"));
        }
    }
    assert_eq!(recs[0].travel_times[1].travel_time_minutes, 27);
}

#[test]
fn answer_with_limit_beyond_the_venues() {
    let participants = vec![at("1", "2"), at("3", "4"), at("5", "6")];
    let venues = vec![scored("a", vec![10, 30, 20]), scored("b", vec![25, 27, 26])];
    let geocoding = GeocodingService::new("k".to_string());
    let recs = recommend_from_venues(venues, &participants, TransportMode::Transit, 10, &geocoding);
    // Three participants: no penalty; "b" (spread 2) before "a" (spread 20).
    assert_eq!(recs.len(), 2);
    assert_eq!(recs[0].name, "b");
    assert_eq!(recs[1].name, "a");
    assert!(recs[0].travel_times[2].google_maps_directions_url.ends_with("3e3"));
    assert_eq!(recs[0].travel_times[2].transport_mode, "TRANSIT");
}
