use mmitm::models::{Coordinate, PlaceCandidate, VenueWithTravelTimes};
use mmitm::ranking::RankingService;

fn create_test_venue(name: &str, travel_times: Vec<u32>) -> VenueWithTravelTimes {
    let total_time: u32 = travel_times.iter().sum();
    let max_time = *travel_times.iter().max().unwrap();
    let min_time = *travel_times.iter().min().unwrap();
    let fairness_score = (max_time - min_time) as u64;

    VenueWithTravelTimes {
        place: PlaceCandidate {
            place_id: format!("test_{}", name),
            name: name.to_string(),
            coordinate: Coordinate { lat: 0.0f64.to_string(), lng: 0.0f64.to_string() },
            types: vec!["restaurant".to_string()],
            rating: Some(4.0f64.to_string()),
            user_ratings_total: Some(100),
            price_level: Some("2".to_string()),
        },
        address: "Test Address".to_string(),
        google_url: "https://maps.google.com/test".to_string(),
        travel_times,
        total_travel_time: total_time,
        max_travel_time: max_time,
        min_travel_time: min_time,
        fairness_score,
    }
}

fn names(vs: &[VenueWithTravelTimes]) -> Vec<String> {
    vs.iter().map(|v| v.place.name.clone()).collect()
}

#[test]
fn test_rank_venues_fairness_priority() {
    let venues = vec![
        create_test_venue("unfair_fast", vec![10, 30]),
        create_test_venue("fair_slow", vec![25, 25]),
    ];

    let ranked = RankingService::rank_venues(venues, false);

    assert_eq!(ranked[0].place.name, "fair_slow");
    assert_eq!(ranked[1].place.name, "unfair_fast");
}

#[test]
fn test_rank_venues_two_participants_penalty() {
    let venues = vec![
        create_test_venue("big_imbalance", vec![10, 25]),
        create_test_venue("small_imbalance", vec![15, 20]),
    ];

    let ranked = RankingService::rank_venues(venues, true);

    assert_eq!(ranked[0].place.name, "small_imbalance");
    assert_eq!(ranked[1].place.name, "big_imbalance");
}

#[test]
fn penalty_adds_twice_the_spread_for_two_participants() {
    let venues = vec![create_test_venue("a", vec![10, 25]), create_test_venue("b", vec![10, 20])];
    let ranked = RankingService::rank_venues(venues, true);
    // "b" has a spread of 10: not penalized.
    assert_eq!(ranked[0].place.name, "b");
    assert_eq!(ranked[0].fairness_score, 10);
    // "a" has a spread of 15: 15 + 2 * 15.
    assert_eq!(ranked[1].fairness_score, 45);
}

#[test]
fn no_penalty_for_more_than_two_participants() {
    let venues = vec![create_test_venue("a", vec![10, 25, 12])];
    let ranked = RankingService::rank_venues(venues, false);
    assert_eq!(ranked[0].fairness_score, 15);
}

#[test]
fn total_time_breaks_ties_and_ties_keep_their_order() {
    let venues = vec![
        create_test_venue("slow", vec![30, 30]),
        create_test_venue("first_fast", vec![20, 20]),
        create_test_venue("second_fast", vec![20, 20]),
        create_test_venue("unfair", vec![1, 5]),
    ];
    let ranked = RankingService::rank_venues(venues, false);
    assert_eq!(names(&ranked), vec!["first_fast", "second_fast", "slow", "unfair"]);
}

#[test]
fn ranking_a_ranked_list_keeps_it() {
    let venues = vec![
        create_test_venue("a", vec![20, 20]),
        create_test_venue("b", vec![20, 20]),
        create_test_venue("c", vec![30, 31]),
    ];
    let once = RankingService::rank_venues(venues, false);
    let first = names(&once);
    let twice = RankingService::rank_venues(once, false);
    assert_eq!(names(&twice), first);
}

#[test]
fn ranking_nothing_gives_nothing() {
    let ranked = RankingService::rank_venues(vec![], true);
    assert!(ranked.is_empty());
}
