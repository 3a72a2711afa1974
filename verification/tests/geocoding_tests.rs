use mmitm::geocoding::GeocodingService;
use mmitm::models::Coordinate;

fn coordinate(lat: f64, lng: f64) -> Coordinate {
    Coordinate { lat: lat.to_string(), lng: lng.to_string() }
}

#[test]
fn test_generate_directions_url() {
    let service = GeocodingService::new("test_key".to_string());
    let origin = coordinate(37.7749, -122.4194);
    let destination = coordinate(37.7849, -122.4094);

    let url = service.generate_directions_url(&origin, &destination, "drive");
    assert!(url.contains("google.com/maps/dir"));
    assert!(url.contains("37.7749"));
}

#[test]
fn test_generate_venue_url() {
    let service = GeocodingService::new("test_key".to_string());
    let coordinate = coordinate(37.7749, -122.4194);

    let url = service.generate_venue_url(&coordinate, Some("test_place_id"));
    assert!(url.contains("place_id:test_place_id"));

    let url_no_place_id = service.generate_venue_url(&coordinate, None);
    assert!(url_no_place_id.contains("37.7749"));
}

#[test]
fn directions_url_is_exact() {
    let service = GeocodingService::new("k".to_string());
    let url = service.generate_directions_url(&coordinate(1.5, 2.0), &coordinate(3.25, -4.0), "walk");
    assert_eq!(
        url,
        "https://www.google.com/maps/dir/1.5,2/3.25,-4/@3.25,-4,15z/data=!3m1!4b1!4m2!4m1!3e2"
    );
}

#[test]
fn directions_mode_codes_ignore_case() {
    let service = GeocodingService::new("k".to_string());
    let a = coordinate(0.0, 0.0);
    let code = |mode: &str| service.generate_directions_url(&a, &a, mode).chars().last().unwrap();
    assert_eq!(code("WALK"), '2');
    assert_eq!(code("Transit"), '3');
    assert_eq!(code("bicycle"), '1');
    assert_eq!(code("drive"), '0');
    assert_eq!(code("anything"), '0');
}

#[test]
fn venue_url_without_place_id_uses_the_position() {
    let service = GeocodingService::new("k".to_string());
    let url = service.generate_venue_url(&coordinate(12.5, 77.25), None);
    assert_eq!(url, "https://www.google.com/maps/search/?api=1&query=12.5,77.25");
}

#[test]
fn geocoding_reply_checks() {
    assert!(GeocodingService::check_geocoding_reply("OK", 1, "x").is_ok());
    assert_eq!(
        GeocodingService::check_geocoding_reply("ZERO_RESULTS", 0, "x").unwrap_err(),
        "Geocoding failed with status: ZERO_RESULTS"
    );
    assert_eq!(
        GeocodingService::check_geocoding_reply("OK", 0, "Main St").unwrap_err(),
        "No results found for address: Main St"
    );
}
