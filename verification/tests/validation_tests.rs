use mmitm::validation::PlaceTypeValidator;

#[test]
fn test_valid_place_types() {
    let types = vec!["restaurant".to_string(), "cafe".to_string()];
    assert!(PlaceTypeValidator::validate_place_types(&types).is_ok());
}

#[test]
fn test_invalid_place_types() {
    let types = vec!["invalid_type".to_string(), "another_invalid".to_string()];
    assert!(PlaceTypeValidator::validate_place_types(&types).is_err());
}

#[test]
fn test_mixed_valid_invalid_types() {
    let types = vec!["restaurant".to_string(), "invalid_type".to_string()];
    let result = PlaceTypeValidator::validate_place_types(&types);
    assert!(result.is_err());
    assert!(result.unwrap_err().contains("invalid_type"));
}

#[test]
fn invalid_types_are_listed_in_order() {
    let types = vec![
        "zzz".to_string(),
        "cafe".to_string(),
        "aaa".to_string(),
    ];
    let result = PlaceTypeValidator::validate_place_types(&types);
    assert_eq!(
        result.unwrap_err(),
        "Invalid place types: zzz, aaa. See Google Places API documentation for valid types."
    );
}

#[test]
fn empty_category_list_is_accepted() {
    let types: Vec<String> = vec![];
    assert!(PlaceTypeValidator::validate_place_types(&types).is_ok());
}

#[test]
fn every_listed_type_is_accepted() {
    let all: Vec<String> = PlaceTypeValidator::get_valid_place_types()
        .iter()
        .map(|s| s.to_string())
        .collect();
    assert_eq!(all.len(), 87);
    let distinct: std::collections::HashSet<&String> = all.iter().collect();
    assert_eq!(distinct.len(), 87);
    assert!(all.iter().any(|t| t == "restaurant"));
    assert!(all.iter().any(|t| t == "moving_company"));
    assert_eq!(all.iter().filter(|t| t.as_str() == "dentist").count(), 1);
    assert!(!all.iter().any(|t| t == "Restaurant"));
    assert!(PlaceTypeValidator::validate_place_types(&all).is_ok());
}

#[test]
fn place_type_check_is_case_sensitive() {
    let types = vec!["Restaurant".to_string()];
    assert!(PlaceTypeValidator::validate_place_types(&types).is_err());
}
