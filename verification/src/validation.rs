//! Which Google place types a request may ask for.
use vstd::prelude::*;

use crate::models::texts;
use crate::text::{concat, join, join_texts, same_text};

verus! {

/// Checks requested categories against the supported place types.
pub struct PlaceTypeValidator;

/// The supported place types (Places API, New; the commonly used part of
/// Table A). No type is listed twice.
pub const VALID_PLACE_TYPES: [&'static str; 87] = [
    // Food & drink
    "restaurant", "cafe", "bar", "bakery", "meal_takeaway", "meal_delivery",
    "food", "pizza_restaurant", "fast_food_restaurant",
    // Entertainment
    "movie_theater", "museum", "art_gallery", "night_club", "bowling_alley",
    "casino", "tourist_attraction",
    // Recreation
    "park", "zoo", "stadium", "gym", "spa", "aquarium", "amusement_park",
    // Shopping
    "shopping_mall", "store", "book_store", "clothing_store", "department_store",
    "electronics_store", "furniture_store", "grocery_store", "hardware_store",
    "jewelry_store", "liquor_store", "pet_store", "pharmacy", "shoe_store",
    "convenience_store",
    // Services
    "bank", "atm", "hospital", "dentist", "doctor", "veterinary_care",
    "hair_care", "beauty_salon", "laundry", "car_wash", "gas_station",
    // Transportation
    "bus_station", "subway_station", "train_station", "airport", "taxi_stand",
    "parking",
    // Accommodation
    "lodging", "hotel", "rv_park", "campground",
    // Public services
    "library", "post_office", "police", "fire_station", "city_hall", "courthouse",
    "embassy", "local_government_office",
    // Education
    "school", "university", "primary_school", "secondary_school",
    // Places of worship
    "place_of_worship", "church", "mosque", "synagogue", "temple",
    // Others
    "real_estate_agency", "travel_agency", "insurance_agency", "lawyer",
    "accounting", "physiotherapist", "roofing_contractor",
    "electrician", "plumber", "locksmith", "moving_company",
];

/// Whether `t` is a supported place type.
pub open spec fn is_valid_place_type(t: Seq<char>) -> bool {
    exists|k: int| 0 <= k < 87 && (#[trigger] VALID_PLACE_TYPES@[k])@ == t
}

/// The position of `t` in the list of supported place types (87 when it is
/// not there).
pub open spec fn type_position(t: Seq<char>) -> int {
    if t == "restaurant"@ {
        0
    } else if t == "cafe"@ {
        1
    } else if t == "bar"@ {
        2
    } else if t == "bakery"@ {
        3
    } else if t == "meal_takeaway"@ {
        4
    } else if t == "meal_delivery"@ {
        5
    } else if t == "food"@ {
        6
    } else if t == "pizza_restaurant"@ {
        7
    } else if t == "fast_food_restaurant"@ {
        8
    } else if t == "movie_theater"@ {
        9
    } else if t == "museum"@ {
        10
    } else if t == "art_gallery"@ {
        11
    } else if t == "night_club"@ {
        12
    } else if t == "bowling_alley"@ {
        13
    } else if t == "casino"@ {
        14
    } else if t == "tourist_attraction"@ {
        15
    } else if t == "park"@ {
        16
    } else if t == "zoo"@ {
        17
    } else if t == "stadium"@ {
        18
    } else if t == "gym"@ {
        19
    } else if t == "spa"@ {
        20
    } else if t == "aquarium"@ {
        21
    } else if t == "amusement_park"@ {
        22
    } else if t == "shopping_mall"@ {
        23
    } else if t == "store"@ {
        24
    } else if t == "book_store"@ {
        25
    } else if t == "clothing_store"@ {
        26
    } else if t == "department_store"@ {
        27
    } else if t == "electronics_store"@ {
        28
    } else if t == "furniture_store"@ {
        29
    } else if t == "grocery_store"@ {
        30
    } else if t == "hardware_store"@ {
        31
    } else if t == "jewelry_store"@ {
        32
    } else if t == "liquor_store"@ {
        33
    } else if t == "pet_store"@ {
        34
    } else if t == "pharmacy"@ {
        35
    } else if t == "shoe_store"@ {
        36
    } else if t == "convenience_store"@ {
        37
    } else if t == "bank"@ {
        38
    } else if t == "atm"@ {
        39
    } else if t == "hospital"@ {
        40
    } else if t == "dentist"@ {
        41
    } else if t == "doctor"@ {
        42
    } else if t == "veterinary_care"@ {
        43
    } else if t == "hair_care"@ {
        44
    } else if t == "beauty_salon"@ {
        45
    } else if t == "laundry"@ {
        46
    } else if t == "car_wash"@ {
        47
    } else if t == "gas_station"@ {
        48
    } else if t == "bus_station"@ {
        49
    } else if t == "subway_station"@ {
        50
    } else if t == "train_station"@ {
        51
    } else if t == "airport"@ {
        52
    } else if t == "taxi_stand"@ {
        53
    } else if t == "parking"@ {
        54
    } else if t == "lodging"@ {
        55
    } else if t == "hotel"@ {
        56
    } else if t == "rv_park"@ {
        57
    } else if t == "campground"@ {
        58
    } else if t == "library"@ {
        59
    } else if t == "post_office"@ {
        60
    } else if t == "police"@ {
        61
    } else if t == "fire_station"@ {
        62
    } else if t == "city_hall"@ {
        63
    } else if t == "courthouse"@ {
        64
    } else if t == "embassy"@ {
        65
    } else if t == "local_government_office"@ {
        66
    } else if t == "school"@ {
        67
    } else if t == "university"@ {
        68
    } else if t == "primary_school"@ {
        69
    } else if t == "secondary_school"@ {
        70
    } else if t == "place_of_worship"@ {
        71
    } else if t == "church"@ {
        72
    } else if t == "mosque"@ {
        73
    } else if t == "synagogue"@ {
        74
    } else if t == "temple"@ {
        75
    } else if t == "real_estate_agency"@ {
        76
    } else if t == "travel_agency"@ {
        77
    } else if t == "insurance_agency"@ {
        78
    } else if t == "lawyer"@ {
        79
    } else if t == "accounting"@ {
        80
    } else if t == "physiotherapist"@ {
        81
    } else if t == "roofing_contractor"@ {
        82
    } else if t == "electrician"@ {
        83
    } else if t == "plumber"@ {
        84
    } else if t == "locksmith"@ {
        85
    } else if t == "moving_company"@ {
        86
    } else {
        87
    }
}

/// Each supported place type is found at its own position, so no type is
/// listed twice.
#[verifier::rlimit(100)]
pub proof fn lemma_types_distinct()
    ensures
        forall|i: int| 0 <= i < 87 ==> type_position(#[trigger] VALID_PLACE_TYPES@[i]@) == i,
        forall|i: int, j: int|
            0 <= i < 87 && 0 <= j < 87 && i != j ==> (#[trigger] VALID_PLACE_TYPES@[i])@
                != (#[trigger] VALID_PLACE_TYPES@[j])@,
{
    // Each type's text, and its length: types of different lengths differ.
    reveal_strlit("restaurant");
    assert("restaurant"@.len() == 10);
    reveal_strlit("cafe");
    assert("cafe"@.len() == 4);
    reveal_strlit("bar");
    assert("bar"@.len() == 3);
    reveal_strlit("bakery");
    assert("bakery"@.len() == 6);
    reveal_strlit("meal_takeaway");
    assert("meal_takeaway"@.len() == 13);
    reveal_strlit("meal_delivery");
    assert("meal_delivery"@.len() == 13);
    reveal_strlit("food");
    assert("food"@.len() == 4);
    reveal_strlit("pizza_restaurant");
    assert("pizza_restaurant"@.len() == 16);
    reveal_strlit("fast_food_restaurant");
    assert("fast_food_restaurant"@.len() == 20);
    reveal_strlit("movie_theater");
    assert("movie_theater"@.len() == 13);
    reveal_strlit("museum");
    assert("museum"@.len() == 6);
    reveal_strlit("art_gallery");
    assert("art_gallery"@.len() == 11);
    reveal_strlit("night_club");
    assert("night_club"@.len() == 10);
    reveal_strlit("bowling_alley");
    assert("bowling_alley"@.len() == 13);
    reveal_strlit("casino");
    assert("casino"@.len() == 6);
    reveal_strlit("tourist_attraction");
    assert("tourist_attraction"@.len() == 18);
    reveal_strlit("park");
    assert("park"@.len() == 4);
    reveal_strlit("zoo");
    assert("zoo"@.len() == 3);
    reveal_strlit("stadium");
    assert("stadium"@.len() == 7);
    reveal_strlit("gym");
    assert("gym"@.len() == 3);
    reveal_strlit("spa");
    assert("spa"@.len() == 3);
    reveal_strlit("aquarium");
    assert("aquarium"@.len() == 8);
    reveal_strlit("amusement_park");
    assert("amusement_park"@.len() == 14);
    reveal_strlit("shopping_mall");
    assert("shopping_mall"@.len() == 13);
    reveal_strlit("store");
    assert("store"@.len() == 5);
    reveal_strlit("book_store");
    assert("book_store"@.len() == 10);
    reveal_strlit("clothing_store");
    assert("clothing_store"@.len() == 14);
    reveal_strlit("department_store");
    assert("department_store"@.len() == 16);
    reveal_strlit("electronics_store");
    assert("electronics_store"@.len() == 17);
    reveal_strlit("furniture_store");
    assert("furniture_store"@.len() == 15);
    reveal_strlit("grocery_store");
    assert("grocery_store"@.len() == 13);
    reveal_strlit("hardware_store");
    assert("hardware_store"@.len() == 14);
    reveal_strlit("jewelry_store");
    assert("jewelry_store"@.len() == 13);
    reveal_strlit("liquor_store");
    assert("liquor_store"@.len() == 12);
    reveal_strlit("pet_store");
    assert("pet_store"@.len() == 9);
    reveal_strlit("pharmacy");
    assert("pharmacy"@.len() == 8);
    reveal_strlit("shoe_store");
    assert("shoe_store"@.len() == 10);
    reveal_strlit("convenience_store");
    assert("convenience_store"@.len() == 17);
    reveal_strlit("bank");
    assert("bank"@.len() == 4);
    reveal_strlit("atm");
    assert("atm"@.len() == 3);
    reveal_strlit("hospital");
    assert("hospital"@.len() == 8);
    reveal_strlit("dentist");
    assert("dentist"@.len() == 7);
    reveal_strlit("doctor");
    assert("doctor"@.len() == 6);
    reveal_strlit("veterinary_care");
    assert("veterinary_care"@.len() == 15);
    reveal_strlit("hair_care");
    assert("hair_care"@.len() == 9);
    reveal_strlit("beauty_salon");
    assert("beauty_salon"@.len() == 12);
    reveal_strlit("laundry");
    assert("laundry"@.len() == 7);
    reveal_strlit("car_wash");
    assert("car_wash"@.len() == 8);
    reveal_strlit("gas_station");
    assert("gas_station"@.len() == 11);
    reveal_strlit("bus_station");
    assert("bus_station"@.len() == 11);
    reveal_strlit("subway_station");
    assert("subway_station"@.len() == 14);
    reveal_strlit("train_station");
    assert("train_station"@.len() == 13);
    reveal_strlit("airport");
    assert("airport"@.len() == 7);
    reveal_strlit("taxi_stand");
    assert("taxi_stand"@.len() == 10);
    reveal_strlit("parking");
    assert("parking"@.len() == 7);
    reveal_strlit("lodging");
    assert("lodging"@.len() == 7);
    reveal_strlit("hotel");
    assert("hotel"@.len() == 5);
    reveal_strlit("rv_park");
    assert("rv_park"@.len() == 7);
    reveal_strlit("campground");
    assert("campground"@.len() == 10);
    reveal_strlit("library");
    assert("library"@.len() == 7);
    reveal_strlit("post_office");
    assert("post_office"@.len() == 11);
    reveal_strlit("police");
    assert("police"@.len() == 6);
    reveal_strlit("fire_station");
    assert("fire_station"@.len() == 12);
    reveal_strlit("city_hall");
    assert("city_hall"@.len() == 9);
    reveal_strlit("courthouse");
    assert("courthouse"@.len() == 10);
    reveal_strlit("embassy");
    assert("embassy"@.len() == 7);
    reveal_strlit("local_government_office");
    assert("local_government_office"@.len() == 23);
    reveal_strlit("school");
    assert("school"@.len() == 6);
    reveal_strlit("university");
    assert("university"@.len() == 10);
    reveal_strlit("primary_school");
    assert("primary_school"@.len() == 14);
    reveal_strlit("secondary_school");
    assert("secondary_school"@.len() == 16);
    reveal_strlit("place_of_worship");
    assert("place_of_worship"@.len() == 16);
    reveal_strlit("church");
    assert("church"@.len() == 6);
    reveal_strlit("mosque");
    assert("mosque"@.len() == 6);
    reveal_strlit("synagogue");
    assert("synagogue"@.len() == 9);
    reveal_strlit("temple");
    assert("temple"@.len() == 6);
    reveal_strlit("real_estate_agency");
    assert("real_estate_agency"@.len() == 18);
    reveal_strlit("travel_agency");
    assert("travel_agency"@.len() == 13);
    reveal_strlit("insurance_agency");
    assert("insurance_agency"@.len() == 16);
    reveal_strlit("lawyer");
    assert("lawyer"@.len() == 6);
    reveal_strlit("accounting");
    assert("accounting"@.len() == 10);
    reveal_strlit("physiotherapist");
    assert("physiotherapist"@.len() == 15);
    reveal_strlit("roofing_contractor");
    assert("roofing_contractor"@.len() == 18);
    reveal_strlit("electrician");
    assert("electrician"@.len() == 11);
    reveal_strlit("plumber");
    assert("plumber"@.len() == 7);
    reveal_strlit("locksmith");
    assert("locksmith"@.len() == 9);
    reveal_strlit("moving_company");
    assert("moving_company"@.len() == 14);
    // Types of the same length differ at their first differing character.
    assert("restaurant"@[0] != "night_club"@[0]);
    assert("restaurant"@[0] != "book_store"@[0]);
    assert("restaurant"@[0] != "shoe_store"@[0]);
    assert("restaurant"@[0] != "taxi_stand"@[0]);
    assert("restaurant"@[0] != "campground"@[0]);
    assert("restaurant"@[0] != "courthouse"@[0]);
    assert("restaurant"@[0] != "university"@[0]);
    assert("restaurant"@[0] != "accounting"@[0]);
    assert("cafe"@[0] != "food"@[0]);
    assert("cafe"@[0] != "park"@[0]);
    assert("cafe"@[0] != "bank"@[0]);
    assert("bar"@[0] != "zoo"@[0]);
    assert("bar"@[0] != "gym"@[0]);
    assert("bar"@[0] != "spa"@[0]);
    assert("bar"@[0] != "atm"@[0]);
    assert("bakery"@[0] != "museum"@[0]);
    assert("bakery"@[0] != "casino"@[0]);
    assert("bakery"@[0] != "doctor"@[0]);
    assert("bakery"@[0] != "police"@[0]);
    assert("bakery"@[0] != "school"@[0]);
    assert("bakery"@[0] != "church"@[0]);
    assert("bakery"@[0] != "mosque"@[0]);
    assert("bakery"@[0] != "temple"@[0]);
    assert("bakery"@[0] != "lawyer"@[0]);
    assert("meal_takeaway"@[5] != "meal_delivery"@[5]);
    assert("meal_takeaway"@[1] != "movie_theater"@[1]);
    assert("meal_takeaway"@[0] != "bowling_alley"@[0]);
    assert("meal_takeaway"@[0] != "shopping_mall"@[0]);
    assert("meal_takeaway"@[0] != "grocery_store"@[0]);
    assert("meal_takeaway"@[0] != "jewelry_store"@[0]);
    assert("meal_takeaway"@[0] != "train_station"@[0]);
    assert("meal_takeaway"@[0] != "travel_agency"@[0]);
    assert("meal_delivery"@[1] != "movie_theater"@[1]);
    assert("meal_delivery"@[0] != "bowling_alley"@[0]);
    assert("meal_delivery"@[0] != "shopping_mall"@[0]);
    assert("meal_delivery"@[0] != "grocery_store"@[0]);
    assert("meal_delivery"@[0] != "jewelry_store"@[0]);
    assert("meal_delivery"@[0] != "train_station"@[0]);
    assert("meal_delivery"@[0] != "travel_agency"@[0]);
    assert("food"@[0] != "park"@[0]);
    assert("food"@[0] != "bank"@[0]);
    assert("pizza_restaurant"@[0] != "department_store"@[0]);
    assert("pizza_restaurant"@[0] != "secondary_school"@[0]);
    assert("pizza_restaurant"@[1] != "place_of_worship"@[1]);
    assert("pizza_restaurant"@[0] != "insurance_agency"@[0]);
    assert("movie_theater"@[0] != "bowling_alley"@[0]);
    assert("movie_theater"@[0] != "shopping_mall"@[0]);
    assert("movie_theater"@[0] != "grocery_store"@[0]);
    assert("movie_theater"@[0] != "jewelry_store"@[0]);
    assert("movie_theater"@[0] != "train_station"@[0]);
    assert("movie_theater"@[0] != "travel_agency"@[0]);
    assert("museum"@[0] != "casino"@[0]);
    assert("museum"@[0] != "doctor"@[0]);
    assert("museum"@[0] != "police"@[0]);
    assert("museum"@[0] != "school"@[0]);
    assert("museum"@[0] != "church"@[0]);
    assert("museum"@[1] != "mosque"@[1]);
    assert("museum"@[0] != "temple"@[0]);
    assert("museum"@[0] != "lawyer"@[0]);
    assert("art_gallery"@[0] != "gas_station"@[0]);
    assert("art_gallery"@[0] != "bus_station"@[0]);
    assert("art_gallery"@[0] != "post_office"@[0]);
    assert("art_gallery"@[0] != "electrician"@[0]);
    assert("night_club"@[0] != "book_store"@[0]);
    assert("night_club"@[0] != "shoe_store"@[0]);
    assert("night_club"@[0] != "taxi_stand"@[0]);
    assert("night_club"@[0] != "campground"@[0]);
    assert("night_club"@[0] != "courthouse"@[0]);
    assert("night_club"@[0] != "university"@[0]);
    assert("night_club"@[0] != "accounting"@[0]);
    assert("bowling_alley"@[0] != "shopping_mall"@[0]);
    assert("bowling_alley"@[0] != "grocery_store"@[0]);
    assert("bowling_alley"@[0] != "jewelry_store"@[0]);
    assert("bowling_alley"@[0] != "train_station"@[0]);
    assert("bowling_alley"@[0] != "travel_agency"@[0]);
    assert("casino"@[0] != "doctor"@[0]);
    assert("casino"@[0] != "police"@[0]);
    assert("casino"@[0] != "school"@[0]);
    assert("casino"@[1] != "church"@[1]);
    assert("casino"@[0] != "mosque"@[0]);
    assert("casino"@[0] != "temple"@[0]);
    assert("casino"@[0] != "lawyer"@[0]);
    assert("tourist_attraction"@[0] != "real_estate_agency"@[0]);
    assert("tourist_attraction"@[0] != "roofing_contractor"@[0]);
    assert("park"@[0] != "bank"@[0]);
    assert("zoo"@[0] != "gym"@[0]);
    assert("zoo"@[0] != "spa"@[0]);
    assert("zoo"@[0] != "atm"@[0]);
    assert("stadium"@[0] != "dentist"@[0]);
    assert("stadium"@[0] != "laundry"@[0]);
    assert("stadium"@[0] != "airport"@[0]);
    assert("stadium"@[0] != "parking"@[0]);
    assert("stadium"@[0] != "lodging"@[0]);
    assert("stadium"@[0] != "rv_park"@[0]);
    assert("stadium"@[0] != "library"@[0]);
    assert("stadium"@[0] != "embassy"@[0]);
    assert("stadium"@[0] != "plumber"@[0]);
    assert("gym"@[0] != "spa"@[0]);
    assert("gym"@[0] != "atm"@[0]);
    assert("spa"@[0] != "atm"@[0]);
    assert("aquarium"@[0] != "pharmacy"@[0]);
    assert("aquarium"@[0] != "hospital"@[0]);
    assert("aquarium"@[0] != "car_wash"@[0]);
    assert("amusement_park"@[0] != "clothing_store"@[0]);
    assert("amusement_park"@[0] != "hardware_store"@[0]);
    assert("amusement_park"@[0] != "subway_station"@[0]);
    assert("amusement_park"@[0] != "primary_school"@[0]);
    assert("amusement_park"@[0] != "moving_company"@[0]);
    assert("shopping_mall"@[0] != "grocery_store"@[0]);
    assert("shopping_mall"@[0] != "jewelry_store"@[0]);
    assert("shopping_mall"@[0] != "train_station"@[0]);
    assert("shopping_mall"@[0] != "travel_agency"@[0]);
    assert("store"@[0] != "hotel"@[0]);
    assert("book_store"@[0] != "shoe_store"@[0]);
    assert("book_store"@[0] != "taxi_stand"@[0]);
    assert("book_store"@[0] != "campground"@[0]);
    assert("book_store"@[0] != "courthouse"@[0]);
    assert("book_store"@[0] != "university"@[0]);
    assert("book_store"@[0] != "accounting"@[0]);
    assert("clothing_store"@[0] != "hardware_store"@[0]);
    assert("clothing_store"@[0] != "subway_station"@[0]);
    assert("clothing_store"@[0] != "primary_school"@[0]);
    assert("clothing_store"@[0] != "moving_company"@[0]);
    assert("department_store"@[0] != "secondary_school"@[0]);
    assert("department_store"@[0] != "place_of_worship"@[0]);
    assert("department_store"@[0] != "insurance_agency"@[0]);
    assert("electronics_store"@[0] != "convenience_store"@[0]);
    assert("furniture_store"@[0] != "veterinary_care"@[0]);
    assert("furniture_store"@[0] != "physiotherapist"@[0]);
    assert("grocery_store"@[0] != "jewelry_store"@[0]);
    assert("grocery_store"@[0] != "train_station"@[0]);
    assert("grocery_store"@[0] != "travel_agency"@[0]);
    assert("hardware_store"@[0] != "subway_station"@[0]);
    assert("hardware_store"@[0] != "primary_school"@[0]);
    assert("hardware_store"@[0] != "moving_company"@[0]);
    assert("jewelry_store"@[0] != "train_station"@[0]);
    assert("jewelry_store"@[0] != "travel_agency"@[0]);
    assert("liquor_store"@[0] != "beauty_salon"@[0]);
    assert("liquor_store"@[0] != "fire_station"@[0]);
    assert("pet_store"@[0] != "hair_care"@[0]);
    assert("pet_store"@[0] != "city_hall"@[0]);
    assert("pet_store"@[0] != "synagogue"@[0]);
    assert("pet_store"@[0] != "locksmith"@[0]);
    assert("pharmacy"@[0] != "hospital"@[0]);
    assert("pharmacy"@[0] != "car_wash"@[0]);
    assert("shoe_store"@[0] != "taxi_stand"@[0]);
    assert("shoe_store"@[0] != "campground"@[0]);
    assert("shoe_store"@[0] != "courthouse"@[0]);
    assert("shoe_store"@[0] != "university"@[0]);
    assert("shoe_store"@[0] != "accounting"@[0]);
    assert("hospital"@[0] != "car_wash"@[0]);
    assert("dentist"@[0] != "laundry"@[0]);
    assert("dentist"@[0] != "airport"@[0]);
    assert("dentist"@[0] != "parking"@[0]);
    assert("dentist"@[0] != "lodging"@[0]);
    assert("dentist"@[0] != "rv_park"@[0]);
    assert("dentist"@[0] != "library"@[0]);
    assert("dentist"@[0] != "embassy"@[0]);
    assert("dentist"@[0] != "plumber"@[0]);
    assert("doctor"@[0] != "police"@[0]);
    assert("doctor"@[0] != "school"@[0]);
    assert("doctor"@[0] != "church"@[0]);
    assert("doctor"@[0] != "mosque"@[0]);
    assert("doctor"@[0] != "temple"@[0]);
    assert("doctor"@[0] != "lawyer"@[0]);
    assert("veterinary_care"@[0] != "physiotherapist"@[0]);
    assert("hair_care"@[0] != "city_hall"@[0]);
    assert("hair_care"@[0] != "synagogue"@[0]);
    assert("hair_care"@[0] != "locksmith"@[0]);
    assert("beauty_salon"@[0] != "fire_station"@[0]);
    assert("laundry"@[0] != "airport"@[0]);
    assert("laundry"@[0] != "parking"@[0]);
    assert("laundry"@[1] != "lodging"@[1]);
    assert("laundry"@[0] != "rv_park"@[0]);
    assert("laundry"@[1] != "library"@[1]);
    assert("laundry"@[0] != "embassy"@[0]);
    assert("laundry"@[0] != "plumber"@[0]);
    assert("gas_station"@[0] != "bus_station"@[0]);
    assert("gas_station"@[0] != "post_office"@[0]);
    assert("gas_station"@[0] != "electrician"@[0]);
    assert("bus_station"@[0] != "post_office"@[0]);
    assert("bus_station"@[0] != "electrician"@[0]);
    assert("subway_station"@[0] != "primary_school"@[0]);
    assert("subway_station"@[0] != "moving_company"@[0]);
    assert("train_station"@[3] != "travel_agency"@[3]);
    assert("airport"@[0] != "parking"@[0]);
    assert("airport"@[0] != "lodging"@[0]);
    assert("airport"@[0] != "rv_park"@[0]);
    assert("airport"@[0] != "library"@[0]);
    assert("airport"@[0] != "embassy"@[0]);
    assert("airport"@[0] != "plumber"@[0]);
    assert("taxi_stand"@[0] != "campground"@[0]);
    assert("taxi_stand"@[0] != "courthouse"@[0]);
    assert("taxi_stand"@[0] != "university"@[0]);
    assert("taxi_stand"@[0] != "accounting"@[0]);
    assert("parking"@[0] != "lodging"@[0]);
    assert("parking"@[0] != "rv_park"@[0]);
    assert("parking"@[0] != "library"@[0]);
    assert("parking"@[0] != "embassy"@[0]);
    assert("parking"@[1] != "plumber"@[1]);
    assert("lodging"@[0] != "rv_park"@[0]);
    assert("lodging"@[1] != "library"@[1]);
    assert("lodging"@[0] != "embassy"@[0]);
    assert("lodging"@[0] != "plumber"@[0]);
    assert("rv_park"@[0] != "library"@[0]);
    assert("rv_park"@[0] != "embassy"@[0]);
    assert("rv_park"@[0] != "plumber"@[0]);
    assert("campground"@[1] != "courthouse"@[1]);
    assert("campground"@[0] != "university"@[0]);
    assert("campground"@[0] != "accounting"@[0]);
    assert("library"@[0] != "embassy"@[0]);
    assert("library"@[0] != "plumber"@[0]);
    assert("post_office"@[0] != "electrician"@[0]);
    assert("police"@[0] != "school"@[0]);
    assert("police"@[0] != "church"@[0]);
    assert("police"@[0] != "mosque"@[0]);
    assert("police"@[0] != "temple"@[0]);
    assert("police"@[0] != "lawyer"@[0]);
    assert("city_hall"@[0] != "synagogue"@[0]);
    assert("city_hall"@[0] != "locksmith"@[0]);
    assert("courthouse"@[0] != "university"@[0]);
    assert("courthouse"@[0] != "accounting"@[0]);
    assert("embassy"@[0] != "plumber"@[0]);
    assert("school"@[0] != "church"@[0]);
    assert("school"@[0] != "mosque"@[0]);
    assert("school"@[0] != "temple"@[0]);
    assert("school"@[0] != "lawyer"@[0]);
    assert("university"@[0] != "accounting"@[0]);
    assert("primary_school"@[0] != "moving_company"@[0]);
    assert("secondary_school"@[0] != "place_of_worship"@[0]);
    assert("secondary_school"@[0] != "insurance_agency"@[0]);
    assert("place_of_worship"@[0] != "insurance_agency"@[0]);
    assert("church"@[0] != "mosque"@[0]);
    assert("church"@[0] != "temple"@[0]);
    assert("church"@[0] != "lawyer"@[0]);
    assert("mosque"@[0] != "temple"@[0]);
    assert("mosque"@[0] != "lawyer"@[0]);
    assert("synagogue"@[0] != "locksmith"@[0]);
    assert("temple"@[0] != "lawyer"@[0]);
    assert("real_estate_agency"@[1] != "roofing_contractor"@[1]);
    // So the position of each listed type is found where it is listed.
    assert(VALID_PLACE_TYPES@[0]@ == "restaurant"@);
    assert(type_position(VALID_PLACE_TYPES@[0]@) == 0);
    assert(VALID_PLACE_TYPES@[1]@ == "cafe"@);
    assert(type_position(VALID_PLACE_TYPES@[1]@) == 1);
    assert(VALID_PLACE_TYPES@[2]@ == "bar"@);
    assert(type_position(VALID_PLACE_TYPES@[2]@) == 2);
    assert(VALID_PLACE_TYPES@[3]@ == "bakery"@);
    assert(type_position(VALID_PLACE_TYPES@[3]@) == 3);
    assert(VALID_PLACE_TYPES@[4]@ == "meal_takeaway"@);
    assert(type_position(VALID_PLACE_TYPES@[4]@) == 4);
    assert(VALID_PLACE_TYPES@[5]@ == "meal_delivery"@);
    assert(type_position(VALID_PLACE_TYPES@[5]@) == 5);
    assert(VALID_PLACE_TYPES@[6]@ == "food"@);
    assert(type_position(VALID_PLACE_TYPES@[6]@) == 6);
    assert(VALID_PLACE_TYPES@[7]@ == "pizza_restaurant"@);
    assert(type_position(VALID_PLACE_TYPES@[7]@) == 7);
    assert(VALID_PLACE_TYPES@[8]@ == "fast_food_restaurant"@);
    assert(type_position(VALID_PLACE_TYPES@[8]@) == 8);
    assert(VALID_PLACE_TYPES@[9]@ == "movie_theater"@);
    assert(type_position(VALID_PLACE_TYPES@[9]@) == 9);
    assert(VALID_PLACE_TYPES@[10]@ == "museum"@);
    assert(type_position(VALID_PLACE_TYPES@[10]@) == 10);
    assert(VALID_PLACE_TYPES@[11]@ == "art_gallery"@);
    assert(type_position(VALID_PLACE_TYPES@[11]@) == 11);
    assert(VALID_PLACE_TYPES@[12]@ == "night_club"@);
    assert(type_position(VALID_PLACE_TYPES@[12]@) == 12);
    assert(VALID_PLACE_TYPES@[13]@ == "bowling_alley"@);
    assert(type_position(VALID_PLACE_TYPES@[13]@) == 13);
    assert(VALID_PLACE_TYPES@[14]@ == "casino"@);
    assert(type_position(VALID_PLACE_TYPES@[14]@) == 14);
    assert(VALID_PLACE_TYPES@[15]@ == "tourist_attraction"@);
    assert(type_position(VALID_PLACE_TYPES@[15]@) == 15);
    assert(VALID_PLACE_TYPES@[16]@ == "park"@);
    assert(type_position(VALID_PLACE_TYPES@[16]@) == 16);
    assert(VALID_PLACE_TYPES@[17]@ == "zoo"@);
    assert(type_position(VALID_PLACE_TYPES@[17]@) == 17);
    assert(VALID_PLACE_TYPES@[18]@ == "stadium"@);
    assert(type_position(VALID_PLACE_TYPES@[18]@) == 18);
    assert(VALID_PLACE_TYPES@[19]@ == "gym"@);
    assert(type_position(VALID_PLACE_TYPES@[19]@) == 19);
    assert(VALID_PLACE_TYPES@[20]@ == "spa"@);
    assert(type_position(VALID_PLACE_TYPES@[20]@) == 20);
    assert(VALID_PLACE_TYPES@[21]@ == "aquarium"@);
    assert(type_position(VALID_PLACE_TYPES@[21]@) == 21);
    assert(VALID_PLACE_TYPES@[22]@ == "amusement_park"@);
    assert(type_position(VALID_PLACE_TYPES@[22]@) == 22);
    assert(VALID_PLACE_TYPES@[23]@ == "shopping_mall"@);
    assert(type_position(VALID_PLACE_TYPES@[23]@) == 23);
    assert(VALID_PLACE_TYPES@[24]@ == "store"@);
    assert(type_position(VALID_PLACE_TYPES@[24]@) == 24);
    assert(VALID_PLACE_TYPES@[25]@ == "book_store"@);
    assert(type_position(VALID_PLACE_TYPES@[25]@) == 25);
    assert(VALID_PLACE_TYPES@[26]@ == "clothing_store"@);
    assert(type_position(VALID_PLACE_TYPES@[26]@) == 26);
    assert(VALID_PLACE_TYPES@[27]@ == "department_store"@);
    assert(type_position(VALID_PLACE_TYPES@[27]@) == 27);
    assert(VALID_PLACE_TYPES@[28]@ == "electronics_store"@);
    assert(type_position(VALID_PLACE_TYPES@[28]@) == 28);
    assert(VALID_PLACE_TYPES@[29]@ == "furniture_store"@);
    assert(type_position(VALID_PLACE_TYPES@[29]@) == 29);
    assert(VALID_PLACE_TYPES@[30]@ == "grocery_store"@);
    assert(type_position(VALID_PLACE_TYPES@[30]@) == 30);
    assert(VALID_PLACE_TYPES@[31]@ == "hardware_store"@);
    assert(type_position(VALID_PLACE_TYPES@[31]@) == 31);
    assert(VALID_PLACE_TYPES@[32]@ == "jewelry_store"@);
    assert(type_position(VALID_PLACE_TYPES@[32]@) == 32);
    assert(VALID_PLACE_TYPES@[33]@ == "liquor_store"@);
    assert(type_position(VALID_PLACE_TYPES@[33]@) == 33);
    assert(VALID_PLACE_TYPES@[34]@ == "pet_store"@);
    assert(type_position(VALID_PLACE_TYPES@[34]@) == 34);
    assert(VALID_PLACE_TYPES@[35]@ == "pharmacy"@);
    assert(type_position(VALID_PLACE_TYPES@[35]@) == 35);
    assert(VALID_PLACE_TYPES@[36]@ == "shoe_store"@);
    assert(type_position(VALID_PLACE_TYPES@[36]@) == 36);
    assert(VALID_PLACE_TYPES@[37]@ == "convenience_store"@);
    assert(type_position(VALID_PLACE_TYPES@[37]@) == 37);
    assert(VALID_PLACE_TYPES@[38]@ == "bank"@);
    assert(type_position(VALID_PLACE_TYPES@[38]@) == 38);
    assert(VALID_PLACE_TYPES@[39]@ == "atm"@);
    assert(type_position(VALID_PLACE_TYPES@[39]@) == 39);
    assert(VALID_PLACE_TYPES@[40]@ == "hospital"@);
    assert(type_position(VALID_PLACE_TYPES@[40]@) == 40);
    assert(VALID_PLACE_TYPES@[41]@ == "dentist"@);
    assert(type_position(VALID_PLACE_TYPES@[41]@) == 41);
    assert(VALID_PLACE_TYPES@[42]@ == "doctor"@);
    assert(type_position(VALID_PLACE_TYPES@[42]@) == 42);
    assert(VALID_PLACE_TYPES@[43]@ == "veterinary_care"@);
    assert(type_position(VALID_PLACE_TYPES@[43]@) == 43);
    assert(VALID_PLACE_TYPES@[44]@ == "hair_care"@);
    assert(type_position(VALID_PLACE_TYPES@[44]@) == 44);
    assert(VALID_PLACE_TYPES@[45]@ == "beauty_salon"@);
    assert(type_position(VALID_PLACE_TYPES@[45]@) == 45);
    assert(VALID_PLACE_TYPES@[46]@ == "laundry"@);
    assert(type_position(VALID_PLACE_TYPES@[46]@) == 46);
    assert(VALID_PLACE_TYPES@[47]@ == "car_wash"@);
    assert(type_position(VALID_PLACE_TYPES@[47]@) == 47);
    assert(VALID_PLACE_TYPES@[48]@ == "gas_station"@);
    assert(type_position(VALID_PLACE_TYPES@[48]@) == 48);
    assert(VALID_PLACE_TYPES@[49]@ == "bus_station"@);
    assert(type_position(VALID_PLACE_TYPES@[49]@) == 49);
    assert(VALID_PLACE_TYPES@[50]@ == "subway_station"@);
    assert(type_position(VALID_PLACE_TYPES@[50]@) == 50);
    assert(VALID_PLACE_TYPES@[51]@ == "train_station"@);
    assert(type_position(VALID_PLACE_TYPES@[51]@) == 51);
    assert(VALID_PLACE_TYPES@[52]@ == "airport"@);
    assert(type_position(VALID_PLACE_TYPES@[52]@) == 52);
    assert(VALID_PLACE_TYPES@[53]@ == "taxi_stand"@);
    assert(type_position(VALID_PLACE_TYPES@[53]@) == 53);
    assert(VALID_PLACE_TYPES@[54]@ == "parking"@);
    assert(type_position(VALID_PLACE_TYPES@[54]@) == 54);
    assert(VALID_PLACE_TYPES@[55]@ == "lodging"@);
    assert(type_position(VALID_PLACE_TYPES@[55]@) == 55);
    assert(VALID_PLACE_TYPES@[56]@ == "hotel"@);
    assert(type_position(VALID_PLACE_TYPES@[56]@) == 56);
    assert(VALID_PLACE_TYPES@[57]@ == "rv_park"@);
    assert(type_position(VALID_PLACE_TYPES@[57]@) == 57);
    assert(VALID_PLACE_TYPES@[58]@ == "campground"@);
    assert(type_position(VALID_PLACE_TYPES@[58]@) == 58);
    assert(VALID_PLACE_TYPES@[59]@ == "library"@);
    assert(type_position(VALID_PLACE_TYPES@[59]@) == 59);
    assert(VALID_PLACE_TYPES@[60]@ == "post_office"@);
    assert(type_position(VALID_PLACE_TYPES@[60]@) == 60);
    assert(VALID_PLACE_TYPES@[61]@ == "police"@);
    assert(type_position(VALID_PLACE_TYPES@[61]@) == 61);
    assert(VALID_PLACE_TYPES@[62]@ == "fire_station"@);
    assert(type_position(VALID_PLACE_TYPES@[62]@) == 62);
    assert(VALID_PLACE_TYPES@[63]@ == "city_hall"@);
    assert(type_position(VALID_PLACE_TYPES@[63]@) == 63);
    assert(VALID_PLACE_TYPES@[64]@ == "courthouse"@);
    assert(type_position(VALID_PLACE_TYPES@[64]@) == 64);
    assert(VALID_PLACE_TYPES@[65]@ == "embassy"@);
    assert(type_position(VALID_PLACE_TYPES@[65]@) == 65);
    assert(VALID_PLACE_TYPES@[66]@ == "local_government_office"@);
    assert(type_position(VALID_PLACE_TYPES@[66]@) == 66);
    assert(VALID_PLACE_TYPES@[67]@ == "school"@);
    assert(type_position(VALID_PLACE_TYPES@[67]@) == 67);
    assert(VALID_PLACE_TYPES@[68]@ == "university"@);
    assert(type_position(VALID_PLACE_TYPES@[68]@) == 68);
    assert(VALID_PLACE_TYPES@[69]@ == "primary_school"@);
    assert(type_position(VALID_PLACE_TYPES@[69]@) == 69);
    assert(VALID_PLACE_TYPES@[70]@ == "secondary_school"@);
    assert(type_position(VALID_PLACE_TYPES@[70]@) == 70);
    assert(VALID_PLACE_TYPES@[71]@ == "place_of_worship"@);
    assert(type_position(VALID_PLACE_TYPES@[71]@) == 71);
    assert(VALID_PLACE_TYPES@[72]@ == "church"@);
    assert(type_position(VALID_PLACE_TYPES@[72]@) == 72);
    assert(VALID_PLACE_TYPES@[73]@ == "mosque"@);
    assert(type_position(VALID_PLACE_TYPES@[73]@) == 73);
    assert(VALID_PLACE_TYPES@[74]@ == "synagogue"@);
    assert(type_position(VALID_PLACE_TYPES@[74]@) == 74);
    assert(VALID_PLACE_TYPES@[75]@ == "temple"@);
    assert(type_position(VALID_PLACE_TYPES@[75]@) == 75);
    assert(VALID_PLACE_TYPES@[76]@ == "real_estate_agency"@);
    assert(type_position(VALID_PLACE_TYPES@[76]@) == 76);
    assert(VALID_PLACE_TYPES@[77]@ == "travel_agency"@);
    assert(type_position(VALID_PLACE_TYPES@[77]@) == 77);
    assert(VALID_PLACE_TYPES@[78]@ == "insurance_agency"@);
    assert(type_position(VALID_PLACE_TYPES@[78]@) == 78);
    assert(VALID_PLACE_TYPES@[79]@ == "lawyer"@);
    assert(type_position(VALID_PLACE_TYPES@[79]@) == 79);
    assert(VALID_PLACE_TYPES@[80]@ == "accounting"@);
    assert(type_position(VALID_PLACE_TYPES@[80]@) == 80);
    assert(VALID_PLACE_TYPES@[81]@ == "physiotherapist"@);
    assert(type_position(VALID_PLACE_TYPES@[81]@) == 81);
    assert(VALID_PLACE_TYPES@[82]@ == "roofing_contractor"@);
    assert(type_position(VALID_PLACE_TYPES@[82]@) == 82);
    assert(VALID_PLACE_TYPES@[83]@ == "electrician"@);
    assert(type_position(VALID_PLACE_TYPES@[83]@) == 83);
    assert(VALID_PLACE_TYPES@[84]@ == "plumber"@);
    assert(type_position(VALID_PLACE_TYPES@[84]@) == 84);
    assert(VALID_PLACE_TYPES@[85]@ == "locksmith"@);
    assert(type_position(VALID_PLACE_TYPES@[85]@) == 85);
    assert(VALID_PLACE_TYPES@[86]@ == "moving_company"@);
    assert(type_position(VALID_PLACE_TYPES@[86]@) == 86);
    assert forall|i: int| 0 <= i < 87 implies type_position(#[trigger] VALID_PLACE_TYPES@[i]@) == i by {
        assert(i == 0 || i == 1 || i == 2 || i == 3 || i == 4 || i == 5 || i == 6 || i == 7 || i == 8 || i == 9 || i == 10 || i == 11 || i == 12 || i == 13 || i == 14 || i == 15 || i == 16 || i == 17 || i == 18 || i == 19 || i == 20 || i == 21 || i == 22 || i == 23 || i == 24 || i == 25 || i == 26 || i == 27 || i == 28 || i == 29 || i == 30 || i == 31 || i == 32 || i == 33 || i == 34 || i == 35 || i == 36 || i == 37 || i == 38 || i == 39 || i == 40 || i == 41 || i == 42 || i == 43 || i == 44 || i == 45 || i == 46 || i == 47 || i == 48 || i == 49 || i == 50 || i == 51 || i == 52 || i == 53 || i == 54 || i == 55 || i == 56 || i == 57 || i == 58 || i == 59 || i == 60 || i == 61 || i == 62 || i == 63 || i == 64 || i == 65 || i == 66 || i == 67 || i == 68 || i == 69 || i == 70 || i == 71 || i == 72 || i == 73 || i == 74 || i == 75 || i == 76 || i == 77 || i == 78 || i == 79 || i == 80 || i == 81 || i == 82 || i == 83 || i == 84 || i == 85 || i == 86);
    }
}

/// Whether some entry of `v` is `t`.
pub open spec fn lists(v: Seq<&'static str>, t: Seq<char>) -> bool {
    exists|k: int| 0 <= k < v.len() && (#[trigger] v[k])@ == t
}

/// No text occurs twice in `v`.
pub open spec fn no_repeats(v: Seq<&'static str>) -> bool {
    forall|i: int, j: int| 0 <= i < v.len() && 0 <= j < v.len() && i != j ==> (#[trigger] v[i])@ != (#[trigger] v[j])@
}

/// The unsupported entries of `ts`, in order.
pub open spec fn invalid_place_types(ts: Seq<Seq<char>>) -> Seq<Seq<char>>
    decreases ts.len(),
{
    if ts.len() == 0 {
        Seq::empty()
    } else if is_valid_place_type(ts.last()) {
        invalid_place_types(ts.drop_last())
    } else {
        invalid_place_types(ts.drop_last()).push(ts.last())
    }
}

/// The message that rejects the unsupported types `bad`.
pub open spec fn invalid_types_message(bad: Seq<Seq<char>>) -> Seq<char> {
    "Invalid place types: "@ + join(bad, ", "@)
        + ". See Google Places API documentation for valid types."@
}

impl PlaceTypeValidator {
    /// The supported place types, as a set: each of the 87 supported types
    /// occurs exactly once, and nothing else occurs.
    pub fn get_valid_place_types() -> (r: Vec<&'static str>)
        ensures
            r@.len() == 87,
            no_repeats(r@),
            forall|t: Seq<char>| lists(r@, t) <==> is_valid_place_type(t),
    {
        let mut r: Vec<&'static str> = Vec::new();
        let mut i: usize = 0;
        while i < 87
            invariant
                i <= 87,
                r@ == VALID_PLACE_TYPES@.subrange(0, i as int),
            decreases 87 - i,
        {
            r.push(VALID_PLACE_TYPES[i]);
            i = i + 1;
        }
        proof {
            assert(r@ =~= VALID_PLACE_TYPES@);
            lemma_types_distinct();
        }
        r
    }

    /// Whether `t` is already among `v`.
    fn lists_type(v: &Vec<&'static str>, t: &str) -> (r: bool)
        ensures
            r == lists(v@, t@),
    {
        let mut k: usize = 0;
        while k < v.len()
            invariant
                k <= v@.len(),
                forall|j: int| 0 <= j < k ==> (#[trigger] v@[j])@ != t@,
            decreases v@.len() - k,
        {
            if same_text(v[k], t) {
                return true;
            }
            k = k + 1;
        }
        false
    }

    /// Accepts the list when every entry is a supported place type; otherwise
    /// rejects it with a message that names the unsupported entries in order.
    pub fn validate_place_types(types: &[String]) -> (r: Result<(), String>)
        ensures
            invalid_place_types(texts(types@)).len() == 0 ==> r is Ok,
            invalid_place_types(texts(types@)).len() > 0 ==> (r matches Err(m) && m@
                == invalid_types_message(invalid_place_types(texts(types@)))),
    {
        let valid = Self::get_valid_place_types();
        let ghost ts = texts(types@);
        let mut invalid: Vec<String> = Vec::new();
        let mut i: usize = 0;
        while i < types.len()
            invariant
                i <= types@.len(),
                forall|t: Seq<char>| lists(valid@, t) <==> is_valid_place_type(t),
                ts == texts(types@),
                ts.len() == types@.len(),
                texts(invalid@) == invalid_place_types(ts.subrange(0, i as int)),
            decreases types@.len() - i,
        {
            assert(ts.subrange(0, i + 1).drop_last() =~= ts.subrange(0, i as int));
            assert(ts[i as int] == types@[i as int]@);
            if !Self::lists_type(&valid, types[i].as_str()) {
                invalid.push(types[i].clone());
                assert(texts(invalid@) =~= invalid_place_types(ts.subrange(0, i as int)).push(ts[i as int]));
            }
            i = i + 1;
        }
        assert(ts.subrange(0, types@.len() as int) =~= ts);
        if invalid.len() == 0 {
            return Ok(());
        }
        let listed = join_texts(&invalid, ", ");
        let head = concat("Invalid place types: ", listed.as_str());
        Err(concat(head.as_str(), ". See Google Places API documentation for valid types."))
    }
}

} // verus!
