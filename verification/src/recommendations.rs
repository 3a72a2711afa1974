//! Checking a recommendation request and shaping ranked venues into the
//! recommendations the service returns.
use vstd::prelude::*;

use crate::error::AppError;
use crate::geocoding::{directions_link, directions_mode_code, venue_url, GeocodingService};
use crate::models::{
    Coordinate, EnhancedVenueRecommendation, RecommendationRequest, TransportMode,
    TravelTimeInfo, VenueWithTravelTimes, texts,
};
use crate::ranking::{
    is_ranking_of, penalized_all, rankable, sorted_by_rank, stable_arrangement, RankingService,
};
use crate::text::{ascii_lower, concat, is_ascii};
use crate::validation::{invalid_place_types, invalid_types_message, PlaceTypeValidator};

verus! {

/// The verdict on a recommendation request, in the order the checks are made.
pub open spec fn request_verdict(participant_count: nat, categories: Seq<Seq<char>>) -> Result<
    (),
    Seq<char>,
> {
    if participant_count < 2 {
        Err("At least 2 participants are required"@)
    } else if categories.len() == 0 {
        Err("At least one category is required"@)
    } else if invalid_place_types(categories).len() > 0 {
        Err("Invalid place types: "@ + invalid_types_message(invalid_place_types(categories)))
    } else {
        Ok(())
    }
}

/// Accepts a request with at least two participants and at least one
/// category, all of them supported place types; otherwise rejects it as a
/// bad request with the reason of the first check that fails.
pub fn validate_recommendation_request(request: &RecommendationRequest) -> (r: Result<(), AppError>)
    ensures
        match request_verdict(request.participants@.len(), texts(request.categories@)) {
            Ok(()) => r is Ok,
            Err(m) => r matches Err(AppError::BadRequest(e)) && e@ == m,
        },
{
    if request.participants.len() < 2 {
        return Err(AppError::bad_request("At least 2 participants are required"));
    }
    if request.categories.len() == 0 {
        return Err(AppError::bad_request("At least one category is required"));
    }
    match PlaceTypeValidator::validate_place_types(request.categories.as_slice()) {
        Ok(()) => Ok(()),
        Err(e) => Err(AppError::BadRequest(concat("Invalid place types: ", e.as_str()))),
    }
}

/// The label of a travel mode in recommendations and directions: its
/// serialized name.
pub open spec fn transport_label(mode: TransportMode) -> Seq<char> {
    match mode {
        TransportMode::Drive => "DRIVE"@,
        TransportMode::Walk => "WALK"@,
        TransportMode::Transit => "TRANSIT"@,
        TransportMode::Bicycle => "BICYCLE"@,
    }
}

/// The Google Maps directions code of a travel mode: driving 0, bicycling 1,
/// walking 2, transit 3.
pub open spec fn mode_code(mode: TransportMode) -> Seq<char> {
    match mode {
        TransportMode::Drive => "0"@,
        TransportMode::Walk => "2"@,
        TransportMode::Transit => "3"@,
        TransportMode::Bicycle => "1"@,
    }
}

/// A mode's label is ASCII, and lower-cased it selects the mode's code.
pub proof fn lemma_label_selects_code(mode: TransportMode)
    ensures
        is_ascii(transport_label(mode)),
        directions_mode_code(ascii_lower(transport_label(mode))) == mode_code(mode),
{
    reveal_strlit("DRIVE");
    reveal_strlit("WALK");
    reveal_strlit("TRANSIT");
    reveal_strlit("BICYCLE");
    reveal_strlit("walk");
    reveal_strlit("transit");
    reveal_strlit("bicycle");
    let l = transport_label(mode);
    let low = ascii_lower(l);
    assert(low =~= match mode {
        TransportMode::Drive => "drive"@,
        TransportMode::Walk => "walk"@,
        TransportMode::Transit => "transit"@,
        TransportMode::Bicycle => "bicycle"@,
    }) by {
        reveal_strlit("drive");
    }
    if mode != TransportMode::Walk {
        assert(low != "walk"@) by {
            if low == "walk"@ {
                assert(low.len() == "walk"@.len());
            }
        }
    }
    if mode != TransportMode::Transit {
        assert(low != "transit"@) by {
            if low == "transit"@ {
                assert(low.len() == "transit"@.len());
                assert(low[0] == "transit"@[0]);
            }
        }
    }
    if mode != TransportMode::Bicycle {
        assert(low != "bicycle"@) by {
            if low == "bicycle"@ {
                assert(low.len() == "bicycle"@.len());
                assert(low[0] == "bicycle"@[0]);
            }
        }
    }
}

/// Executable form of [`transport_label`].
pub fn transport_label_of(mode: TransportMode) -> (r: &'static str)
    ensures
        r@ == transport_label(mode),
{
    match mode {
        TransportMode::Drive => "DRIVE",
        TransportMode::Walk => "WALK",
        TransportMode::Transit => "TRANSIT",
        TransportMode::Bicycle => "BICYCLE",
    }
}

/// A venue's category: its first place type, or "unknown".
pub open spec fn category_of(types: Seq<String>) -> Seq<char> {
    if types.len() > 0 {
        types[0]@
    } else {
        "unknown"@
    }
}

/// `info` describes participant `index`'s trip of `minutes` to `destination`.
pub open spec fn describes_trip(
    info: TravelTimeInfo,
    index: int,
    minutes: u32,
    participants: Seq<Coordinate>,
    destination: Coordinate,
    mode: TransportMode,
) -> bool {
    &&& info.participant_index == index
    &&& info.travel_time_minutes == minutes
    &&& info.transport_mode@ == transport_label(mode)
    &&& info.google_maps_directions_url@ == directions_link(
        participants[index],
        destination,
        mode_code(mode),
    )
}

/// `rec` is the recommendation made of venue `v`.
pub open spec fn is_recommendation_of(
    rec: EnhancedVenueRecommendation,
    v: VenueWithTravelTimes,
    participants: Seq<Coordinate>,
    mode: TransportMode,
) -> bool {
    &&& rec.name == v.place.name
    &&& rec.address == v.address
    &&& rec.lat == v.place.coordinate.lat
    &&& rec.lng == v.place.coordinate.lng
    &&& rec.rating == v.place.rating
    &&& rec.reviews == v.place.user_ratings_total
    &&& rec.google_maps_url@ == venue_url(v.place.coordinate, Some(v.place.place_id@))
    &&& rec.travel_times@.len() == v.travel_times@.len()
    &&& forall|j: int|
        0 <= j < v.travel_times@.len() ==> describes_trip(
            #[trigger] rec.travel_times@[j],
            j,
            v.travel_times@[j],
            participants,
            v.place.coordinate,
            mode,
        )
    &&& rec.category@ == category_of(v.place.types@)
    &&& rec.price_level == v.place.price_level
}

/// The per-participant trips to `destination`.
fn trips_to(
    times: &Vec<u32>,
    participants: &[Coordinate],
    destination: &Coordinate,
    mode: TransportMode,
    geocoding: &GeocodingService,
) -> (r: Vec<TravelTimeInfo>)
    requires
        times@.len() <= participants@.len(),
    ensures
        r@.len() == times@.len(),
        forall|j: int|
            0 <= j < times@.len() ==> describes_trip(
                #[trigger] r@[j],
                j,
                times@[j],
                participants@,
                *destination,
                mode,
            ),
{
    let label = transport_label_of(mode);
    proof {
        lemma_label_selects_code(mode);
    }
    let mut r: Vec<TravelTimeInfo> = Vec::new();
    let mut j: usize = 0;
    while j < times.len()
        invariant
            j <= times@.len(),
            times@.len() <= participants@.len(),
            label@ == transport_label(mode),
            is_ascii(label@),
            directions_mode_code(ascii_lower(label@)) == mode_code(mode),
            r@.len() == j,
            forall|b: int|
                0 <= b < j ==> describes_trip(
                    #[trigger] r@[b],
                    b,
                    times@[b],
                    participants@,
                    *destination,
                    mode,
                ),
        decreases times@.len() - j,
    {
        let info = TravelTimeInfo {
            participant_index: j,
            travel_time_minutes: times[j],
            transport_mode: label.to_owned(),
            google_maps_directions_url: geocoding.generate_directions_url(
                &participants[j],
                destination,
                label,
            ),
        };
        r.push(info);
        j = j + 1;
    }
    r
}

/// The recommendations of the first `limit` ranked venues, in rank order,
/// each with a directions link per participant (the participant at index
/// `j` of `participants` for travel time `j`).
pub fn build_recommendations(
    ranked: Vec<VenueWithTravelTimes>,
    participants: &[Coordinate],
    mode: TransportMode,
    limit: usize,
    geocoding: &GeocodingService,
) -> (r: Vec<EnhancedVenueRecommendation>)
    requires
        forall|k: int|
            0 <= k < ranked@.len() && k < limit ==> (#[trigger] ranked@[k]).travel_times@.len()
                <= participants@.len(),
    ensures
        r@.len() == if ranked@.len() < limit {
            ranked@.len() as int
        } else {
            limit as int
        },
        forall|k: int| 0 <= k < r@.len() ==> is_recommendation_of(#[trigger] r@[k], ranked@[k], participants@, mode),
{
    let ghost all = ranked@;
    let mut rest = ranked;
    let mut r: Vec<EnhancedVenueRecommendation> = Vec::new();
    let mut k: usize = 0;
    while k < limit && rest.len() > 0
        invariant
            k <= limit,
            k <= all.len(),
            rest@ == all.subrange(k as int, all.len() as int),
            r@.len() == k,
            forall|a: int|
                0 <= a < all.len() && a < limit ==> (#[trigger] all[a]).travel_times@.len()
                    <= participants@.len(),
            forall|a: int| 0 <= a < k ==> is_recommendation_of(#[trigger] r@[a], all[a], participants@, mode),
        decreases all.len() - k,
    {
        let venue = rest.remove(0);
        assert(venue == all[k as int]);
        let trips = trips_to(&venue.travel_times, participants, &venue.place.coordinate, mode, geocoding);
        let link = geocoding.generate_venue_url(&venue.place.coordinate, Some(venue.place.place_id.as_str()));
        let category = if venue.place.types.len() > 0 {
            venue.place.types[0].clone()
        } else {
            "unknown".to_owned()
        };
        let rec = EnhancedVenueRecommendation {
            name: venue.place.name,
            address: venue.address,
            lat: venue.place.coordinate.lat,
            lng: venue.place.coordinate.lng,
            rating: venue.place.rating,
            reviews: venue.place.user_ratings_total,
            google_maps_url: link,
            travel_times: trips,
            category,
            price_level: venue.place.price_level,
        };
        r.push(rec);
        k = k + 1;
    }
    r
}

/// There are exactly two (participants): the case the ranking penalizes.
pub open spec fn exactly_two(n: nat) -> bool {
    n == 2
}

/// Building the answer from `venues` with this limit indexes no missing
/// participant: in the ranking, each of the first `limit` venues has at most
/// one travel time per participant.
pub open spec fn answerable(venues: Seq<VenueWithTravelTimes>, participant_count: nat, limit: usize) -> bool {
    forall|ranked: Seq<VenueWithTravelTimes>, perm: Seq<int>|
        sorted_by_rank(ranked) && #[trigger] stable_arrangement(
            ranked,
            penalized_all(venues, exactly_two(participant_count)),
            perm,
        ) ==> forall|k: int|
            0 <= k < ranked.len() && k < limit ==> (#[trigger] ranked[k]).travel_times@.len()
                <= participant_count
}

/// `r` answers a request with these venues, participants, mode and limit: the
/// first `limit` venues of the ranking (with the two-participant penalty
/// when there are exactly two participants), in rank order, each made a
/// recommendation with a trip per participant.
pub open spec fn is_answer(
    r: Seq<EnhancedVenueRecommendation>,
    venues: Seq<VenueWithTravelTimes>,
    participants: Seq<Coordinate>,
    mode: TransportMode,
    limit: usize,
) -> bool {
    &&& r.len() == if venues.len() < limit {
        venues.len() as int
    } else {
        limit as int
    }
    &&& exists|ranked: Seq<VenueWithTravelTimes>|
        #[trigger] is_ranking_of(ranked, venues, exactly_two(participants.len())) && forall|k: int|
            0 <= k < r.len() ==> is_recommendation_of(#[trigger] r[k], ranked[k], participants, mode)
}

/// The answer to a recommendation request, from the venues with their
/// travel times (see [`is_answer`]).
pub fn recommend_from_venues(
    venues: Vec<VenueWithTravelTimes>,
    participants: &[Coordinate],
    mode: TransportMode,
    limit: usize,
    geocoding: &GeocodingService,
) -> (r: Vec<EnhancedVenueRecommendation>)
    requires
        rankable(venues@, exactly_two(participants@.len())),
        answerable(venues@, participants@.len(), limit),
    ensures
        is_answer(r@, venues@, participants@, mode, limit),
{
    let two = participants.len() == 2;
    let ghost input = venues@;
    let ranked = RankingService::rank_venues(venues, two);
    let ghost rs = ranked@;
    proof {
        let perm = choose|perm: Seq<int>| stable_arrangement(rs, penalized_all(input, two), perm);
        assert(stable_arrangement(rs, penalized_all(input, two), perm));
    }
    let r = build_recommendations(ranked, participants, mode, limit, geocoding);
    assert(is_ranking_of(rs, input, two));
    r
}

} // verus!
