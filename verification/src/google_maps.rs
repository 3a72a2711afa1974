//! The computations around the Places and Distance Matrix APIs: the query a
//! travel-time request sends, the travel-time matrix read from the reply, and
//! the venues assembled from places, their details and their travel times.
use vstd::prelude::*;

use crate::error::AppError;
use crate::models::{
    Coordinate, GoogleDistanceElement, GoogleDistanceMatrixResponse, GoogleDistanceRow,
    GooglePlaceDetailsNewResponse, PlaceCandidate, TransportMode, VenueWithTravelTimes, texts,
};
use crate::text::{concat, join, join_texts, same_text};

verus! {

/// Places are sent to the Distance Matrix API this many at a time.
pub const TRAVEL_TIME_BATCH_SIZE: usize = 25;

/// Place details are requested this many at a time, concurrently.
pub const PLACE_DETAILS_BATCH_SIZE: usize = 10;

/// The most places one nearby search returns.
pub const MAX_SEARCH_RESULTS: u32 = 20;

/// `pieces` cut `0..len` into consecutive, non-empty ranges `(start, end)`
/// in order, each `size` long except possibly the last.
pub open spec fn is_batching(pieces: Seq<(usize, usize)>, len: nat, size: nat) -> bool {
    &&& (pieces.len() == 0 <==> len == 0)
    &&& pieces.len() > 0 ==> pieces[0].0 == 0 && pieces.last().1 == len
    &&& forall|k: int| 0 < k < pieces.len() ==> (#[trigger] pieces[k]).0 == pieces[k - 1].1
    &&& forall|k: int|
        0 <= k < pieces.len() ==> (#[trigger] pieces[k]).0 < pieces[k].1 && pieces[k].1 - pieces[k].0 <= size
    &&& forall|k: int| 0 <= k < pieces.len() - 1 ==> (#[trigger] pieces[k]).1 - pieces[k].0 == size
}

/// The batches in which `len` items are sent, `size` at a time.
pub fn batch_bounds(len: usize, size: usize) -> (r: Vec<(usize, usize)>)
    requires
        size > 0,
    ensures
        is_batching(r@, len as nat, size as nat),
{
    let mut r: Vec<(usize, usize)> = Vec::new();
    let mut start: usize = 0;
    while start < len
        invariant
            size > 0,
            start <= len,
            r@.len() == 0 ==> start == 0,
            r@.len() > 0 ==> r@[0].0 == 0 && r@.last().1 == start,
            forall|k: int| 0 < k < r@.len() ==> (#[trigger] r@[k]).0 == r@[k - 1].1,
            forall|k: int| 0 <= k < r@.len() ==> (#[trigger] r@[k]).0 < r@[k].1 && r@[k].1 - r@[k].0 <= size,
            forall|k: int| 0 <= k < r@.len() ==> (#[trigger] r@[k]).1 - r@[k].0 == size || r@[k].1 == len,
            forall|k: int| 0 <= k < r@.len() ==> (#[trigger] r@[k]).1 <= start,
        decreases len - start,
    {
        let end: usize = if len - start > size { start + size } else { len };
        r.push((start, end));
        start = end;
    }
    proof {
        assert forall|k: int| 0 <= k < r@.len() - 1 implies (#[trigger] r@[k]).1 - r@[k].0 == size by {
            assert(r@[k + 1].0 == r@[k].1);
            assert(r@[k + 1].0 < r@[k + 1].1);
        }
    }
    r
}

/// The address and link of a place.
#[derive(Debug)]
pub struct PlaceDetails {
    pub address: String,
    pub url: String,
}

impl PlaceDetails {
    /// An independent copy.
    pub fn duplicate(&self) -> (r: PlaceDetails)
        ensures
            r == *self,
    {
        PlaceDetails { address: self.address.clone(), url: self.url.clone() }
    }
}

/// The details a Place Details (New) reply gives.
pub fn place_details_from(reply: GooglePlaceDetailsNewResponse) -> (r: PlaceDetails)
    ensures
        r.address == reply.formatted_address,
        r.url == reply.google_maps_uri,
{
    PlaceDetails { address: reply.formatted_address, url: reply.google_maps_uri }
}

/// The Distance Matrix name of a travel mode.
pub open spec fn matrix_mode(mode: TransportMode) -> Seq<char> {
    match mode {
        TransportMode::Drive => "driving"@,
        TransportMode::Walk => "walking"@,
        TransportMode::Transit => "transit"@,
        TransportMode::Bicycle => "bicycling"@,
    }
}

/// Executable form of [`matrix_mode`].
pub fn matrix_mode_name(mode: TransportMode) -> (r: &'static str)
    ensures
        r@ == matrix_mode(mode),
{
    match mode {
        TransportMode::Drive => "driving",
        TransportMode::Walk => "walking",
        TransportMode::Transit => "transit",
        TransportMode::Bicycle => "bicycling",
    }
}

/// A position as the Distance Matrix API takes it: "lat,lng".
pub open spec fn position_param(c: Coordinate) -> Seq<char> {
    c.lat@ + ","@ + c.lng@
}

/// Executable form of [`position_param`].
pub fn position_text(c: &Coordinate) -> (r: String)
    ensures
        r@ == position_param(*c),
{
    let head = concat(c.lat.as_str(), ",");
    concat(head.as_str(), c.lng.as_str())
}

/// The positions of the participants, as query parameters.
pub open spec fn origin_params(ps: Seq<Coordinate>) -> Seq<Seq<char>> {
    ps.map_values(|c: Coordinate| position_param(c))
}

/// The positions of the places, as query parameters.
pub open spec fn destination_params(places: Seq<PlaceCandidate>) -> Seq<Seq<char>> {
    places.map_values(|p: PlaceCandidate| position_param(p.coordinate))
}

/// The query of a Distance Matrix request: origins and destinations joined
/// by "|", the travel mode, metric units and the key, in this order.
pub open spec fn matrix_query(
    participants: Seq<Coordinate>,
    places: Seq<PlaceCandidate>,
    mode: TransportMode,
    api_key: Seq<char>,
) -> Seq<(Seq<char>, Seq<char>)> {
    seq![
        ("origins"@, join(origin_params(participants), "|"@)),
        ("destinations"@, join(destination_params(places), "|"@)),
        ("mode"@, matrix_mode(mode)),
        ("units"@, "metric"@),
        ("key"@, api_key),
    ]
}

/// The texts of a list of name/value pairs.
pub open spec fn pair_texts(ps: Seq<(String, String)>) -> Seq<(Seq<char>, Seq<char>)> {
    ps.map_values(|p: (String, String)| (p.0@, p.1@))
}

/// The query parameters of the Distance Matrix request for these
/// participants and places.
pub fn distance_matrix_query(
    participants: &[Coordinate],
    places: &[PlaceCandidate],
    mode: TransportMode,
    api_key: &str,
) -> (r: Vec<(String, String)>)
    ensures
        pair_texts(r@) == matrix_query(participants@, places@, mode, api_key@),
{
    let mut origins: Vec<String> = Vec::new();
    let mut i: usize = 0;
    while i < participants.len()
        invariant
            i <= participants@.len(),
            texts(origins@) == origin_params(participants@.subrange(0, i as int)),
        decreases participants@.len() - i,
    {
        origins.push(position_text(&participants[i]));
        proof {
            assert(origin_params(participants@.subrange(0, i + 1)) =~= origin_params(
                participants@.subrange(0, i as int),
            ).push(position_param(participants@[i as int])));
            assert(texts(origins@) =~= origin_params(participants@.subrange(0, i + 1)));
        }
        i = i + 1;
    }
    assert(participants@.subrange(0, participants@.len() as int) =~= participants@);
    let mut destinations: Vec<String> = Vec::new();
    let mut j: usize = 0;
    while j < places.len()
        invariant
            j <= places@.len(),
            texts(destinations@) == destination_params(places@.subrange(0, j as int)),
        decreases places@.len() - j,
    {
        destinations.push(position_text(&places[j].coordinate));
        proof {
            assert(destination_params(places@.subrange(0, j + 1)) =~= destination_params(
                places@.subrange(0, j as int),
            ).push(position_param(places@[j as int].coordinate)));
            assert(texts(destinations@) =~= destination_params(places@.subrange(0, j + 1)));
        }
        j = j + 1;
    }
    assert(places@.subrange(0, places@.len() as int) =~= places@);
    let mut r: Vec<(String, String)> = Vec::new();
    r.push(("origins".to_owned(), join_texts(&origins, "|")));
    r.push(("destinations".to_owned(), join_texts(&destinations, "|")));
    r.push(("mode".to_owned(), matrix_mode_name(mode).to_owned()));
    r.push(("units".to_owned(), "metric".to_owned()));
    r.push(("key".to_owned(), api_key.to_owned()));
    assert(pair_texts(r@) =~= matrix_query(participants@, places@, mode, api_key@));
    r
}

/// The minutes of one element: whole minutes of its duration when its
/// status is "OK" and it has one, else 0.
pub open spec fn element_minutes(e: GoogleDistanceElement) -> u32 {
    if e.status@ == "OK"@ {
        match e.duration {
            Some(d) => (d.value / 60) as u32,
            None => 0,
        }
    } else {
        0
    }
}

/// The minutes from origin `p` to destination `q` in the reply's rows
/// (0 where the reply has no such element).
pub open spec fn matrix_minutes(rows: Seq<GoogleDistanceRow>, p: int, q: int) -> u32 {
    if 0 <= p < rows.len() && 0 <= q < rows[p].elements@.len() {
        element_minutes(rows[p].elements@[q])
    } else {
        0
    }
}

/// An element that carries a travel time: status "OK" and a duration.
pub open spec fn element_counts(e: GoogleDistanceElement) -> bool {
    e.status@ == "OK"@ && e.duration is Some
}

/// The reply fits the request: every element that carries a travel time
/// lies within the origins and the destinations.
pub open spec fn matrix_fits(rows: Seq<GoogleDistanceRow>, participant_count: nat, place_count: nat) -> bool {
    forall|p: int, q: int|
        0 <= p < rows.len() && 0 <= q < rows[p].elements@.len() && element_counts(
            #[trigger] rows[p].elements@[q],
        ) ==> p < participant_count && q < place_count
}

/// The travel times per place: one row per place, one entry per participant.
pub open spec fn is_travel_time_table(
    table: Seq<Vec<u32>>,
    rows: Seq<GoogleDistanceRow>,
    participant_count: nat,
    place_count: nat,
) -> bool {
    &&& table.len() == place_count
    &&& forall|q: int| 0 <= q < place_count ==> (#[trigger] table[q])@.len() == participant_count
    &&& forall|q: int, p: int|
        #![trigger table[q]@[p]]
        0 <= q < place_count && 0 <= p < participant_count ==> table[q]@[p] == matrix_minutes(
            rows,
            p,
            q,
        )
}

/// The travel-time table of a Distance Matrix reply, places by participants,
/// in minutes; a reply whose status is not "OK" is an error.
pub fn travel_times_from_matrix(
    reply: &GoogleDistanceMatrixResponse,
    participant_count: usize,
    place_count: usize,
) -> (r: Result<Vec<Vec<u32>>, AppError>)
    requires
        reply.status@ == "OK"@ ==> matrix_fits(reply.rows@, participant_count as nat, place_count as nat),
    ensures
        reply.status@ != "OK"@ ==> (r matches Err(AppError::GoogleApiError(m)) && m@
            == "Distance Matrix API error: "@ + reply.status@),
        reply.status@ == "OK"@ ==> (r matches Ok(table) && is_travel_time_table(
            table@,
            reply.rows@,
            participant_count as nat,
            place_count as nat,
        )),
{
    if !same_text(reply.status.as_str(), "OK") {
        return Err(
            AppError::GoogleApiError(concat("Distance Matrix API error: ", reply.status.as_str())),
        );
    }
    let rows = &reply.rows;
    let mut table: Vec<Vec<u32>> = Vec::new();
    let mut q: usize = 0;
    while q < place_count
        invariant
            q <= place_count,
            rows@ == reply.rows@,
            table@.len() == q,
            forall|a: int| 0 <= a < q ==> (#[trigger] table@[a])@.len() == participant_count,
            forall|a: int, p: int|
                #![trigger table@[a]@[p]]
                0 <= a < q && 0 <= p < participant_count ==> table@[a]@[p] == matrix_minutes(
                    rows@,
                    p,
                    a,
                ),
        decreases place_count - q,
    {
        let mut line: Vec<u32> = Vec::new();
        let mut p: usize = 0;
        while p < participant_count
            invariant
                p <= participant_count,
                line@.len() == p,
                forall|b: int| 0 <= b < p ==> line@[b] == matrix_minutes(rows@, b, q as int),
            decreases participant_count - p,
        {
            let mut minutes: u32 = 0;
            if p < rows.len() && q < rows[p].elements.len() {
                let e = &rows[p].elements[q];
                if same_text(e.status.as_str(), "OK") {
                    match &e.duration {
                        Some(d) => {
                            minutes = d.value / 60;
                        },
                        None => {},
                    }
                }
            }
            line.push(minutes);
            p = p + 1;
        }
        table.push(line);
        q = q + 1;
    }
    Ok(table)
}

// Venues.

/// The sum of the travel times.
pub open spec fn total_of(ts: Seq<u32>) -> int
    decreases ts.len(),
{
    if ts.len() == 0 {
        0
    } else {
        total_of(ts.drop_last()) + ts.last()
    }
}

/// The longest travel time (0 for none).
pub open spec fn longest(ts: Seq<u32>) -> u32
    decreases ts.len(),
{
    if ts.len() == 0 {
        0
    } else if ts.len() == 1 || ts.last() > longest(ts.drop_last()) {
        ts.last()
    } else {
        longest(ts.drop_last())
    }
}

/// The shortest travel time (0 for none).
pub open spec fn shortest(ts: Seq<u32>) -> u32
    decreases ts.len(),
{
    if ts.len() == 0 {
        0
    } else if ts.len() == 1 || ts.last() < shortest(ts.drop_last()) {
        ts.last()
    } else {
        shortest(ts.drop_last())
    }
}

/// Every participant reaches the place: all travel times are positive.
pub open spec fn all_reachable(ts: Seq<u32>) -> bool {
    forall|i: int| 0 <= i < ts.len() ==> #[trigger] ts[i] > 0
}

/// The details that belong to place `i`: those of the last place, up to the
/// end of the batch, with the same place id whose details were fetched.
pub open spec fn details_for(
    places: Seq<PlaceCandidate>,
    details: Seq<Option<PlaceDetails>>,
    id: Seq<char>,
) -> Option<PlaceDetails>
    decreases places.len(),
{
    if places.len() == 0 || details.len() == 0 {
        None
    } else if places.last().place_id@ == id && details.last() is Some {
        details.last()
    } else {
        details_for(places.drop_last(), details.drop_last(), id)
    }
}

/// Whether place `i` becomes a venue: its details were fetched, its travel
/// times are known and every participant reaches it.
pub open spec fn becomes_venue(
    places: Seq<PlaceCandidate>,
    details: Seq<Option<PlaceDetails>>,
    times: Seq<Vec<u32>>,
    i: int,
) -> bool {
    &&& details_for(places, details, places[i].place_id@) is Some
    &&& i < times.len()
    &&& all_reachable(times[i]@)
}

/// The venue made of a place, its details and its travel times.
pub open spec fn venue_of(place: PlaceCandidate, d: PlaceDetails, times: Vec<u32>) -> VenueWithTravelTimes {
    VenueWithTravelTimes {
        place,
        address: d.address,
        google_url: d.url,
        travel_times: times,
        total_travel_time: total_of(times@) as u32,
        max_travel_time: longest(times@),
        min_travel_time: shortest(times@),
        fairness_score: (longest(times@) - shortest(times@)) as u64,
    }
}

/// The venues made of the first `n` places, in place order.
pub open spec fn venues_upto(
    places: Seq<PlaceCandidate>,
    details: Seq<Option<PlaceDetails>>,
    times: Seq<Vec<u32>>,
    n: int,
) -> Seq<VenueWithTravelTimes>
    decreases n,
{
    if n <= 0 {
        Seq::empty()
    } else if becomes_venue(places, details, times, n - 1) {
        venues_upto(places, details, times, n - 1).push(
            venue_of(
                places[n - 1],
                details_for(places, details, places[n - 1].place_id@)->Some_0,
                times[n - 1],
            ),
        )
    } else {
        venues_upto(places, details, times, n - 1)
    }
}

/// What assembling needs: a place that becomes a venue has at least one
/// travel time, and its travel times sum within `u32`.
pub open spec fn assemblable(
    places: Seq<PlaceCandidate>,
    details: Seq<Option<PlaceDetails>>,
    times: Seq<Vec<u32>>,
) -> bool {
    forall|i: int|
        0 <= i < places.len() && #[trigger] becomes_venue(places, details, times, i) ==> times[i]@.len()
            > 0 && total_of(times[i]@) <= u32::MAX
}

/// The details fetched for `id` within the batch, looked up as
/// [`details_for`] says.
fn lookup_details(places: &Vec<PlaceCandidate>, details: &Vec<Option<PlaceDetails>>, id: &str) -> (r:
    Option<PlaceDetails>)
    requires
        places@.len() == details@.len(),
    ensures
        r == details_for(places@, details@, id@),
{
    let mut k: usize = places.len();
    assert(places@.subrange(0, k as int) =~= places@);
    assert(details@.subrange(0, k as int) =~= details@);
    while k > 0
        invariant
            k <= places@.len(),
            places@.len() == details@.len(),
            details_for(places@, details@, id@) == details_for(
                places@.subrange(0, k as int),
                details@.subrange(0, k as int),
                id@,
            ),
        decreases k,
    {
        let ghost ps = places@.subrange(0, k as int);
        let ghost ds = details@.subrange(0, k as int);
        assert(ps.drop_last() =~= places@.subrange(0, k - 1));
        assert(ds.drop_last() =~= details@.subrange(0, k - 1));
        if same_text(places[k - 1].place_id.as_str(), id) {
            match &details[k - 1] {
                Some(d) => {
                    return Some(d.duplicate());
                },
                None => {},
            }
        }
        k = k - 1;
    }
    assert(places@.subrange(0, 0) =~= Seq::<PlaceCandidate>::empty());
    None
}

/// The travel-time summary of a list of travel times: total, longest, shortest.
fn summarize(times: &Vec<u32>) -> (r: (u32, u32, u32))
    requires
        times@.len() > 0,
        total_of(times@) <= u32::MAX,
    ensures
        r.0 == total_of(times@),
        r.1 == longest(times@),
        r.2 == shortest(times@),
        r.2 <= r.1,
{
    let mut total: u32 = 0;
    let mut most: u32 = times[0];
    let mut least: u32 = times[0];
    let mut i: usize = 0;
    while i < times.len()
        invariant
            1 <= times@.len(),
            i <= times@.len(),
            total_of(times@) <= u32::MAX,
            total == total_of(times@.subrange(0, i as int)),
            i > 0 ==> most == longest(times@.subrange(0, i as int)),
            i > 0 ==> least == shortest(times@.subrange(0, i as int)),
            i == 0 ==> most == times@[0] && least == times@[0],
            least <= most,
        decreases times@.len() - i,
    {
        let ghost s = times@.subrange(0, i + 1);
        assert(s.drop_last() =~= times@.subrange(0, i as int));
        proof {
            lemma_total_prefix_bound(times@, i + 1);
        }
        total = total + times[i];
        if i == 0 || times[i] > most {
            most = times[i];
        }
        if i == 0 || times[i] < least {
            least = times[i];
        }
        i = i + 1;
    }
    assert(times@.subrange(0, times@.len() as int) =~= times@);
    (total, most, least)
}

/// A prefix of the travel times sums to no more than all of them.
proof fn lemma_total_prefix_bound(ts: Seq<u32>, n: int)
    requires
        0 <= n <= ts.len(),
    ensures
        total_of(ts.subrange(0, n)) <= total_of(ts),
    decreases ts.len() - n,
{
    if n < ts.len() {
        lemma_total_prefix_bound(ts, n + 1);
        assert(ts.subrange(0, n + 1).drop_last() =~= ts.subrange(0, n));
    } else {
        assert(ts.subrange(0, n) =~= ts);
    }
}

/// The venues of a batch of places: for each place in order that has its
/// details (see [`details_for`]), a row of travel times and every travel time
/// positive, the place with its address, link, travel times, their total,
/// longest and shortest, and the spread as fairness score.
/// `details[i]` is what fetching the details of `places[i]` gave, and
/// `times[i]` the travel times of the participants to `places[i]`.
pub fn assemble_venues(
    places: Vec<PlaceCandidate>,
    details: Vec<Option<PlaceDetails>>,
    times: Vec<Vec<u32>>,
) -> (r: Vec<VenueWithTravelTimes>)
    requires
        places@.len() == details@.len(),
        assemblable(places@, details@, times@),
    ensures
        r@ == venues_upto(places@, details@, times@, places@.len() as int),
{
    let ghost all_places = places@;
    let ghost all_details = details@;
    let ghost all_times = times@;
    let n = places.len();
    let mut chosen: Vec<Option<PlaceDetails>> = Vec::new();
    let mut i: usize = 0;
    while i < n
        invariant
            n == places@.len(),
            places@.len() == details@.len(),
            i <= n,
            chosen@.len() == i,
            forall|a: int| 0 <= a < i ==> #[trigger] chosen@[a] == details_for(
                places@,
                details@,
                places@[a].place_id@,
            ),
        decreases n - i,
    {
        chosen.push(lookup_details(&places, &details, places[i].place_id.as_str()));
        i = i + 1;
    }
    let mut rest_places = places;
    let mut rest_chosen = chosen;
    let mut rest_times = times;
    let mut venues: Vec<VenueWithTravelTimes> = Vec::new();
    let mut k: usize = 0;
    while k < n
        invariant
            n == all_places.len(),
            all_places.len() == all_details.len(),
            assemblable(all_places, all_details, all_times),
            k <= n,
            rest_places@ == all_places.subrange(k as int, n as int),
            rest_chosen@.len() == n - k,
            forall|a: int| 0 <= a < n - k ==> #[trigger] rest_chosen@[a] == details_for(
                all_places,
                all_details,
                all_places[a + k].place_id@,
            ),
            k <= all_times.len() ==> rest_times@ == all_times.subrange(k as int, all_times.len() as int),
            k > all_times.len() ==> rest_times@.len() == 0,
            venues@ == venues_upto(all_places, all_details, all_times, k as int),
        decreases n - k,
    {
        let place = rest_places.remove(0);
        let found = rest_chosen.remove(0);
        let has_row = rest_times.len() > 0;
        let row: Vec<u32> = if has_row {
            rest_times.remove(0)
        } else {
            Vec::new()
        };
        assert(place == all_places[k as int]);
        assert(found == details_for(all_places, all_details, all_places[k as int].place_id@));
        assert(has_row <==> k < all_times.len());
        assert(has_row ==> row == all_times[k as int]);
        let mut reachable = true;
        let mut j: usize = 0;
        while j < row.len()
            invariant
                j <= row@.len(),
                reachable <==> forall|b: int| 0 <= b < j ==> #[trigger] row@[b] > 0,
            decreases row@.len() - j,
        {
            if row[j] == 0 {
                reachable = false;
            }
            j = j + 1;
        }
        assert(reachable == all_reachable(row@));
        match found {
            Some(d) => {
                if has_row && reachable {
                    assert(becomes_venue(all_places, all_details, all_times, k as int));
                    let (total, most, least) = summarize(&row);
                    let venue = VenueWithTravelTimes {
                        place,
                        address: d.address,
                        google_url: d.url,
                        travel_times: row,
                        total_travel_time: total,
                        max_travel_time: most,
                        min_travel_time: least,
                        fairness_score: (most - least) as u64,
                    };
                    venues.push(venue);
                } else {
                    assert(!becomes_venue(all_places, all_details, all_times, k as int));
                }
            },
            None => {
                assert(!becomes_venue(all_places, all_details, all_times, k as int));
            },
        }
        proof {
            assert forall|a: int| 0 <= a < n - (k + 1) implies #[trigger] rest_chosen@[a]
                == details_for(all_places, all_details, all_places[a + k + 1].place_id@) by {
            }
            if k + 1 <= all_times.len() {
                assert(rest_times@ =~= all_times.subrange(k + 1, all_times.len() as int));
            }
        }
        k = k + 1;
    }
    venues
}

} // verus!
