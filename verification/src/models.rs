//! The data the service works on: sessions and their participants, place
//! candidates, travel-time matrices and the recommendations handed back.
//!
//! Floating-point values never enter this library. A latitude, a longitude
//! or a rating travels through it as its decimal rendering: the text that
//! Rust's `Display` writes for the `f64` (for example `"37.7749"`), which
//! reads back to the same `f64`. Instants are microseconds since the Unix
//! epoch, UTC.
use vstd::prelude::*;

verus! {

/// Microseconds since 1970-01-01T00:00:00Z.
pub type Timestamp = i64;

/// Twenty-four hours, in microseconds: how long a session stays open.
pub const SESSION_LIFETIME_MICROS: i64 = 86_400_000_000i64;

/// A position on the globe, each angle held as its decimal rendering.
#[derive(Debug)]
pub struct Coordinate {
    pub lat: String,
    pub lng: String,
}

/// Where a participant is: either a position or an address to geocode.
#[derive(Debug)]
pub enum ParticipantInput {
    Coordinate(Coordinate),
    Address { address: String },
}

/// The travel mode used for travel times and directions.
#[derive(Debug, Clone, Copy, PartialEq, Eq, Structural)]
pub enum TransportMode {
    Drive,
    Walk,
    Transit,
    Bicycle,
}

impl Default for TransportMode {
    fn default() -> (r: Self)
        ensures
            r == TransportMode::Drive,
    {
        TransportMode::Drive
    }
}

/// The number of recommendations a request asks for when it names none.
pub fn default_limit() -> (r: usize)
    ensures
        r == 10,
{
    10
}

/// Where a session stands in its life.
#[derive(Debug, Clone, Copy, PartialEq, Eq, Structural)]
pub enum SessionStatus {
    WaitingForParticipants,
    ReadyForRecommendations,
    GeneratingRecommendations,
    RecommendationsReady,
    Expired,
}

/// A participant of a session.
#[derive(Debug)]
pub struct Participant {
    pub user_id: String,
    pub name: String,
    pub location: Option<ParticipantInput>,
    pub joined_at: Timestamp,
    pub is_ready: bool,
}

/// How a session searches and when it regenerates its recommendations.
#[derive(Debug)]
pub struct SessionSettings {
    pub categories: Vec<String>,
    pub transport_mode: TransportMode,
    pub limit: usize,
    pub auto_refresh: bool,
    pub require_all_participants: bool,
}

/// The mathematical content of [`SessionSettings`].
pub struct SettingsView {
    pub categories: Seq<Seq<char>>,
    pub transport_mode: TransportMode,
    pub limit: usize,
    pub auto_refresh: bool,
    pub require_all_participants: bool,
}

/// The texts of a vector of strings.
pub open spec fn texts(v: Seq<String>) -> Seq<Seq<char>> {
    v.map_values(|s: String| s@)
}

impl View for SessionSettings {
    type V = SettingsView;

    open spec fn view(&self) -> SettingsView {
        SettingsView {
            categories: texts(self.categories@),
            transport_mode: self.transport_mode,
            limit: self.limit,
            auto_refresh: self.auto_refresh,
            require_all_participants: self.require_all_participants,
        }
    }
}

/// A planning session. Participants are kept in the order in which they
/// joined; no two of them share a user id.
#[derive(Debug)]
pub struct Session {
    pub id: String,
    pub name: String,
    pub creator_id: String,
    pub participants: Vec<Participant>,
    pub settings: SessionSettings,
    pub status: SessionStatus,
    pub created_at: Timestamp,
    pub updated_at: Timestamp,
    pub expires_at: Timestamp,
    /// The recommendations last generated for the session, if any.
    pub recommendations: Option<Vec<EnhancedVenueRecommendation>>,
}

/// The mathematical content of a [`Session`].
pub struct SessionView {
    pub id: Seq<char>,
    pub name: Seq<char>,
    pub creator_id: Seq<char>,
    pub participants: Seq<Participant>,
    pub settings: SettingsView,
    pub status: SessionStatus,
    pub created_at: Timestamp,
    pub updated_at: Timestamp,
    pub expires_at: Timestamp,
    pub recommendations: Option<Seq<RecommendationView>>,
}

/// The contents of a list of recommendations.
pub open spec fn recommendation_views(v: Seq<EnhancedVenueRecommendation>) -> Seq<RecommendationView> {
    v.map_values(|r: EnhancedVenueRecommendation| r@)
}

/// The contents of an optional list of recommendations.
pub open spec fn stored_recommendations(o: Option<Vec<EnhancedVenueRecommendation>>) -> Option<
    Seq<RecommendationView>,
> {
    match o {
        Some(v) => Some(recommendation_views(v@)),
        None => None,
    }
}

impl View for Session {
    type V = SessionView;

    open spec fn view(&self) -> SessionView {
        SessionView {
            id: self.id@,
            name: self.name@,
            creator_id: self.creator_id@,
            participants: self.participants@,
            settings: self.settings@,
            status: self.status,
            created_at: self.created_at,
            updated_at: self.updated_at,
            expires_at: self.expires_at,
            recommendations: stored_recommendations(self.recommendations),
        }
    }
}

/// No two participants share a user id.
pub open spec fn unique_user_ids(ps: Seq<Participant>) -> bool {
    forall|i: int, j: int|
        0 <= i < ps.len() && 0 <= j < ps.len() && i != j ==> (#[trigger] ps[i]).user_id@
            != (#[trigger] ps[j]).user_id@
}

impl SessionView {
    /// The session's participants are told apart by their user ids.
    pub open spec fn well_formed(self) -> bool {
        unique_user_ids(self.participants)
    }

    /// Whether a participant with this user id belongs to the session.
    pub open spec fn has_participant(self, user_id: Seq<char>) -> bool {
        exists|i: int|
            0 <= i < self.participants.len() && (#[trigger] self.participants[i]).user_id@
                == user_id
    }
}

impl Coordinate {
    /// An independent copy.
    pub fn duplicate(&self) -> (r: Coordinate)
        ensures
            r == *self,
    {
        Coordinate { lat: self.lat.clone(), lng: self.lng.clone() }
    }
}

impl ParticipantInput {
    /// An independent copy.
    pub fn duplicate(&self) -> (r: ParticipantInput)
        ensures
            r == *self,
    {
        match self {
            ParticipantInput::Coordinate(c) => ParticipantInput::Coordinate(c.duplicate()),
            ParticipantInput::Address { address } => ParticipantInput::Address {
                address: address.clone(),
            },
        }
    }
}

impl Participant {
    /// An independent copy.
    pub fn duplicate(&self) -> (r: Participant)
        ensures
            r == *self,
    {
        let location = match &self.location {
            Some(l) => Some(l.duplicate()),
            None => None,
        };
        Participant {
            user_id: self.user_id.clone(),
            name: self.name.clone(),
            location,
            joined_at: self.joined_at,
            is_ready: self.is_ready,
        }
    }
}

/// An independent copy of a vector of strings.
pub fn copy_strings(v: &Vec<String>) -> (r: Vec<String>)
    ensures
        r@ == v@,
{
    let mut r: Vec<String> = Vec::new();
    let mut i: usize = 0;
    while i < v.len()
        invariant
            i <= v.len(),
            r@ == v@.subrange(0, i as int),
        decreases v.len() - i,
    {
        r.push(v[i].clone());
        i = i + 1;
    }
    assert(v@.subrange(0, v.len() as int) == v@);
    r
}

/// An independent copy of a vector of participants.
pub fn copy_participants(v: &Vec<Participant>) -> (r: Vec<Participant>)
    ensures
        r@ == v@,
{
    let mut r: Vec<Participant> = Vec::new();
    let mut i: usize = 0;
    while i < v.len()
        invariant
            i <= v.len(),
            r@ == v@.subrange(0, i as int),
        decreases v.len() - i,
    {
        r.push(v[i].duplicate());
        i = i + 1;
    }
    assert(v@.subrange(0, v.len() as int) == v@);
    r
}

impl SessionSettings {
    /// An independent copy.
    pub fn duplicate(&self) -> (r: SessionSettings)
        ensures
            r@ == self@,
            r.categories@ == self.categories@,
    {
        SessionSettings {
            categories: copy_strings(&self.categories),
            transport_mode: self.transport_mode,
            limit: self.limit,
            auto_refresh: self.auto_refresh,
            require_all_participants: self.require_all_participants,
        }
    }
}

impl Session {
    /// An independent copy.
    pub fn duplicate(&self) -> (r: Session)
        ensures
            r@ == self@,
    {
        Session {
            id: self.id.clone(),
            name: self.name.clone(),
            creator_id: self.creator_id.clone(),
            participants: copy_participants(&self.participants),
            settings: self.settings.duplicate(),
            status: self.status,
            created_at: self.created_at,
            updated_at: self.updated_at,
            expires_at: self.expires_at,
            recommendations: match &self.recommendations {
                Some(v) => Some(copy_recommendations(v)),
                None => None,
            },
        }
    }
}

// Requests and replies of the session service.

/// A request to open a session.
#[derive(Debug)]
pub struct CreateSessionRequest {
    pub name: String,
    pub creator_name: String,
    pub settings: SessionSettings,
}

/// The reply to [`CreateSessionRequest`].
#[derive(Debug)]
pub struct CreateSessionResponse {
    pub session_id: String,
    pub join_code: String,
    pub session: Session,
}

/// A request to join a session, named by its id or by its join code.
#[derive(Debug)]
pub struct JoinSessionRequest {
    pub session_id: Option<String>,
    pub join_code: Option<String>,
    pub participant_name: String,
}

/// The reply to [`JoinSessionRequest`].
#[derive(Debug)]
pub struct JoinSessionResponse {
    pub user_id: String,
    pub session: Session,
}

/// A participant reports where they are and whether they are ready.
#[derive(Debug)]
pub struct UpdateParticipantLocationRequest {
    pub session_id: String,
    pub user_id: String,
    pub location: ParticipantInput,
    pub is_ready: bool,
}

/// A request that a session's recommendations be generated.
#[derive(Debug)]
pub struct GenerateRecommendationsRequest {
    pub session_id: String,
    pub user_id: String,
}

/// A session together with the recommendations that were made for it, if any.
#[derive(Debug)]
pub struct SessionStatusResponse {
    pub session: Session,
    pub recommendations: Option<Vec<EnhancedVenueRecommendation>>,
}

/// A one-off request for recommendations.
#[derive(Debug)]
pub struct RecommendationRequest {
    pub participants: Vec<ParticipantInput>,
    pub categories: Vec<String>,
    pub limit: usize,
    pub transport_mode: TransportMode,
}

// Places and travel times.

/// A place found near the search center.
#[derive(Debug)]
pub struct PlaceCandidate {
    pub place_id: String,
    pub name: String,
    pub coordinate: Coordinate,
    pub types: Vec<String>,
    /// The rating's decimal rendering.
    pub rating: Option<String>,
    pub user_ratings_total: Option<u32>,
    pub price_level: Option<String>,
}

/// A place with the travel time of every participant to it, in minutes.
/// The fairness score is the spread between the longest and the shortest
/// travel time, raised by the ranking's penalty; lower is better.
#[derive(Debug)]
pub struct VenueWithTravelTimes {
    pub place: PlaceCandidate,
    pub address: String,
    pub google_url: String,
    pub travel_times: Vec<u32>,
    pub total_travel_time: u32,
    pub max_travel_time: u32,
    pub min_travel_time: u32,
    pub fairness_score: u64,
}

/// The per-participant part of a recommendation.
#[derive(Debug)]
pub struct TravelTimeInfo {
    pub participant_index: usize,
    pub travel_time_minutes: u32,
    pub transport_mode: String,
    pub google_maps_directions_url: String,
}

/// A recommended venue as the service returns it. `lat`, `lng` and
/// `rating` are decimal renderings.
#[derive(Debug)]
pub struct EnhancedVenueRecommendation {
    pub name: String,
    pub address: String,
    pub lat: String,
    pub lng: String,
    pub rating: Option<String>,
    pub reviews: Option<u32>,
    pub google_maps_url: String,
    pub travel_times: Vec<TravelTimeInfo>,
    pub category: String,
    pub price_level: Option<String>,
}

/// The mathematical content of an [`EnhancedVenueRecommendation`].
pub struct RecommendationView {
    pub name: String,
    pub address: String,
    pub lat: String,
    pub lng: String,
    pub rating: Option<String>,
    pub reviews: Option<u32>,
    pub google_maps_url: String,
    pub travel_times: Seq<TravelTimeInfo>,
    pub category: String,
    pub price_level: Option<String>,
}

impl View for EnhancedVenueRecommendation {
    type V = RecommendationView;

    open spec fn view(&self) -> RecommendationView {
        RecommendationView {
            name: self.name,
            address: self.address,
            lat: self.lat,
            lng: self.lng,
            rating: self.rating,
            reviews: self.reviews,
            google_maps_url: self.google_maps_url,
            travel_times: self.travel_times@,
            category: self.category,
            price_level: self.price_level,
        }
    }
}

impl TravelTimeInfo {
    /// An independent copy.
    pub fn duplicate(&self) -> (r: TravelTimeInfo)
        ensures
            r == *self,
    {
        TravelTimeInfo {
            participant_index: self.participant_index,
            travel_time_minutes: self.travel_time_minutes,
            transport_mode: self.transport_mode.clone(),
            google_maps_directions_url: self.google_maps_directions_url.clone(),
        }
    }
}

/// An independent copy of an optional string.
fn copy_text(o: &Option<String>) -> (r: Option<String>)
    ensures
        r == *o,
{
    match o {
        Some(t) => Some(t.clone()),
        None => None,
    }
}

impl EnhancedVenueRecommendation {
    /// An independent copy.
    pub fn duplicate(&self) -> (r: EnhancedVenueRecommendation)
        ensures
            r@ == self@,
    {
        let mut trips: Vec<TravelTimeInfo> = Vec::new();
        let mut i: usize = 0;
        while i < self.travel_times.len()
            invariant
                i <= self.travel_times@.len(),
                trips@ == self.travel_times@.subrange(0, i as int),
            decreases self.travel_times@.len() - i,
        {
            trips.push(self.travel_times[i].duplicate());
            i = i + 1;
        }
        assert(self.travel_times@.subrange(0, self.travel_times@.len() as int) == self.travel_times@);
        EnhancedVenueRecommendation {
            name: self.name.clone(),
            address: self.address.clone(),
            lat: self.lat.clone(),
            lng: self.lng.clone(),
            rating: copy_text(&self.rating),
            reviews: self.reviews,
            google_maps_url: self.google_maps_url.clone(),
            travel_times: trips,
            category: self.category.clone(),
            price_level: copy_text(&self.price_level),
        }
    }
}

/// An independent copy of a list of recommendations.
pub fn copy_recommendations(v: &Vec<EnhancedVenueRecommendation>) -> (r: Vec<EnhancedVenueRecommendation>)
    ensures
        recommendation_views(r@) == recommendation_views(v@),
{
    let mut r: Vec<EnhancedVenueRecommendation> = Vec::new();
    let mut i: usize = 0;
    while i < v.len()
        invariant
            i <= v.len(),
            r@.len() == i,
            forall|k: int| 0 <= k < i ==> (#[trigger] r@[k])@ == v@[k]@,
        decreases v.len() - i,
    {
        let c = v[i].duplicate();
        r.push(c);
        i = i + 1;
    }
    assert(recommendation_views(r@) =~= recommendation_views(v@));
    r
}

// Replies of the Google APIs that the logic reads.

/// The display name of a place (Places API, New).
#[derive(Debug)]
pub struct GoogleDisplayName {
    pub text: String,
    pub language_code: Option<String>,
}

/// A Place Details (New) reply.
#[derive(Debug)]
pub struct GooglePlaceDetailsNewResponse {
    pub formatted_address: String,
    pub google_maps_uri: String,
}

/// A legacy Place Details reply.
#[derive(Debug)]
pub struct GooglePlaceDetailsResponse {
    pub result: GooglePlaceDetails,
    pub status: String,
}

/// The details inside a legacy Place Details reply.
#[derive(Debug)]
pub struct GooglePlaceDetails {
    pub formatted_address: String,
    pub url: String,
}

/// A Distance Matrix reply: one row per origin, one element per destination.
#[derive(Debug)]
pub struct GoogleDistanceMatrixResponse {
    pub rows: Vec<GoogleDistanceRow>,
    pub status: String,
}

/// One origin's row of a Distance Matrix reply.
#[derive(Debug)]
pub struct GoogleDistanceRow {
    pub elements: Vec<GoogleDistanceElement>,
}

/// One origin-destination pair of a Distance Matrix reply.
#[derive(Debug)]
pub struct GoogleDistanceElement {
    pub status: String,
    pub duration: Option<GoogleDuration>,
}

/// A travel duration in seconds.
#[derive(Debug, Clone, Copy)]
pub struct GoogleDuration {
    pub value: u32,
}

} // verus!
