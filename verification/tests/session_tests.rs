use mmitm::error::AppError;
use mmitm::geocoding::GeocodingService;
use mmitm::models::{
    Coordinate, CreateSessionRequest, GenerateRecommendationsRequest, JoinSessionRequest,
    PlaceCandidate, VenueWithTravelTimes,
    ParticipantInput, SessionSettings, SessionStatus, TransportMode,
    UpdateParticipantLocationRequest, SESSION_LIFETIME_MICROS,
};
use mmitm::session::{generate_join_code, SessionService};
use mmitm::store::SessionStore;

fn settings(auto_refresh: bool, require_all: bool) -> SessionSettings {
    SessionSettings {
        categories: vec!["restaurant".to_string(), "bar".to_string()],
        transport_mode: TransportMode::Drive,
        limit: 15,
        auto_refresh,
        require_all_participants: require_all,
    }
}

fn request(auto_refresh: bool, require_all: bool) -> CreateSessionRequest {
    CreateSessionRequest {
        name: "Friday Team Dinner".to_string(),
        creator_name: "John Doe".to_string(),
        settings: settings(auto_refresh, require_all),
    }
}

fn bad_request(e: AppError) -> String {
    match e {
        AppError::BadRequest(m) => m,
        other => panic!("expected a bad request, got {:?}", other),
    }
}

fn venue(name: &str, times: Vec<u32>) -> VenueWithTravelTimes {
    let max = *times.iter().max().unwrap();
    let min = *times.iter().min().unwrap();
    VenueWithTravelTimes {
        place: PlaceCandidate {
            place_id: format!("pid_{}", name),
            name: name.to_string(),
            coordinate: Coordinate { lat: "12.5".to_string(), lng: "77.5".to_string() },
            types: vec!["cafe".to_string()],
            rating: None,
            user_ratings_total: None,
            price_level: None,
        },
        address: format!("{} street", name),
        google_url: "https://maps.google.com/x".to_string(),
        total_travel_time: times.iter().sum(),
        max_travel_time: max,
        min_travel_time: min,
        fairness_score: (max - min) as u64,
        travel_times: times,
    }
}

fn here() -> ParticipantInput {
    ParticipantInput::Coordinate(Coordinate { lat: "12.9716".to_string(), lng: "77.5946".to_string() })
}

/// A store holding one session "S1" (join code "CODE01") created at time 0
/// by user "creator".
fn store_with_session(auto_refresh: bool, require_all: bool) -> SessionStore {
    let mut store = SessionStore::new();
    SessionService::create_session_at(
        &mut store,
        request(auto_refresh, require_all),
        "S1".to_string(),
        "creator".to_string(),
        "CODE01".to_string(),
        0,
        0,
        0,
        0,
    );
    store
}

#[test]
fn created_session_is_found_by_id_and_code() {
    let mut store = SessionStore::new();
    let r = SessionService::create_session_at(
        &mut store,
        request(true, false),
        "S1".to_string(),
        "creator".to_string(),
        "CODE01".to_string(),
        5,
        6,
        7,
        8,
    );
    assert_eq!(r.session_id, "S1");
    assert_eq!(r.join_code, "CODE01");
    assert_eq!(store.len(), 1);
    let by_id = SessionService::get_session_status(&store, "S1").unwrap();
    let by_code = SessionService::get_session_status(&store, "CODE01").unwrap();
    for s in [&by_id.session, &by_code.session, &r.session] {
        assert_eq!(s.id, "S1");
        assert_eq!(s.creator_id, "creator");
        assert_eq!(s.participants.len(), 1);
        assert_eq!(s.participants[0].user_id, "creator");
        assert_eq!(s.participants[0].name, "John Doe");
        assert!(s.participants[0].location.is_none());
        assert!(!s.participants[0].is_ready);
        assert_eq!(s.participants[0].joined_at, 5);
        assert_eq!(s.status, SessionStatus::WaitingForParticipants);
        assert_eq!(s.created_at, 6);
        assert_eq!(s.updated_at, 7);
        assert_eq!(s.expires_at, 8 + SESSION_LIFETIME_MICROS);
    }
    assert!(by_id.recommendations.is_none());
}

#[test]
fn create_session_with_fresh_identifiers() {
    let mut store = SessionStore::new();
    let r = SessionService::create_session(&mut store, request(false, false));
    assert_eq!(r.session_id.len(), 36);
    assert_eq!(r.join_code.len(), 6);
    assert_ne!(r.session.creator_id, r.session_id);
    // Each instant is its own clock reading, taken in order.
    let lifetime = r.session.expires_at - r.session.created_at;
    assert!(lifetime >= SESSION_LIFETIME_MICROS && lifetime < SESSION_LIFETIME_MICROS + 1_000_000);
    assert!(r.session.created_at > 0);
    assert_eq!(store.len(), 1);
    assert!(store.contains_key(&r.session_id));
    assert!(store.contains_key(&r.join_code));
}

#[test]
fn join_codes_are_six_alphanumeric_characters() {
    let code = generate_join_code();
    assert_eq!(code.chars().count(), 6);
    assert!(code.chars().all(|c| c.is_ascii_uppercase() || c.is_ascii_digit()));
}

#[test]
fn join_by_code_joins_the_session() {
    let mut store = store_with_session(false, false);
    let join = JoinSessionRequest {
        session_id: None,
        join_code: Some("CODE01".to_string()),
        participant_name: "Jane Smith".to_string(),
    };
    let r = SessionService::join_session_at(&mut store, join, "jane".to_string(), 1, 2, 3).unwrap();
    assert_eq!(r.user_id, "jane");
    assert_eq!(r.session.id, "S1");
    assert_eq!(r.session.participants.len(), 2);
    assert_eq!(r.session.participants[1].name, "Jane Smith");
    assert_eq!(r.session.participants[1].joined_at, 2);
    assert_eq!(r.session.updated_at, 3);
    let by_id = SessionService::get_session_status(&store, "S1").unwrap();
    assert_eq!(by_id.session.participants.len(), 2);
    assert_eq!(by_id.session.participants[1].user_id, "jane");
    let by_code = SessionService::get_session_status(&store, "CODE01").unwrap();
    assert_eq!(by_code.session.participants.len(), 2);
    assert_eq!(store.len(), 1);
    // The joiner can report a location through the session id.
    let r = SessionService::update_participant_location_at(
        &mut store,
        UpdateParticipantLocationRequest {
            session_id: "S1".to_string(),
            user_id: "jane".to_string(),
            location: here(),
            is_ready: true,
        },
        4,
    )
    .unwrap();
    assert!(r.session.participants[1].is_ready);
}

#[test]
fn session_id_wins_over_join_code() {
    let mut store = store_with_session(false, false);
    let join = JoinSessionRequest {
        session_id: Some("S1".to_string()),
        join_code: Some("nonexistent".to_string()),
        participant_name: "Jane".to_string(),
    };
    assert!(SessionService::join_session_at(&mut store, join, "jane".to_string(), 1, 1, 1).is_ok());
}

#[test]
fn join_requires_a_session_reference() {
    let mut store = store_with_session(false, false);
    let join = JoinSessionRequest { session_id: None, join_code: None, participant_name: "x".to_string() };
    let e = SessionService::join_session(&mut store, join).unwrap_err();
    assert_eq!(e.status_code(), 400);
    assert_eq!(bad_request(e), "Either session_id or join_code is required");
}

#[test]
fn join_unknown_session_fails() {
    let mut store = store_with_session(false, false);
    let join = JoinSessionRequest {
        session_id: Some("nope".to_string()),
        join_code: None,
        participant_name: "x".to_string(),
    };
    let e = SessionService::join_session(&mut store, join).unwrap_err();
    assert_eq!(bad_request(e), "Session not found");
}

#[test]
fn join_expired_session_marks_it_expired() {
    let mut store = store_with_session(false, false);
    let late = SESSION_LIFETIME_MICROS + 1;
    let join = JoinSessionRequest {
        session_id: Some("S1".to_string()),
        join_code: None,
        participant_name: "x".to_string(),
    };
    let e = SessionService::join_session_at(&mut store, join, "u".to_string(), late, late, late).unwrap_err();
    assert_eq!(bad_request(e), "Session has expired");
    let s = SessionService::get_session_status(&store, "S1").unwrap().session;
    assert_eq!(s.status, SessionStatus::Expired);
    assert_eq!(s.participants.len(), 1);
    // At the very instant of expiry the session is still open.
    let mut store = store_with_session(false, false);
    let join = JoinSessionRequest {
        session_id: Some("S1".to_string()),
        join_code: None,
        participant_name: "x".to_string(),
    };
    let at = SESSION_LIFETIME_MICROS;
    assert!(SessionService::join_session_at(&mut store, join, "u".to_string(), at, at, at).is_ok());
}

#[test]
fn location_updates_and_automatic_readiness() {
    let mut store = store_with_session(true, false);
    let join = JoinSessionRequest {
        session_id: Some("S1".to_string()),
        join_code: None,
        participant_name: "Jane".to_string(),
    };
    SessionService::join_session_at(&mut store, join, "jane".to_string(), 1, 1, 1).unwrap();
    let update = |uid: &str| UpdateParticipantLocationRequest {
        session_id: "S1".to_string(),
        user_id: uid.to_string(),
        location: here(),
        is_ready: true,
    };
    let r = SessionService::update_participant_location_at(&mut store, update("creator"), 10).unwrap();
    assert!(r.recommendations.is_none());
    assert_eq!(r.session.status, SessionStatus::WaitingForParticipants);
    assert_eq!(r.session.updated_at, 10);
    assert!(r.session.participants[0].is_ready);
    assert!(r.session.participants[0].location.is_some());
    let r = SessionService::update_participant_location_at(&mut store, update("jane"), 11).unwrap();
    assert_eq!(r.session.status, SessionStatus::ReadyForRecommendations);
    let stored = SessionService::get_session_status(&store, "S1").unwrap().session;
    assert_eq!(stored.status, SessionStatus::ReadyForRecommendations);
}

#[test]
fn waiting_for_everyone() {
    let mut store = store_with_session(true, true);
    let join = JoinSessionRequest {
        session_id: Some("S1".to_string()),
        join_code: None,
        participant_name: "Jane".to_string(),
    };
    SessionService::join_session_at(&mut store, join, "jane".to_string(), 1, 1, 1).unwrap();
    let r = SessionService::update_participant_location_at(
        &mut store,
        UpdateParticipantLocationRequest {
            session_id: "S1".to_string(),
            user_id: "creator".to_string(),
            location: here(),
            is_ready: true,
        },
        2,
    )
    .unwrap();
    assert_eq!(r.session.status, SessionStatus::WaitingForParticipants);
    let r = SessionService::update_participant_location_at(
        &mut store,
        UpdateParticipantLocationRequest {
            session_id: "S1".to_string(),
            user_id: "jane".to_string(),
            location: ParticipantInput::Address { address: "Bangalore".to_string() },
            is_ready: true,
        },
        3,
    )
    .unwrap();
    assert_eq!(r.session.status, SessionStatus::ReadyForRecommendations);
}

#[test]
fn no_automatic_readiness_without_auto_refresh() {
    let mut store = store_with_session(false, false);
    let join = JoinSessionRequest {
        session_id: Some("S1".to_string()),
        join_code: None,
        participant_name: "Jane".to_string(),
    };
    SessionService::join_session_at(&mut store, join, "jane".to_string(), 1, 1, 1).unwrap();
    for uid in ["creator", "jane"] {
        let r = SessionService::update_participant_location(
            &mut store,
            UpdateParticipantLocationRequest {
                session_id: "S1".to_string(),
                user_id: uid.to_string(),
                location: here(),
                is_ready: true,
            },
        )
        .unwrap();
        assert_eq!(r.session.status, SessionStatus::WaitingForParticipants);
    }
}

#[test]
fn location_update_errors() {
    let mut store = store_with_session(true, false);
    let e = SessionService::update_participant_location(
        &mut store,
        UpdateParticipantLocationRequest {
            session_id: "nope".to_string(),
            user_id: "creator".to_string(),
            location: here(),
            is_ready: true,
        },
    )
    .unwrap_err();
    assert_eq!(bad_request(e), "Session not found");
    let e = SessionService::update_participant_location(
        &mut store,
        UpdateParticipantLocationRequest {
            session_id: "S1".to_string(),
            user_id: "stranger".to_string(),
            location: here(),
            is_ready: true,
        },
    )
    .unwrap_err();
    assert_eq!(bad_request(e), "Participant not found in session");
}

#[test]
fn generation_cycle() {
    let mut store = store_with_session(false, false);
    let gen = GenerateRecommendationsRequest { session_id: "S1".to_string(), user_id: "creator".to_string() };
    // Only the creator, without a location: refused, but marked as generating.
    let e = SessionService::begin_generation_at(&mut store, &gen, 5).unwrap_err();
    assert_eq!(bad_request(e), "At least 2 participants with locations are required");
    let s = SessionService::get_session_status(&store, "S1").unwrap().session;
    assert_eq!(s.status, SessionStatus::GeneratingRecommendations);
    assert_eq!(s.updated_at, 5);

    let join = JoinSessionRequest {
        session_id: Some("S1".to_string()),
        join_code: None,
        participant_name: "Jane".to_string(),
    };
    SessionService::join_session_at(&mut store, join, "jane".to_string(), 6, 6, 6).unwrap();
    for uid in ["jane", "creator"] {
        SessionService::update_participant_location_at(
            &mut store,
            UpdateParticipantLocationRequest {
                session_id: "S1".to_string(),
                user_id: uid.to_string(),
                location: ParticipantInput::Address { address: uid.to_string() },
                is_ready: false,
            },
            7,
        )
        .unwrap();
    }
    let plan = SessionService::begin_generation_at(&mut store, &gen, 8).unwrap();
    let addresses: Vec<String> = plan
        .participant_inputs
        .iter()
        .map(|p| match p {
            ParticipantInput::Address { address } => address.clone(),
            ParticipantInput::Coordinate(_) => panic!("address expected"),
        })
        .collect();
    assert_eq!(addresses, vec!["creator", "jane"]);
    assert_eq!(plan.categories, vec!["restaurant", "bar"]);
    assert_eq!(plan.transport_mode, TransportMode::Drive);
    assert_eq!(plan.limit, 15);

    let participants = vec![
        Coordinate { lat: "1".to_string(), lng: "2".to_string() },
        Coordinate { lat: "3".to_string(), lng: "4".to_string() },
    ];
    let geocoding = GeocodingService::new("k".to_string());
    // "Cafe Two" is fairer (spread 2) than "Cafe One" (spread 5); with two
    // participants neither spread is above ten, so no penalty applies.
    let venues = vec![venue("Cafe One", vec![10, 15]), venue("Cafe Two", vec![12, 14])];
    let done = SessionService::finish_generation_at(&mut store, "S1", venues, &participants, &geocoding, 9).unwrap();
    assert_eq!(done.status, SessionStatus::RecommendationsReady);
    assert_eq!(done.updated_at, 9);
    assert_eq!(done.recommendations.as_ref().map(|v| v.len()), Some(2));
    assert!(SessionService::finish_generation(&mut store, "missing", vec![], &participants, &geocoding).is_none());

    // A later status request answers with the stored recommendations, by id
    // and by join code.
    for key in ["S1", "CODE01"] {
        let status = SessionService::get_session_status(&store, key).unwrap();
        assert_eq!(status.session.status, SessionStatus::RecommendationsReady);
        let got = status.recommendations.expect("recommendations are stored");
        assert_eq!(got.len(), 2);
        assert_eq!(got[0].name, "Cafe Two");
        assert_eq!(got[1].name, "Cafe One");
        assert_eq!(got[0].travel_times[0].travel_time_minutes, 12);
        assert_eq!(got[0].travel_times[1].travel_time_minutes, 14);
        assert_eq!(got[0].travel_times[0].transport_mode, "DRIVE");
    }
}

#[test]
fn generation_errors() {
    let mut store = store_with_session(false, false);
    let e = SessionService::begin_generation(
        &mut store,
        &GenerateRecommendationsRequest { session_id: "x".to_string(), user_id: "creator".to_string() },
    )
    .unwrap_err();
    assert_eq!(bad_request(e), "Session not found");
    let e = SessionService::begin_generation(
        &mut store,
        &GenerateRecommendationsRequest { session_id: "S1".to_string(), user_id: "nobody".to_string() },
    )
    .unwrap_err();
    assert_eq!(bad_request(e), "User not found in session");
    let s = SessionService::get_session_status(&store, "S1").unwrap().session;
    assert_eq!(s.status, SessionStatus::WaitingForParticipants);
}

#[test]
fn health_counts_ready_participants() {
    let mut store = store_with_session(false, false);
    let join = JoinSessionRequest {
        session_id: Some("S1".to_string()),
        join_code: None,
        participant_name: "Jane".to_string(),
    };
    SessionService::join_session_at(&mut store, join, "jane".to_string(), 1, 1, 1).unwrap();
    SessionService::update_participant_location_at(
        &mut store,
        UpdateParticipantLocationRequest {
            session_id: "S1".to_string(),
            user_id: "jane".to_string(),
            location: here(),
            is_ready: true,
        },
        4,
    )
    .unwrap();
    let h = SessionService::session_health(&store, "S1").unwrap();
    assert_eq!(h.session_id, "S1");
    assert_eq!(h.participant_count, 2);
    assert_eq!(h.ready_count, 1);
    assert_eq!(h.updated_at, 4);
    assert_eq!(h.status, SessionStatus::WaitingForParticipants);
    // The join code names the same session.
    let h = SessionService::session_health(&store, "CODE01").unwrap();
    assert_eq!(h.session_id, "S1");
    assert_eq!(h.participant_count, 2);
    assert_eq!(bad_request(SessionService::session_health(&store, "nope").unwrap_err()), "Session not found");
}

#[test]
fn cleanup_removes_only_expired_sessions() {
    let mut store = store_with_session(false, false);
    SessionService::create_session_at(
        &mut store,
        request(false, false),
        "S2".to_string(),
        "c2".to_string(),
        "CODE02".to_string(),
        0,
        0,
        0,
        1_000,
    );
    assert_eq!(store.len(), 2);
    let now = SESSION_LIFETIME_MICROS + 500;
    SessionService::cleanup_expired_sessions_at(&mut store, now);
    assert_eq!(store.len(), 1);
    assert!(store.contains_key("S2"));
    assert!(store.contains_key("CODE02"));
    assert!(!store.contains_key("S1"));
    assert!(!store.contains_key("CODE01"));
    SessionService::cleanup_expired_sessions_at(&mut store, now);
    assert_eq!(store.len(), 1);
    // Against the real clock both sessions, opened in 1970, have expired.
    SessionService::cleanup_expired_sessions(&mut store);
    assert_eq!(store.len(), 0);
}

#[test]
fn fresh_sessions_survive_cleanup_now() {
    let mut store = SessionStore::new();
    SessionService::create_session(&mut store, request(false, false));
    SessionService::cleanup_expired_sessions(&mut store);
    assert_eq!(store.len(), 1);
}

#[test]
fn expired_session_stays_closed() {
    let mut store = store_with_session(false, false);
    let late = SESSION_LIFETIME_MICROS + 10;
    for (uid, at) in [("u1", late), ("u2", late + 1)] {
        let join = JoinSessionRequest {
            session_id: None,
            join_code: Some("CODE01".to_string()),
            participant_name: "x".to_string(),
        };
        let e = SessionService::join_session_at(&mut store, join, uid.to_string(), at, at, at).unwrap_err();
        assert_eq!(bad_request(e), "Session has expired");
    }
    assert_eq!(
        SessionService::get_session_status(&store, "CODE01").unwrap().session.status,
        SessionStatus::Expired
    );
    // The session itself is expired, whichever name is used.
    assert_eq!(
        SessionService::get_session_status(&store, "S1").unwrap().session.status,
        SessionStatus::Expired
    );
}

#[test]
fn far_future_session_is_joined_and_kept_now() {
    let mut store = SessionStore::new();
    let far = mmitm::world::LATEST_CLOCK_MICROS - SESSION_LIFETIME_MICROS;
    SessionService::create_session_at(
        &mut store,
        request(false, false),
        "S9".to_string(),
        "c9".to_string(),
        "CODE09".to_string(),
        0,
        0,
        0,
        far,
    );
    let join = JoinSessionRequest {
        session_id: None,
        join_code: Some("CODE09".to_string()),
        participant_name: "Jane".to_string(),
    };
    let r = SessionService::join_session(&mut store, join).unwrap();
    assert_eq!(r.session.participants.len(), 2);
    SessionService::cleanup_expired_sessions(&mut store);
    assert!(store.contains_key("S9"));
    assert!(store.contains_key("CODE09"));
}
