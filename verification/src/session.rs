//! Collaborative sessions: creating, joining, reporting locations, the
//! recommendation cycle, expiry.
use vstd::prelude::*;
use vstd::string::{StrSliceExecFns, StringExecFns};

use crate::error::AppError;
use crate::models::{
    CreateSessionRequest, CreateSessionResponse, GenerateRecommendationsRequest,
    JoinSessionRequest, JoinSessionResponse, Participant, ParticipantInput, Session,
    SessionStatus, SessionStatusResponse, SessionView, Timestamp,
    TransportMode, UpdateParticipantLocationRequest, SESSION_LIFETIME_MICROS, unique_user_ids,
};
use crate::models::{stored_recommendations, recommendation_views, texts, EnhancedVenueRecommendation};
use crate::store::{codes_of, noted, resolve, unexpired, SessionStore, StoreView};
use crate::fresh::{digits, keep_or_renumber, lemma_digits_shape, lemma_pow36_13, numbered_name, pow36};
use crate::geocoding::GeocodingService;
use crate::models::{copy_recommendations, Coordinate, VenueWithTravelTimes};
use crate::ranking::rankable;
use crate::recommendations::{answerable, exactly_two, is_answer, recommend_from_venues};
use crate::world::{clock_now, fresh_id, random_below, LATEST_CLOCK_MICROS};

verus! {

// Participants.

/// Whether some participant has this user id.
pub open spec fn has_user(ps: Seq<Participant>, user_id: Seq<char>) -> bool {
    exists|i: int| 0 <= i < ps.len() && (#[trigger] ps[i]).user_id@ == user_id
}

/// The position of the participant with this user id (meaningful when
/// there is one).
pub open spec fn user_index(ps: Seq<Participant>, user_id: Seq<char>) -> int {
    choose|i: int| 0 <= i < ps.len() && (#[trigger] ps[i]).user_id@ == user_id
}

/// The participants after `p` is put in: it replaces the participant with
/// the same user id, or joins at the end.
pub open spec fn put_participant(ps: Seq<Participant>, p: Participant) -> Seq<Participant> {
    if has_user(ps, p.user_id@) {
        ps.update(user_index(ps, p.user_id@), p)
    } else {
        ps.push(p)
    }
}

/// Under unique user ids, `user_index` finds the participant at `i`.
pub proof fn lemma_user_index(ps: Seq<Participant>, i: int)
    requires
        unique_user_ids(ps),
        0 <= i < ps.len(),
    ensures
        has_user(ps, ps[i].user_id@),
        user_index(ps, ps[i].user_id@) == i,
{
    assert(has_user(ps, ps[i].user_id@));
}

/// The position of the participant with `user_id`, if there is one.
pub fn find_participant(ps: &Vec<Participant>, user_id: &str) -> (r: Option<usize>)
    requires
        unique_user_ids(ps@),
    ensures
        r is None <==> !has_user(ps@, user_id@),
        r matches Some(i) ==> i < ps@.len() && i == user_index(ps@, user_id@),
{
    let mut i: usize = 0;
    while i < ps.len()
        invariant
            i <= ps@.len(),
            unique_user_ids(ps@),
            forall|j: int| 0 <= j < i ==> (#[trigger] ps@[j]).user_id@ != user_id@,
        decreases ps@.len() - i,
    {
        if crate::text::same_text(ps[i].user_id.as_str(), user_id) {
            proof {
                lemma_user_index(ps@, i as int);
            }
            return Some(i);
        }
        i = i + 1;
    }
    None
}

/// Puts `p` among the participants (see [`put_participant`]).
pub fn upsert_participant(ps: &mut Vec<Participant>, p: Participant)
    requires
        unique_user_ids(old(ps)@),
    ensures
        final(ps)@ == put_participant(old(ps)@, p),
        unique_user_ids(final(ps)@),
{
    let ghost uid = p.user_id@;
    match find_participant(ps, p.user_id.as_str()) {
        Some(i) => {
            ps.set(i, p);
            proof {
                assert forall|a: int, b: int|
                    0 <= a < ps@.len() && 0 <= b < ps@.len() && a != b implies (#[trigger] ps@[a]).user_id@
                    != (#[trigger] ps@[b]).user_id@ by {
                    if a != i && b != i {
                        assert(ps@[a] == old(ps)@[a] && ps@[b] == old(ps)@[b]);
                    } else if a == i {
                        assert(ps@[b] == old(ps)@[b]);
                    } else {
                        assert(ps@[a] == old(ps)@[a]);
                    }
                }
            }
        },
        None => {
            ps.push(p);
            proof {
                assert forall|a: int, b: int|
                    0 <= a < ps@.len() && 0 <= b < ps@.len() && a != b implies (#[trigger] ps@[a]).user_id@
                    != (#[trigger] ps@[b]).user_id@ by {
                    let n = old(ps)@.len();
                    if a < n && b < n {
                        assert(ps@[a] == old(ps)@[a] && ps@[b] == old(ps)@[b]);
                    } else if a < n {
                        assert(ps@[a] == old(ps)@[a]);
                    } else if b < n {
                        assert(ps@[b] == old(ps)@[b]);
                    }
                }
            }
        },
    }
}

/// Ready with a location: counts toward generating recommendations.
pub open spec fn is_located_and_ready(p: Participant) -> bool {
    p.is_ready && p.location is Some
}

/// How many participants are ready and have a location.
pub open spec fn located_ready_count(ps: Seq<Participant>) -> nat
    decreases ps.len(),
{
    if ps.len() == 0 {
        0
    } else {
        located_ready_count(ps.drop_last()) + if is_located_and_ready(ps.last()) {
            1nat
        } else {
            0nat
        }
    }
}

/// How many participants say they are ready.
pub open spec fn ready_count(ps: Seq<Participant>) -> nat
    decreases ps.len(),
{
    if ps.len() == 0 {
        0
    } else {
        ready_count(ps.drop_last()) + if ps.last().is_ready {
            1nat
        } else {
            0nat
        }
    }
}

/// The locations the participants reported, in participant order.
pub open spec fn reported_locations(ps: Seq<Participant>) -> Seq<ParticipantInput>
    decreases ps.len(),
{
    if ps.len() == 0 {
        Seq::empty()
    } else {
        match ps.last().location {
            Some(l) => reported_locations(ps.drop_last()).push(l),
            None => reported_locations(ps.drop_last()),
        }
    }
}

/// Recommendations are due by themselves when the session refreshes
/// automatically and enough participants are ready with a location: all of
/// them if the settings ask for everyone, otherwise at least two.
pub open spec fn auto_generation_due(s: SessionView) -> bool {
    s.settings.auto_refresh && if s.settings.require_all_participants {
        located_ready_count(s.participants) == s.participants.len()
    } else {
        located_ready_count(s.participants) >= 2
    }
}

/// Counts the participants that are ready with a location.
fn count_located_ready(ps: &Vec<Participant>) -> (r: usize)
    ensures
        r == located_ready_count(ps@),
{
    let mut count: usize = 0;
    let mut i: usize = 0;
    while i < ps.len()
        invariant
            i <= ps@.len(),
            count == located_ready_count(ps@.subrange(0, i as int)),
            count <= i,
        decreases ps@.len() - i,
    {
        assert(ps@.subrange(0, i + 1).drop_last() =~= ps@.subrange(0, i as int));
        if ps[i].is_ready && ps[i].location.is_some() {
            count = count + 1;
        }
        i = i + 1;
    }
    assert(ps@.subrange(0, ps@.len() as int) =~= ps@);
    count
}

/// Counts the participants that say they are ready.
pub fn count_ready(ps: &Vec<Participant>) -> (r: usize)
    ensures
        r == ready_count(ps@),
{
    let mut count: usize = 0;
    let mut i: usize = 0;
    while i < ps.len()
        invariant
            i <= ps@.len(),
            count == ready_count(ps@.subrange(0, i as int)),
            count <= i,
        decreases ps@.len() - i,
    {
        assert(ps@.subrange(0, i + 1).drop_last() =~= ps@.subrange(0, i as int));
        if ps[i].is_ready {
            count = count + 1;
        }
        i = i + 1;
    }
    assert(ps@.subrange(0, ps@.len() as int) =~= ps@);
    count
}

/// Copies of the reported locations, in participant order.
pub fn collect_locations(ps: &Vec<Participant>) -> (r: Vec<ParticipantInput>)
    ensures
        r@ == reported_locations(ps@),
{
    let mut r: Vec<ParticipantInput> = Vec::new();
    let mut i: usize = 0;
    while i < ps.len()
        invariant
            i <= ps@.len(),
            r@ == reported_locations(ps@.subrange(0, i as int)),
        decreases ps@.len() - i,
    {
        assert(ps@.subrange(0, i + 1).drop_last() =~= ps@.subrange(0, i as int));
        match &ps[i].location {
            Some(l) => r.push(l.duplicate()),
            None => {},
        }
        i = i + 1;
    }
    assert(ps@.subrange(0, ps@.len() as int) =~= ps@);
    r
}


/// Whether a session's recommendations are due by themselves.
pub fn should_auto_generate_recommendations(session: &Session) -> (r: bool)
    ensures
        r == auto_generation_due(session@),
{
    if !session.settings.auto_refresh {
        return false;
    }
    let ready = count_located_ready(&session.participants);
    if session.settings.require_all_participants {
        ready == session.participants.len()
    } else {
        ready >= 2
    }
}

// Join codes.

/// The characters a join code is made of.
pub open spec fn join_code_alphabet() -> Seq<char> {
    "ABCDEFGHIJKLMNOPQRSTUVWXYZ0123456789"@
}

/// Six characters, each an upper-case ASCII letter or a digit.
pub open spec fn is_join_code(s: Seq<char>) -> bool {
    &&& s.len() == 6
    &&& forall|i: int| 0 <= i < 6 ==> join_code_alphabet().contains(#[trigger] s[i])
}

/// A random join code: six characters drawn one by one from the alphabet.
pub fn generate_join_code() -> (code: String)
    ensures
        is_join_code(code@),
{
    let charset: &str = "ABCDEFGHIJKLMNOPQRSTUVWXYZ0123456789";
    proof {
        reveal_strlit("ABCDEFGHIJKLMNOPQRSTUVWXYZ0123456789");
    }
    assert(charset@.len() == 36);
    let mut code: String = String::new();
    let mut k: usize = 0;
    while k < 6
        invariant
            k <= 6,
            charset@ == join_code_alphabet(),
            charset@.len() == 36,
            code@.len() == k,
            forall|i: int| 0 <= i < k ==> join_code_alphabet().contains(#[trigger] code@[i]),
        decreases 6 - k,
    {
        let idx = random_below(36);
        let piece = charset.substring_char(idx, idx + 1);
        let ghost before = code@;
        code.append(piece);
        proof {
            assert(piece@.len() == 1);
            assert(code@[k as int] == charset@[idx as int]);
            assert forall|i: int| 0 <= i < k + 1 implies join_code_alphabet().contains(
                #[trigger] code@[i],
            ) by {
                if i < k {
                    assert(code@[i] == before[i]);
                } else {
                    assert(join_code_alphabet()[idx as int] == code@[i]);
                }
            }
        }
        k = k + 1;
    }
    code
}


// The service.

/// The session service: each operation takes the table of sessions and
/// leaves it as the contract says.
pub struct SessionService;

/// What a successful generation request hands to the recommendation
/// pipeline: the reported locations and the session's search settings.
#[derive(Debug)]
pub struct GenerationPlan {
    pub participant_inputs: Vec<ParticipantInput>,
    pub categories: Vec<String>,
    pub transport_mode: TransportMode,
    pub limit: usize,
}

/// The light-weight state of a session that clients poll.
#[derive(Debug)]
pub struct SessionHealth {
    pub session_id: String,
    pub status: SessionStatus,
    pub participant_count: usize,
    pub ready_count: usize,
    pub updated_at: Timestamp,
}

/// The session a creation request opens.
pub open spec fn created_session(
    request: CreateSessionRequest,
    session_id: Seq<char>,
    creator: Participant,
    created_at: Timestamp,
    updated_at: Timestamp,
    expiry_clock: Timestamp,
) -> SessionView {
    SessionView {
        id: session_id,
        name: request.name@,
        creator_id: creator.user_id@,
        participants: seq![creator],
        settings: request.settings@,
        status: SessionStatus::WaitingForParticipants,
        created_at,
        updated_at,
        expires_at: (expiry_clock + SESSION_LIFETIME_MICROS) as i64,
        recommendations: None,
    }
}

/// The table after the session with id `id` becomes `s`; the join codes stay.
pub open spec fn stored_as(t: StoreView, id: Seq<char>, s: SessionView) -> StoreView {
    StoreView { sessions: t.sessions.insert(id, s), codes: t.codes, clock: t.clock }
}

/// Two tables with the same sessions and the same join codes.
pub open spec fn same_table(a: StoreView, b: StoreView) -> bool {
    a.sessions == b.sessions && a.codes == b.codes
}

/// A fresh participant: no location yet, not ready.
pub open spec fn newcomer(user_id: String, name: String, joined_at: Timestamp) -> Participant {
    Participant { user_id, name, location: None, joined_at, is_ready: false }
}

/// The key a join request names: its session id, else its join code.
pub open spec fn join_key(request: JoinSessionRequest) -> Option<Seq<char>> {
    match request.session_id {
        Some(id) => Some(id@),
        None => match request.join_code {
            Some(code) => Some(code@),
            None => None,
        },
    }
}

/// `s` with its status changed.
pub open spec fn with_status(s: SessionView, status: SessionStatus) -> SessionView {
    SessionView { status, ..s }
}

/// `s` after `p` joins at `updated_at`.
pub open spec fn joined(s: SessionView, p: Participant, updated_at: Timestamp) -> SessionView {
    SessionView { participants: put_participant(s.participants, p), updated_at, ..s }
}

/// `s` after the participant at `i` reports `location` and readiness at
/// `updated_at`, before the automatic status change.
pub open spec fn relocated(
    s: SessionView,
    i: int,
    location: ParticipantInput,
    is_ready: bool,
    updated_at: Timestamp,
) -> SessionView {
    SessionView {
        participants: s.participants.update(
            i,
            Participant { location: Some(location), is_ready, ..s.participants[i] },
        ),
        updated_at,
        ..s
    }
}

/// `relocated`, then ready for recommendations if they are due.
pub open spec fn located(
    s: SessionView,
    i: int,
    location: ParticipantInput,
    is_ready: bool,
    updated_at: Timestamp,
) -> SessionView {
    let r = relocated(s, i, location, is_ready, updated_at);
    if auto_generation_due(r) {
        with_status(r, SessionStatus::ReadyForRecommendations)
    } else {
        r
    }
}

/// A rejected request with exactly this reason.
pub open spec fn rejected_with<T>(r: Result<T, AppError>, reason: Seq<char>) -> bool {
    r matches Err(AppError::BadRequest(m)) && m@ == reason
}

impl SessionService {
    /// Opens a session with the given identifiers and clock readings: the
    /// creator is its only participant, it waits for participants and it
    /// expires 24 hours after `expiry_clock`. The session is stored under its
    /// id, and its join code is made another name for it.
    pub fn create_session_at(
        store: &mut SessionStore,
        request: CreateSessionRequest,
        session_id: String,
        creator_id: String,
        join_code: String,
        joined_at: Timestamp,
        created_at: Timestamp,
        updated_at: Timestamp,
        expiry_clock: Timestamp,
    ) -> (r: CreateSessionResponse)
        requires
            expiry_clock <= LATEST_CLOCK_MICROS,
        ensures
            create_outcome(
                old(store).view(),
                request,
                session_id,
                creator_id,
                join_code,
                joined_at,
                created_at,
                updated_at,
                expiry_clock,
                r,
                final(store).view(),
            ),
            final(store).view().clock == noted(
                noted(noted(noted(old(store).view().clock, joined_at), created_at), updated_at),
                expiry_clock,
            ),
    {
        store.note_reading(joined_at);
        store.note_reading(created_at);
        store.note_reading(updated_at);
        store.note_reading(expiry_clock);
        let ghost req = request;
        let creator = Participant {
            user_id: creator_id.clone(),
            name: request.creator_name,
            location: None,
            joined_at,
            is_ready: false,
        };
        let mut participants: Vec<Participant> = Vec::new();
        participants.push(creator);
        let session = Session {
            id: session_id.clone(),
            name: request.name,
            creator_id,
            participants,
            settings: request.settings,
            status: SessionStatus::WaitingForParticipants,
            created_at,
            updated_at,
            expires_at: expiry_clock + SESSION_LIFETIME_MICROS,
            recommendations: None,
        };
        assert(session@.participants =~= seq![newcomer(session.creator_id, req.creator_name, joined_at)]);
        store.insert(session_id.clone(), session.duplicate());
        store.add_code(join_code.clone(), session_id.clone());
        CreateSessionResponse { session_id, join_code, session }
    }

    /// Opens a session with fresh identifiers, a random join code and the
    /// current time (see [`SessionService::create_session_at`]).
    pub fn create_session(store: &mut SessionStore, request: CreateSessionRequest) -> (r: CreateSessionResponse)
        ensures
            r.session_id@.len() == 36,
            is_join_code(r.join_code@),
            r.session@.id == r.session_id@,
            r.session@.name == request.name@,
            r.session@.settings == request.settings@,
            r.session@.status == SessionStatus::WaitingForParticipants,
            r.session@.participants.len() == 1,
            r.session@.participants[0].user_id@ == r.session@.creator_id,
            r.session@.participants[0].name == request.creator_name,
            r.session@.participants[0].location is None,
            !r.session@.participants[0].is_ready,
            0 <= r.session@.expires_at - SESSION_LIFETIME_MICROS <= LATEST_CLOCK_MICROS,
            0 <= r.session@.participants[0].joined_at <= LATEST_CLOCK_MICROS,
            old(store).view().clock <= r.session@.participants[0].joined_at <= r.session@.created_at
                <= r.session@.updated_at <= r.session@.expires_at - SESSION_LIFETIME_MICROS,
            final(store).view().clock == r.session@.expires_at - SESSION_LIFETIME_MICROS,
            0 <= r.session@.created_at <= LATEST_CLOCK_MICROS,
            0 <= r.session@.updated_at <= LATEST_CLOCK_MICROS,
            r.session@.well_formed(),
            r.session@.recommendations is None,
            final(store).view().sessions == old(store).view().sessions.insert(r.session_id@, r.session@),
            final(store).view().codes == old(store).view().codes.insert(r.join_code@, r.session_id@),
            opens_session(old(store).view(), r.session_id@, r.join_code@, r.session@, final(store).view()),
    {
        let names = store.names();
        let name_count: usize = names.len();
        proof {
            lemma_pow36_13();
            reveal_strlit("00000000-0000-0000-0000");
            assert(name_count <= 18446744073709551615nat);
        }
        let drawn_id = fresh_id();
        let ghost d = drawn_id@;
        let session_id = keep_or_renumber(drawn_id, "00000000-0000-0000-0000", 13, &names);
        proof {
            if texts(names@).contains(d) {
                let k = choose|k: nat| k < pow36(13) && session_id@ == #[trigger] numbered_name(
                    "00000000-0000-0000-0000"@,
                    k,
                    13,
                );
                lemma_digits_shape(k, 13);
            }
        }
        let creator_id = fresh_id();
        let drawn_code = generate_join_code();
        let ghost dc = drawn_code@;
        let join_code = if names.len() < 2176782336 {
            keep_or_renumber(drawn_code, "", 6, &names)
        } else {
            drawn_code
        };
        proof {
            if names@.len() < 2176782336 && texts(names@).contains(dc) {
                let k = choose|k: nat| k < pow36(6) && join_code@ == #[trigger] numbered_name(""@, k, 6);
                lemma_digits_shape(k, 6);
                reveal_strlit("");
                assert(join_code@ =~= digits(k, 6));
            }
        }
        let joined_at = store.read_clock();
        let created_at = store.read_clock();
        let updated_at = store.read_clock();
        let expiry_clock = store.read_clock();
        Self::create_session_at(
            store,
            request,
            session_id,
            creator_id,
            join_code,
            joined_at,
            created_at,
            updated_at,
            expiry_clock,
        )
    }

    /// The user ids of the participants of the session that the request
    /// names (none when it names no stored session).
    fn user_ids_for(store: &SessionStore, request: &JoinSessionRequest) -> (r: Vec<String>)
        ensures
            match join_key(*request) {
                Some(k) => match resolve(store.view(), k) {
                    Some(id) => forall|t: Seq<char>|
                        texts(r@).contains(t) <==> has_user(store.view().sessions[id].participants, t),
                    None => true,
                },
                None => true,
            },
    {
        let key: Option<&str> = match &request.session_id {
            Some(id) => Some(id.as_str()),
            None => match &request.join_code {
                Some(code) => Some(code.as_str()),
                None => None,
            },
        };
        assert(key matches Some(k) ==> join_key(*request) == Some(k@));
        assert(key is None ==> join_key(*request) is None);
        match key {
            Some(k) => match store.get(k) {
                Some(session) => {
                    let r = user_ids(&session.participants);
                    assert(session@.participants == store.view().sessions[resolve(store.view(), k@)->Some_0].participants);
                    r
                },
                None => Vec::new(),
            },
            None => Vec::new(),
        }
    }

    /// Adds a participant to the session that the request names, unless the
    /// request names none, the session is unknown, or it expired before
    /// `checked_at` (then it is marked expired). The newcomer has `user_id`,
    /// joins at `joined_at`, and the session is updated at `updated_at`.
    pub fn join_session_at(
        store: &mut SessionStore,
        request: JoinSessionRequest,
        user_id: String,
        checked_at: Timestamp,
        joined_at: Timestamp,
        updated_at: Timestamp,
    ) -> (r: Result<JoinSessionResponse, AppError>)
        ensures
            join_outcome(
                old(store).view(),
                request,
                user_id,
                checked_at,
                joined_at,
                updated_at,
                r,
                final(store).view(),
            ),
            final(store).view().clock == noted(
                noted(noted(old(store).view().clock, checked_at), joined_at),
                updated_at,
            ),
    {
        store.note_reading(checked_at);
        store.note_reading(joined_at);
        store.note_reading(updated_at);
        let ghost req = request;
        let key: String = match request.session_id {
            Some(id) => id,
            None => match request.join_code {
                Some(code) => code,
                None => {
                    return Err(AppError::bad_request("Either session_id or join_code is required"));
                },
            },
        };
        assert(join_key(req) == Some(key@));
        let id = match store.resolve_key(key.as_str()) {
            Some(id) => id,
            None => {
                return Err(AppError::bad_request("Session not found"));
            },
        };
        let mut session = match store.get(id.as_str()) {
            Some(s) => s,
            None => {
                return Err(AppError::bad_request("Session not found"));
            },
        };
        if checked_at > session.expires_at {
            session.status = SessionStatus::Expired;
            assert(session@ == with_status(old(store).view().sessions[id@], SessionStatus::Expired));
            store.insert(id, session);
            return Err(AppError::bad_request("Session has expired"));
        }
        let participant = Participant {
            user_id: user_id.clone(),
            name: request.participant_name,
            location: None,
            joined_at,
            is_ready: false,
        };
        upsert_participant(&mut session.participants, participant);
        session.updated_at = updated_at;
        assert(session@ == joined(
            old(store).view().sessions[id@],
            newcomer(user_id, req.participant_name, joined_at),
            updated_at,
        ));
        let reply = session.duplicate();
        store.insert(id, session);
        Ok(JoinSessionResponse { user_id, session: reply })
    }

    /// Joins with a fresh user id and the current time (see
    /// [`SessionService::join_session_at`]).
    pub fn join_session(store: &mut SessionStore, request: JoinSessionRequest) -> (r: Result<
        JoinSessionResponse,
        AppError,
    >)
        ensures
            exists|user_id: String, checked_at: Timestamp, joined_at: Timestamp, updated_at: Timestamp|
                {
                    &&& user_id@.len() == 36
                    &&& new_to_session(old(store).view(), request, user_id@)
                    &&& 0 <= checked_at <= LATEST_CLOCK_MICROS
                    &&& 0 <= joined_at <= LATEST_CLOCK_MICROS
                    &&& 0 <= updated_at <= LATEST_CLOCK_MICROS
                    &&& old(store).view().clock <= checked_at <= joined_at <= updated_at
                    &&& final(store).view().clock == updated_at
                    &&& join_outcome(
                        old(store).view(),
                        request,
                        user_id,
                        checked_at,
                        joined_at,
                        updated_at,
                        r,
                        final(store).view(),
                    )
                },
    {
        let checked_at = store.read_clock();
        let taken = Self::user_ids_for(store, &request);
        let taken_count: usize = taken.len();
        proof {
            lemma_pow36_13();
            reveal_strlit("00000000-0000-0000-0000");
            assert(taken_count <= 18446744073709551615nat);
        }
        let drawn_id = fresh_id();
        let ghost d = drawn_id@;
        let user_id = keep_or_renumber(drawn_id, "00000000-0000-0000-0000", 13, &taken);
        proof {
            if texts(taken@).contains(d) {
                let k = choose|k: nat| k < pow36(13) && user_id@ == #[trigger] numbered_name(
                    "00000000-0000-0000-0000"@,
                    k,
                    13,
                );
                lemma_digits_shape(k, 13);
            }
        }
        let joined_at = store.read_clock();
        let updated_at = store.read_clock();
        let ghost req = request;
        let ghost uid = user_id;
        let r = Self::join_session_at(store, request, user_id, checked_at, joined_at, updated_at);
        assert(join_outcome(old(store).view(), req, uid, checked_at, joined_at, updated_at, r, store.view()));
        r
    }
}

/// `user_id` is not the user id of a participant of the session that the
/// request names.
pub open spec fn new_to_session(before: StoreView, request: JoinSessionRequest, user_id: Seq<char>) -> bool {
    match join_key(request) {
        Some(k) => match resolve(before, k) {
            Some(id) => !has_user(before.sessions[id].participants, user_id),
            None => true,
        },
        None => true,
    }
}

/// The user ids of the participants, in order.
pub fn user_ids(ps: &Vec<Participant>) -> (r: Vec<String>)
    ensures
        forall|t: Seq<char>| texts(r@).contains(t) <==> has_user(ps@, t),
{
    let mut r: Vec<String> = Vec::new();
    let mut i: usize = 0;
    while i < ps.len()
        invariant
            i <= ps@.len(),
            r@.len() == i,
            forall|j: int| 0 <= j < i ==> (#[trigger] r@[j])@ == ps@[j].user_id@,
        decreases ps@.len() - i,
    {
        r.push(ps[i].user_id.clone());
        i = i + 1;
    }
    proof {
        assert forall|t: Seq<char>| texts(r@).contains(t) <==> has_user(ps@, t) by {
            if texts(r@).contains(t) {
                let j = choose|j: int| 0 <= j < texts(r@).len() && texts(r@)[j] == t;
                assert((ps@[j]).user_id@ == t);
            }
            if has_user(ps@, t) {
                let j = choose|j: int| 0 <= j < ps@.len() && (#[trigger] ps@[j]).user_id@ == t;
                assert(texts(r@)[j] == t);
            }
        }
    }
    r
}

/// A session `s` opened with id `id` and join code `code`: both names are new
/// to the table unless (for the code) the table holds as many names as there
/// are join codes; every earlier session and join code stays.
pub open spec fn opens_session(before: StoreView, id: Seq<char>, code: Seq<char>, s: SessionView, after: StoreView) -> bool {
    &&& id.len() == 36
    &&& is_join_code(code)
    &&& !before.sessions.contains_key(id)
    &&& !before.codes.contains_key(id)
    &&& before.sessions.dom().len() + before.codes.dom().len() < pow36(6) ==> !before.sessions.contains_key(code)
        && !before.codes.contains_key(code)
    &&& after.sessions == before.sessions.insert(id, s)
    &&& after.codes == before.codes.insert(code, id)
}

/// The contract of [`SessionService::create_session_at`] as a relation
/// between the table before, the request, the identifiers and clock
/// readings, the reply and the table after.
pub open spec fn create_outcome(
    before: StoreView,
    request: CreateSessionRequest,
    session_id: String,
    creator_id: String,
    join_code: String,
    joined_at: Timestamp,
    created_at: Timestamp,
    updated_at: Timestamp,
    expiry_clock: Timestamp,
    r: CreateSessionResponse,
    after: StoreView,
) -> bool {
    &&& r.session_id@ == session_id@
    &&& r.join_code@ == join_code@
    &&& r.session@ == created_session(
        request,
        session_id@,
        newcomer(creator_id, request.creator_name, joined_at),
        created_at,
        updated_at,
        expiry_clock,
    )
    &&& r.session@.well_formed()
    &&& after.sessions == before.sessions.insert(session_id@, r.session@)
    &&& after.codes == before.codes.insert(join_code@, session_id@)
}

/// The contract of [`SessionService::join_session_at`] as a relation between
/// the table before, the request, the identifiers and clock readings, the
/// result and the table after.
pub open spec fn join_outcome(
    before: StoreView,
    request: JoinSessionRequest,
    user_id: String,
    checked_at: Timestamp,
    joined_at: Timestamp,
    updated_at: Timestamp,
    r: Result<JoinSessionResponse, AppError>,
    after: StoreView,
) -> bool {
    match join_key(request) {
        None => rejected_with(r, "Either session_id or join_code is required"@) && same_table(after, before),
        Some(k) => match resolve(before, k) {
            None => rejected_with(r, "Session not found"@) && same_table(after, before),
            Some(id) => if checked_at > before.sessions[id].expires_at {
                rejected_with(r, "Session has expired"@) && same_table(
                    after,
                    stored_as(before, id, with_status(before.sessions[id], SessionStatus::Expired)),
                )
            } else {
                r matches Ok(resp) && resp.user_id@ == user_id@ && resp.session@ == joined(
                    before.sessions[id],
                    newcomer(user_id, request.participant_name, joined_at),
                    updated_at,
                ) && resp.session@.well_formed() && same_table(after, stored_as(before, id, resp.session@))
            },
        },
    }
}


impl SessionService {
    /// Records where a participant is and whether they are ready, at
    /// `updated_at`; the session becomes ready for recommendations when they
    /// are due (see [`auto_generation_due`]).
    pub fn update_participant_location_at(
        store: &mut SessionStore,
        request: UpdateParticipantLocationRequest,
        updated_at: Timestamp,
    ) -> (r: Result<SessionStatusResponse, AppError>)
        ensures
            location_outcome(old(store).view(), request, updated_at, r, final(store).view()),
            final(store).view().clock == noted(old(store).view().clock, updated_at),
    {
        store.note_reading(updated_at);
        let ghost req = request;
        let id = match store.resolve_key(request.session_id.as_str()) {
            Some(id) => id,
            None => {
                return Err(AppError::bad_request("Session not found"));
            },
        };
        let mut session = match store.get(id.as_str()) {
            Some(s) => s,
            None => {
                return Err(AppError::bad_request("Session not found"));
            },
        };
        let i = match find_participant(&session.participants, request.user_id.as_str()) {
            Some(i) => i,
            None => {
                return Err(AppError::bad_request("Participant not found in session"));
            },
        };
        let ghost before = session@;
        let old_participant = &session.participants[i];
        let participant = Participant {
            user_id: old_participant.user_id.clone(),
            name: old_participant.name.clone(),
            location: Some(request.location),
            joined_at: old_participant.joined_at,
            is_ready: request.is_ready,
        };
        let ghost old_ps = session.participants@;
        session.participants.set(i, participant);
        session.updated_at = updated_at;
        proof {
            assert(session@ == relocated(before, i as int, req.location, req.is_ready, updated_at));
            assert forall|a: int, b: int|
                0 <= a < session.participants@.len() && 0 <= b < session.participants@.len() && a != b
                implies (#[trigger] session.participants@[a]).user_id@
                != (#[trigger] session.participants@[b]).user_id@ by {
                assert(session.participants@[a].user_id@ == old_ps[a].user_id@);
                assert(session.participants@[b].user_id@ == old_ps[b].user_id@);
            }
        }
        if should_auto_generate_recommendations(&session) {
            session.status = SessionStatus::ReadyForRecommendations;
        }
        let reply = session.duplicate();
        store.insert(id, session);
        Ok(SessionStatusResponse { session: reply, recommendations: None })
    }

    /// [`SessionService::update_participant_location_at`] at the current time.
    pub fn update_participant_location(
        store: &mut SessionStore,
        request: UpdateParticipantLocationRequest,
    ) -> (r: Result<SessionStatusResponse, AppError>)
        ensures
            exists|updated_at: Timestamp|
                0 <= updated_at <= LATEST_CLOCK_MICROS && old(store).view().clock <= updated_at
                    && final(store).view().clock == updated_at && location_outcome(old(store).view(), request, updated_at, r, final(store).view()),
    {
        let updated_at = store.read_clock();
        let ghost req = request;
        let r = Self::update_participant_location_at(store, request, updated_at);
        assert(location_outcome(old(store).view(), req, updated_at, r, store.view()));
        r
    }

    /// The first step of generating a session's recommendations. Rejects an
    /// unknown session or a user who is not a participant. Otherwise marks the
    /// session as generating (at `updated_at`) and hands out the reported
    /// locations with the session's settings, unless fewer than two
    /// participants reported one (the session stays marked as generating).
    pub fn begin_generation_at(
        store: &mut SessionStore,
        request: &GenerateRecommendationsRequest,
        updated_at: Timestamp,
    ) -> (r: Result<GenerationPlan, AppError>)
        ensures
            generation_start_outcome(old(store).view(), *request, updated_at, r, final(store).view()),
            final(store).view().clock == noted(old(store).view().clock, updated_at),
    {
        store.note_reading(updated_at);
        let id = match store.resolve_key(request.session_id.as_str()) {
            Some(id) => id,
            None => {
                return Err(AppError::bad_request("Session not found"));
            },
        };
        let mut session = match store.get(id.as_str()) {
            Some(s) => s,
            None => {
                return Err(AppError::bad_request("Session not found"));
            },
        };
        if find_participant(&session.participants, request.user_id.as_str()).is_none() {
            return Err(AppError::bad_request("User not found in session"));
        }
        let inputs = collect_locations(&session.participants);
        let settings = session.settings.duplicate();
        session.status = SessionStatus::GeneratingRecommendations;
        session.updated_at = updated_at;
        store.insert(id, session);
        if inputs.len() < 2 {
            return Err(AppError::bad_request("At least 2 participants with locations are required"));
        }
        Ok(GenerationPlan {
            participant_inputs: inputs,
            categories: settings.categories,
            transport_mode: settings.transport_mode,
            limit: settings.limit,
        })
    }

    /// [`SessionService::begin_generation_at`] at the current time.
    pub fn begin_generation(store: &mut SessionStore, request: &GenerateRecommendationsRequest) -> (r:
        Result<GenerationPlan, AppError>)
        ensures
            exists|updated_at: Timestamp|
                0 <= updated_at <= LATEST_CLOCK_MICROS && old(store).view().clock <= updated_at
                    && final(store).view().clock == updated_at && generation_start_outcome(old(store).view(), *request, updated_at, r, final(store).view()),
    {
        let updated_at = store.read_clock();
        let r = Self::begin_generation_at(store, request, updated_at);
        assert(generation_start_outcome(old(store).view(), *request, updated_at, r, store.view()));
        r
    }

    /// The last step of generating recommendations: answers the session's
    /// search (its transport mode and limit) from `venues`, the venues found
    /// with every participant's travel time, stores that answer as the
    /// session's recommendations, marks them ready (at `updated_at`) and
    /// returns the session, or `None` if it is no longer stored.
    pub fn finish_generation_at(
        store: &mut SessionStore,
        session_id: &str,
        venues: Vec<VenueWithTravelTimes>,
        participants: &[Coordinate],
        geocoding: &GeocodingService,
        updated_at: Timestamp,
    ) -> (r: Option<Session>)
        requires
            resolve(old(store).view(), session_id@) matches Some(id) ==> {
                let s = old(store).view().sessions[id];
                &&& rankable(venues@, exactly_two(participants@.len()))
                &&& answerable(venues@, participants@.len(), s.settings.limit)
            },
        ensures
            generation_end_outcome(
                old(store).view(),
                session_id@,
                venues@,
                participants@,
                updated_at,
                r,
                final(store).view(),
            ),
            final(store).view().clock == noted(old(store).view().clock, updated_at),
    {
        store.note_reading(updated_at);
        let id = match store.resolve_key(session_id) {
            Some(id) => id,
            None => {
                return None;
            },
        };
        match store.get(id.as_str()) {
            Some(mut session) => {
                let recommendations = recommend_from_venues(
                    venues,
                    participants,
                    session.settings.transport_mode,
                    session.settings.limit,
                    geocoding,
                );
                let ghost answer = recommendations@;
                session.status = SessionStatus::RecommendationsReady;
                session.updated_at = updated_at;
                session.recommendations = Some(recommendations);
                let reply = session.duplicate();
                store.insert(id, session);
                assert(answered_with(reply@, answer));
                Some(reply)
            },
            None => None,
        }
    }

    /// [`SessionService::finish_generation_at`] at the current time.
    pub fn finish_generation(
        store: &mut SessionStore,
        session_id: &str,
        venues: Vec<VenueWithTravelTimes>,
        participants: &[Coordinate],
        geocoding: &GeocodingService,
    ) -> (r: Option<Session>)
        requires
            resolve(old(store).view(), session_id@) matches Some(id) ==> {
                let s = old(store).view().sessions[id];
                &&& rankable(venues@, exactly_two(participants@.len()))
                &&& answerable(venues@, participants@.len(), s.settings.limit)
            },
        ensures
            exists|updated_at: Timestamp|
                0 <= updated_at <= LATEST_CLOCK_MICROS && old(store).view().clock <= updated_at
                    && final(store).view().clock == updated_at && generation_end_outcome(
                    old(store).view(),
                    session_id@,
                    venues@,
                    participants@,
                    updated_at,
                    r,
                    final(store).view(),
                ),
    {
        let updated_at = store.read_clock();
        let ghost vs = venues@;
        let r = Self::finish_generation_at(store, session_id, venues, participants, geocoding, updated_at);
        assert(generation_end_outcome(old(store).view(), session_id@, vs, participants@, updated_at, r, store.view()));
        r
    }

    /// The session that `session_id` names (by id or join code), with the
    /// recommendations last generated for it, if any.
    pub fn get_session_status(store: &SessionStore, session_id: &str) -> (r: Result<
        SessionStatusResponse,
        AppError,
    >)
        ensures
            status_outcome(store.view(), session_id@, r),
    {
        match store.get(session_id) {
            Some(session) => {
                let recommendations = match &session.recommendations {
                    Some(v) => Some(copy_recommendations(v)),
                    None => None,
                };
                Ok(SessionStatusResponse { session, recommendations })
            },
            None => Err(AppError::bad_request("Session not found")),
        }
    }

    /// The polled summary of the session that `session_id` names: its id,
    /// status, number of participants, number of those who say they are
    /// ready, and last update.
    pub fn session_health(store: &SessionStore, session_id: &str) -> (r: Result<SessionHealth, AppError>)
        ensures
            resolve(store.view(), session_id@) matches Some(id) ==> (r matches Ok(h) && {
                let s = store.view().sessions[id];
                &&& h.session_id@ == s.id
                &&& h.status == s.status
                &&& h.participant_count == s.participants.len()
                &&& h.ready_count == ready_count(s.participants)
                &&& h.updated_at == s.updated_at
            }),
            resolve(store.view(), session_id@) is None ==> rejected_with(r, "Session not found"@),
    {
        match store.get(session_id) {
            Some(session) => {
                let ready = count_ready(&session.participants);
                Ok(SessionHealth {
                    session_id: session.id,
                    status: session.status,
                    participant_count: session.participants.len(),
                    ready_count: ready,
                    updated_at: session.updated_at,
                })
            },
            None => Err(AppError::bad_request("Session not found")),
        }
    }

    /// Removes the sessions that expired before `now`, with their join codes;
    /// keeps the others.
    pub fn cleanup_expired_sessions_at(store: &mut SessionStore, now: Timestamp)
        ensures
            cleanup_outcome(old(store).view(), now, final(store).view()),
            final(store).view().clock == noted(old(store).view().clock, now),
    {
        store.note_reading(now);
        store.retain_unexpired(now);
    }

    /// Removes the sessions that have expired by now, with their join codes.
    pub fn cleanup_expired_sessions(store: &mut SessionStore)
        ensures
            exists|now: Timestamp|
                0 <= now <= LATEST_CLOCK_MICROS && old(store).view().clock <= now && final(store).view().clock
                    == now && #[trigger] cleanup_outcome(
                    old(store).view(),
                    now,
                    final(store).view(),
                ),
    {
        let now = store.read_clock();
        Self::cleanup_expired_sessions_at(store, now);
        assert(cleanup_outcome(old(store).view(), now, store.view()));
    }
}

/// The contract of [`SessionService::update_participant_location_at`] as a
/// relation.
pub open spec fn location_outcome(
    before: StoreView,
    request: UpdateParticipantLocationRequest,
    updated_at: Timestamp,
    r: Result<SessionStatusResponse, AppError>,
    after: StoreView,
) -> bool {
    match resolve(before, request.session_id@) {
        None => rejected_with(r, "Session not found"@) && same_table(after, before),
        Some(id) => {
            let s = before.sessions[id];
            if !has_user(s.participants, request.user_id@) {
                rejected_with(r, "Participant not found in session"@) && same_table(after, before)
            } else {
                r matches Ok(resp) && resp.recommendations is None && resp.session@ == located(
                    s,
                    user_index(s.participants, request.user_id@),
                    request.location,
                    request.is_ready,
                    updated_at,
                ) && resp.session@.well_formed() && same_table(after, stored_as(before, id, resp.session@))
            }
        },
    }
}

/// The contract of [`SessionService::get_session_status`] as a relation: the
/// session that `key` names, with its stored recommendations, or the refusal.
pub open spec fn status_outcome(t: StoreView, key: Seq<char>, r: Result<SessionStatusResponse, AppError>) -> bool {
    match resolve(t, key) {
        Some(id) => r matches Ok(resp) && {
            let s = t.sessions[id];
            &&& resp.session@ == s
            &&& stored_recommendations(resp.recommendations) == s.recommendations
        },
        None => rejected_with(r, "Session not found"@),
    }
}

/// The contract of [`SessionService::cleanup_expired_sessions_at`] as a
/// relation: the sessions that have not expired stay, with the join codes
/// that name them.
pub open spec fn cleanup_outcome(before: StoreView, now: Timestamp, after: StoreView) -> bool {
    &&& after.sessions == unexpired(before.sessions, now)
    &&& after.codes == codes_of(before.codes, after.sessions)
}


/// The contract of [`SessionService::begin_generation_at`] as a relation.
pub open spec fn generation_start_outcome(
    before: StoreView,
    request: GenerateRecommendationsRequest,
    updated_at: Timestamp,
    r: Result<GenerationPlan, AppError>,
    after: StoreView,
) -> bool {
    match resolve(before, request.session_id@) {
        None => rejected_with(r, "Session not found"@) && same_table(after, before),
        Some(id) => generation_start_in(before, id, request, updated_at, r, after),
    }
}

/// [`generation_start_outcome`] for the session with id `id`.
pub open spec fn generation_start_in(
    before: StoreView,
    id: Seq<char>,
    request: GenerateRecommendationsRequest,
    updated_at: Timestamp,
    r: Result<GenerationPlan, AppError>,
    after: StoreView,
) -> bool {
    let s = before.sessions[id];
    if !has_user(s.participants, request.user_id@) {
        rejected_with(r, "User not found in session"@) && same_table(after, before)
    } else {
        &&& same_table(
            after,
            stored_as(before, id, SessionView { status: SessionStatus::GeneratingRecommendations, updated_at, ..s }),
        )
        &&& if reported_locations(s.participants).len() < 2 {
            rejected_with(r, "At least 2 participants with locations are required"@)
        } else {
            r matches Ok(plan) && plan.participant_inputs@ == reported_locations(s.participants)
                && crate::models::texts(plan.categories@) == s.settings.categories
                && plan.transport_mode == s.settings.transport_mode && plan.limit
                == s.settings.limit
        }
    }
}

/// The session `s` holds `answer` as its recommendations.
pub open spec fn answered_with(s: SessionView, answer: Seq<EnhancedVenueRecommendation>) -> bool {
    s.recommendations == Some(recommendation_views(answer))
}

/// The contract of [`SessionService::finish_generation_at`] as a relation:
/// the session that `session_id` names gets its recommendations, the answer
/// to its own search from `venues` (see [`is_answer`]), and is ready.
pub open spec fn generation_end_outcome(
    before: StoreView,
    session_id: Seq<char>,
    venues: Seq<VenueWithTravelTimes>,
    participants: Seq<Coordinate>,
    updated_at: Timestamp,
    r: Option<Session>,
    after: StoreView,
) -> bool {
    match resolve(before, session_id) {
        Some(id) => {
            let s0 = before.sessions[id];
            r matches Some(s) && {
                &&& s@.status == SessionStatus::RecommendationsReady
                &&& s@.updated_at == updated_at
                &&& s@ == SessionView {
                    status: SessionStatus::RecommendationsReady,
                    updated_at,
                    recommendations: s@.recommendations,
                    ..s0
                }
                &&& exists|answer: Seq<EnhancedVenueRecommendation>|
                    #[trigger] answered_with(s@, answer) && is_answer(
                        answer,
                        venues,
                        participants,
                        s0.settings.transport_mode,
                        s0.settings.limit,
                    )
                &&& same_table(after, stored_as(before, id, s@))
            }
        },
        None => r is None && same_table(after, before),
    }
}

} // verus!
