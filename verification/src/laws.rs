//! Properties of the library that span several operations, proved over the
//! same specifications the operations' contracts use.
use vstd::prelude::*;

use crate::google_maps::{all_reachable, longest, shortest, venues_upto, PlaceDetails};
use crate::models::{
    Coordinate, CreateSessionRequest, CreateSessionResponse, EnhancedVenueRecommendation,
    GenerateRecommendationsRequest, JoinSessionRequest, TransportMode,
    JoinSessionResponse, PlaceCandidate, RecommendationView, Session, SessionStatus,
    SessionStatusResponse, SessionView, Timestamp, UpdateParticipantLocationRequest,
    VenueWithTravelTimes, SESSION_LIFETIME_MICROS, stored_recommendations,
};
use crate::ranking::{
    is_ranking_of, law_ranking_is_unique, rankable, ranks_no_later, same_rank, sorted_by_rank,
    stable_arrangement,
};
use crate::recommendations::{exactly_two, is_answer, is_recommendation_of};
use crate::session::{
    auto_generation_due, cleanup_outcome, create_outcome, generation_end_outcome,
    generation_start_outcome, has_user, is_located_and_ready, join_key, join_outcome,
    located_ready_count, location_outcome, newcomer, ready_count, rejected_with, reported_locations,
    status_outcome, user_index, answered_with, new_to_session, opens_session, GenerationPlan,
};
use crate::fresh::pow36;
use crate::store::{noted, resolve, unexpired, StoreView};
use crate::validation::{invalid_place_types, is_valid_place_type};
use crate::error::AppError;
use crate::world::LATEST_CLOCK_MICROS;

verus! {

// Sessions.

/// A new session can be found both under its id and under its join code;
/// it waits for participants, its creator is its participant, and it
/// expires 24 hours after the clock reading taken for its expiry.
pub proof fn law_new_session_found_by_id_and_code(
    before: StoreView,
    request: CreateSessionRequest,
    session_id: String,
    creator_id: String,
    join_code: String,
    joined_at: Timestamp,
    created_at: Timestamp,
    updated_at: Timestamp,
    expiry_clock: Timestamp,
    r: CreateSessionResponse,
    after: StoreView,
)
    requires
        0 <= expiry_clock <= LATEST_CLOCK_MICROS,
        join_code@ != session_id@,
        !before.sessions.contains_key(join_code@),
        create_outcome(
            before,
            request,
            session_id,
            creator_id,
            join_code,
            joined_at,
            created_at,
            updated_at,
            expiry_clock,
            r,
            after,
        ),
    ensures
        resolve(after, session_id@) == Some(session_id@),
        resolve(after, join_code@) == Some(session_id@),
        after.sessions[session_id@] == r.session@,
        r.session@.status == SessionStatus::WaitingForParticipants,
        r.session@.has_participant(creator_id@),
        r.session@.expires_at == expiry_clock + SESSION_LIFETIME_MICROS,
{
    assert(r.session@.participants[0].user_id@ == creator_id@);
}

/// Creating a session with a new id and a new join code adds one session and
/// one join code to the table.
pub proof fn law_new_session_adds_one_session(
    before: StoreView,
    request: CreateSessionRequest,
    session_id: String,
    creator_id: String,
    join_code: String,
    joined_at: Timestamp,
    created_at: Timestamp,
    updated_at: Timestamp,
    expiry_clock: Timestamp,
    r: CreateSessionResponse,
    after: StoreView,
)
    requires
        before.sessions.dom().finite(),
        before.codes.dom().finite(),
        !before.sessions.contains_key(session_id@),
        !before.codes.contains_key(join_code@),
        create_outcome(
            before,
            request,
            session_id,
            creator_id,
            join_code,
            joined_at,
            created_at,
            updated_at,
            expiry_clock,
            r,
            after,
        ),
    ensures
        after.sessions.dom().finite(),
        after.sessions.dom().len() == before.sessions.dom().len() + 1,
        after.codes.dom().finite(),
        after.codes.dom().len() == before.codes.dom().len() + 1,
{
    assert(after.sessions.dom() == before.sessions.dom().insert(session_id@));
    assert(after.codes.dom() == before.codes.dom().insert(join_code@));
}

/// Opening a session adds exactly one session to the table, under a new id,
/// and leaves every earlier session as it was.
pub proof fn law_opening_adds_one_session(
    before: StoreView,
    id: Seq<char>,
    code: Seq<char>,
    s: SessionView,
    after: StoreView,
)
    requires
        opens_session(before, id, code, s, after),
        before.sessions.dom().finite(),
    ensures
        after.sessions.dom().finite(),
        after.sessions.dom().len() == before.sessions.dom().len() + 1,
        resolve(after, id) == Some(id),
        after.sessions[id] == s,
        forall|x: Seq<char>| #[trigger] before.sessions.contains_key(x) ==> x != id && after.sessions.contains_key(x)
            && after.sessions[x] == before.sessions[x],
{
    assert(after.sessions.dom() == before.sessions.dom().insert(id));
}

/// Opening a session keeps every name the table had: each earlier id and
/// join code still names the same session, and the new join code names the
/// new session (as long as the table holds fewer names than there are join
/// codes).
pub proof fn law_opening_keeps_every_name(
    before: StoreView,
    id: Seq<char>,
    code: Seq<char>,
    s: SessionView,
    after: StoreView,
    key: Seq<char>,
    x: Seq<char>,
)
    requires
        opens_session(before, id, code, s, after),
        before.sessions.dom().len() + before.codes.dom().len() < pow36(6),
        resolve(before, key) == Some(x),
    ensures
        resolve(after, key) == Some(x),
        after.sessions[x] == before.sessions[x],
        resolve(after, code) == Some(id),
{
    assert(id.len() != code.len());
}

/// A join by a new user adds exactly one participant: the earlier ones keep
/// their places and the newcomer comes last.
pub proof fn law_join_adds_one_participant(
    before: StoreView,
    request: JoinSessionRequest,
    user_id: String,
    checked_at: Timestamp,
    joined_at: Timestamp,
    updated_at: Timestamp,
    r: Result<JoinSessionResponse, AppError>,
    after: StoreView,
    key: Seq<char>,
    id: Seq<char>,
)
    requires
        join_outcome(before, request, user_id, checked_at, joined_at, updated_at, r, after),
        new_to_session(before, request, user_id@),
        join_key(request) == Some(key),
        resolve(before, key) == Some(id),
        r is Ok,
    ensures
        r matches Ok(resp) && {
            let old_ps = before.sessions[id].participants;
            let new_ps = resp.session@.participants;
            &&& new_ps.len() == old_ps.len() + 1
            &&& forall|j: int| 0 <= j < old_ps.len() ==> #[trigger] new_ps[j] == old_ps[j]
            &&& new_ps[old_ps.len() as int].user_id@ == user_id@
            &&& after.sessions[id] == resp.session@
        },
{
}

/// Joining through the join code joins the session itself: afterwards the
/// session under its id, which is also what the code names, lists the
/// newcomer. When the session has not expired and the newcomer's id differs
/// from the creator's, it lists the creator and then the newcomer.
pub proof fn law_join_by_code_joins_the_session(
    s0: StoreView,
    create: CreateSessionRequest,
    session_id: String,
    creator_id: String,
    join_code: String,
    joined_at: Timestamp,
    created_at: Timestamp,
    updated_at: Timestamp,
    expiry_clock: Timestamp,
    created: CreateSessionResponse,
    s1: StoreView,
    join: JoinSessionRequest,
    user_id: String,
    checked_at: Timestamp,
    joined_at2: Timestamp,
    updated_at2: Timestamp,
    joined_r: Result<JoinSessionResponse, AppError>,
    s2: StoreView,
)
    requires
        !s0.sessions.contains_key(join_code@),
        create_outcome(
            s0,
            create,
            session_id,
            creator_id,
            join_code,
            joined_at,
            created_at,
            updated_at,
            expiry_clock,
            created,
            s1,
        ),
        join.session_id is None,
        join.join_code matches Some(c) && c@ == join_code@,
        join_outcome(s1, join, user_id, checked_at, joined_at2, updated_at2, joined_r, s2),
        !(checked_at > created.session@.expires_at),
    ensures
        joined_r matches Ok(resp) && {
            &&& resolve(s2, session_id@) == Some(session_id@)
            &&& resolve(s2, join_code@) == Some(session_id@)
            &&& s2.sessions[session_id@] == resp.session@
            &&& resp.session@.id == session_id@
            &&& resp.session@.has_participant(user_id@)
            &&& user_id@ != creator_id@ ==> (resp.session@.participants.len() == 2
                && resp.session@.participants[0].user_id@ == creator_id@
                && resp.session@.participants[1].user_id@ == user_id@)
        },
{
    let ps = created.session@.participants;
    assert(resolve(s1, join_code@) == Some(session_id@));
    assert(ps.len() == 1 && ps[0].user_id@ == creator_id@);
    let np = newcomer(user_id, join.participant_name, joined_at2);
    law_put_participant(ps, np);
    if user_id@ != creator_id@ {
        assert(!has_user(ps, user_id@)) by {
            if has_user(ps, user_id@) {
                let i = choose|i: int| 0 <= i < ps.len() && (#[trigger] ps[i]).user_id@ == user_id@;
                assert(i == 0);
            }
        }
    }
}

/// A session found expired stays expired: once a join was refused because
/// the session expired, a later join through a key that names the same
/// session is refused too.
pub proof fn law_expired_session_stays_closed(
    s0: StoreView,
    first: JoinSessionRequest,
    user1: String,
    checked1: Timestamp,
    joined1: Timestamp,
    updated1: Timestamp,
    r1: Result<JoinSessionResponse, AppError>,
    s1: StoreView,
    second: JoinSessionRequest,
    user2: String,
    checked2: Timestamp,
    joined2: Timestamp,
    updated2: Timestamp,
    r2: Result<JoinSessionResponse, AppError>,
    s2: StoreView,
    key1: Seq<char>,
    key2: Seq<char>,
    id: Seq<char>,
)
    requires
        join_key(first) == Some(key1),
        join_key(second) == Some(key2),
        resolve(s0, key1) == Some(id),
        resolve(s0, key2) == Some(id),
        checked1 > s0.sessions[id].expires_at,
        checked2 >= checked1,
        join_outcome(s0, first, user1, checked1, joined1, updated1, r1, s1),
        join_outcome(s1, second, user2, checked2, joined2, updated2, r2, s2),
    ensures
        rejected_with(r1, "Session has expired"@),
        rejected_with(r2, "Session has expired"@),
        s2.sessions.contains_key(id) && s2.sessions[id].status == SessionStatus::Expired,
{
    assert(resolve(s1, key2) == Some(id));
}

/// Reporting a location keeps the participants and their order; the
/// reporting participant gets the location and readiness; the session
/// becomes ready for recommendations exactly when they are due, and its
/// status is otherwise unchanged.
pub proof fn law_location_report(
    before: StoreView,
    request: UpdateParticipantLocationRequest,
    updated_at: Timestamp,
    r: Result<SessionStatusResponse, AppError>,
    after: StoreView,
    id: Seq<char>,
)
    requires
        location_outcome(before, request, updated_at, r, after),
        resolve(before, request.session_id@) == Some(id),
        has_user(before.sessions[id].participants, request.user_id@),
    ensures
        r matches Ok(resp) && {
            let old_s = before.sessions[id];
            let new_s = resp.session@;
            let i = user_index(old_s.participants, request.user_id@);
            &&& after.sessions[id] == new_s
            &&& new_s.participants.len() == old_s.participants.len()
            &&& new_s.participants[i].user_id == old_s.participants[i].user_id
            &&& new_s.participants[i].location == Some(request.location)
            &&& new_s.participants[i].is_ready == request.is_ready
            &&& forall|j: int|
                0 <= j < old_s.participants.len() && j != i ==> #[trigger] new_s.participants[j]
                    == old_s.participants[j]
            &&& auto_generation_due(new_s) ==> new_s.status == SessionStatus::ReadyForRecommendations
            &&& !auto_generation_due(new_s) ==> new_s.status == old_s.status
        },
{
}

/// A generation that starts and finishes leaves the session with its
/// recommendations ready and stored, its participants and settings as they
/// were, hands the pipeline exactly the locations the participants reported
/// with the session's mode and limit, and stores as recommendations the
/// answer to the session's own search, at most the session's limit long. A
/// later status request through the same key answers with that session and
/// those recommendations.
pub proof fn law_generation_cycle(
    s0: StoreView,
    request: GenerateRecommendationsRequest,
    started_at: Timestamp,
    plan: Result<GenerationPlan, AppError>,
    s1: StoreView,
    venues: Seq<VenueWithTravelTimes>,
    participants: Seq<Coordinate>,
    finished_at: Timestamp,
    finished: Option<Session>,
    s2: StoreView,
    status: Result<SessionStatusResponse, AppError>,
)
    requires
        generation_start_outcome(s0, request, started_at, plan, s1),
        plan is Ok,
        generation_end_outcome(s1, request.session_id@, venues, participants, finished_at, finished, s2),
        status_outcome(s2, request.session_id@, status),
    ensures
        resolve(s0, request.session_id@) matches Some(id) && finished matches Some(s) && {
            let s_0 = s0.sessions[id];
            &&& s@.status == SessionStatus::RecommendationsReady
            &&& s@.updated_at == finished_at
            &&& s@.participants == s_0.participants
            &&& s@.settings == s_0.settings
            &&& s2.sessions[id] == s@
            &&& exists|answer: Seq<EnhancedVenueRecommendation>|
                #[trigger] answered_with(s@, answer) && is_answer(
                    answer,
                    venues,
                    participants,
                    s_0.settings.transport_mode,
                    s_0.settings.limit,
                ) && answer.len() <= s_0.settings.limit
            &&& plan matches Ok(p) && p.participant_inputs@ == reported_locations(s_0.participants)
                && p.transport_mode == s_0.settings.transport_mode && p.limit == s_0.settings.limit
            &&& status matches Ok(resp) && stored_recommendations(resp.recommendations)
                == s@.recommendations && resp.session@ == s@
        },
{
    let id = resolve(s0, request.session_id@)->Some_0;
    assert(resolve(s1, request.session_id@) == Some(id));
    let s = finished->Some_0;
    assert(resolve(s2, request.session_id@) == Some(id));
    let answer = choose|answer: Seq<EnhancedVenueRecommendation>|
        #[trigger] answered_with(s@, answer) && is_answer(
            answer,
            venues,
            participants,
            s1.sessions[id].settings.transport_mode,
            s1.sessions[id].settings.limit,
        );
    assert(answered_with(s@, answer));
}

/// The answer to a request is the recommendations of the first `limit`
/// venues of the ranking, in order: whatever ranking of the venues is taken
/// (there is only one), recommendation `k` is made of its venue `k`.
pub proof fn law_answer_follows_the_ranking(
    r: Seq<EnhancedVenueRecommendation>,
    venues: Seq<VenueWithTravelTimes>,
    participants: Seq<Coordinate>,
    mode: TransportMode,
    limit: usize,
    ranked: Seq<VenueWithTravelTimes>,
)
    requires
        is_answer(r, venues, participants, mode, limit),
        is_ranking_of(ranked, venues, exactly_two(participants.len())),
    ensures
        r.len() == if venues.len() < limit {
            venues.len() as int
        } else {
            limit as int
        },
        forall|k: int| 0 <= k < r.len() ==> is_recommendation_of(#[trigger] r[k], ranked[k], participants, mode),
{
    let w = choose|w: Seq<VenueWithTravelTimes>|
        #[trigger] is_ranking_of(w, venues, exactly_two(participants.len())) && forall|k: int|
            0 <= k < r.len() ==> is_recommendation_of(#[trigger] r[k], w[k], participants, mode);
    law_ranking_is_unique(w, ranked, venues, exactly_two(participants.len()));
}

/// A session's generated recommendations are what a one-off request with
/// the same venues, participants, mode and limit answers: both lists have
/// the same length, and entry `k` of each is made of venue `k` of the
/// ranking.
pub proof fn law_session_answer_is_the_request_answer(
    stored: Seq<EnhancedVenueRecommendation>,
    requested: Seq<EnhancedVenueRecommendation>,
    venues: Seq<VenueWithTravelTimes>,
    participants: Seq<Coordinate>,
    mode: TransportMode,
    limit: usize,
    ranked: Seq<VenueWithTravelTimes>,
)
    requires
        is_answer(stored, venues, participants, mode, limit),
        is_answer(requested, venues, participants, mode, limit),
        is_ranking_of(ranked, venues, exactly_two(participants.len())),
    ensures
        stored.len() == requested.len(),
        forall|k: int|
            0 <= k < stored.len() ==> is_recommendation_of(#[trigger] stored[k], ranked[k], participants, mode)
                && is_recommendation_of(requested[k], ranked[k], participants, mode),
{
    law_answer_follows_the_ranking(stored, venues, participants, mode, limit, ranked);
    law_answer_follows_the_ranking(requested, venues, participants, mode, limit, ranked);
}

/// A generation refused for want of two reported locations still leaves the
/// session marked as generating.
pub proof fn law_refused_generation_stays_generating(
    s0: StoreView,
    request: GenerateRecommendationsRequest,
    started_at: Timestamp,
    plan: Result<GenerationPlan, AppError>,
    s1: StoreView,
    id: Seq<char>,
)
    requires
        generation_start_outcome(s0, request, started_at, plan, s1),
        resolve(s0, request.session_id@) == Some(id),
        has_user(s0.sessions[id].participants, request.user_id@),
        reported_locations(s0.sessions[id].participants).len() < 2,
    ensures
        rejected_with(plan, "At least 2 participants with locations are required"@),
        s1.sessions[id].status == SessionStatus::GeneratingRecommendations,
{
}

/// The table gives back what was last stored under a key, and storing under
/// one key leaves every other key as it was.
pub proof fn law_store_read_after_write(
    m: Map<Seq<char>, SessionView>,
    k: Seq<char>,
    s: SessionView,
    other: Seq<char>,
)
    requires
        other != k,
    ensures
        m.insert(k, s).contains_key(k) && m.insert(k, s)[k] == s,
        m.insert(k, s).contains_key(other) == m.contains_key(other),
        m.contains_key(other) ==> m.insert(k, s)[other] == m[other],
{
}

/// Putting a participant in makes them a participant, keeps user ids
/// unique, and keeps every participant with another user id.
pub proof fn law_put_participant(ps: Seq<crate::models::Participant>, p: crate::models::Participant)
    requires
        crate::models::unique_user_ids(ps),
    ensures
        has_user(crate::session::put_participant(ps, p), p.user_id@),
        forall|i: int|
            0 <= i < ps.len() && (#[trigger] ps[i]).user_id@ != p.user_id@ ==> crate::session::put_participant(
                ps,
                p,
            )[i] == ps[i],
        !has_user(ps, p.user_id@) ==> crate::session::put_participant(ps, p).len() == ps.len() + 1,
        has_user(ps, p.user_id@) ==> crate::session::put_participant(ps, p).len() == ps.len(),
{
    let r = crate::session::put_participant(ps, p);
    if has_user(ps, p.user_id@) {
        let i = user_index(ps, p.user_id@);
        assert(r[i] == p);
    } else {
        assert(r[ps.len() as int] == p);
    }
}

/// No more participants are ready with a location than are ready, and no
/// more are ready than there are participants.
pub proof fn law_ready_counts_bounded(ps: Seq<crate::models::Participant>)
    ensures
        located_ready_count(ps) <= ready_count(ps),
        ready_count(ps) <= ps.len(),
    decreases ps.len(),
{
    if ps.len() > 0 {
        law_ready_counts_bounded(ps.drop_last());
    }
}

/// When a session waits for everyone, recommendations are not due while
/// some participant is not ready or has no location.
pub proof fn law_everyone_must_be_ready(s: SessionView, i: int)
    requires
        s.settings.require_all_participants,
        0 <= i < s.participants.len(),
        !is_located_and_ready(s.participants[i]),
    ensures
        !auto_generation_due(s),
{
    lemma_located_count_below(s.participants, i);
}

/// A participant who is not ready with a location keeps the count below the
/// number of participants.
proof fn lemma_located_count_below(ps: Seq<crate::models::Participant>, i: int)
    requires
        0 <= i < ps.len(),
        !is_located_and_ready(ps[i]),
    ensures
        located_ready_count(ps) < ps.len(),
    decreases ps.len(),
{
    law_ready_counts_bounded(ps.drop_last());
    if i < ps.len() - 1 {
        assert(ps.drop_last()[i] == ps[i]);
        lemma_located_count_below(ps.drop_last(), i);
    }
}

/// Cleaning up twice at the same instant removes nothing more.
pub proof fn law_cleanup_idempotent(m: Map<Seq<char>, SessionView>, now: Timestamp)
    ensures
        unexpired(unexpired(m, now), now) == unexpired(m, now),
{
    assert(unexpired(unexpired(m, now), now) =~= unexpired(m, now));
}

/// A later cleanup keeps no session that an earlier one removed, and keeps
/// every kept session as it was.
pub proof fn law_cleanup_later_keeps_less(m: Map<Seq<char>, SessionView>, earlier: Timestamp, later: Timestamp)
    requires
        earlier <= later,
    ensures
        unexpired(m, later).dom().subset_of(unexpired(m, earlier).dom()),
        forall|k: Seq<char>| #[trigger] unexpired(m, later).contains_key(k) ==> unexpired(m, later)[k] == m[k],
{
}

/// Whatever the clock reads, a cleanup removes every session that expired
/// before 1970 and keeps every session that expires at or after the latest
/// instant the clock can read.
pub proof fn law_cleanup_at_any_clock_reading(
    before: StoreView,
    now: Timestamp,
    after: StoreView,
    id: Seq<char>,
)
    requires
        0 <= now <= LATEST_CLOCK_MICROS,
        cleanup_outcome(before, now, after),
        before.sessions.contains_key(id),
    ensures
        before.sessions[id].expires_at < 0 ==> !after.sessions.contains_key(id),
        before.sessions[id].expires_at >= LATEST_CLOCK_MICROS ==> after.sessions.contains_key(id)
            && after.sessions[id] == before.sessions[id],
{
}

/// Whatever the clock reads, a join through a key that names a session
/// expiring at or after the latest instant the clock can read succeeds.
pub proof fn law_join_at_any_clock_reading(
    before: StoreView,
    request: JoinSessionRequest,
    user_id: String,
    checked_at: Timestamp,
    joined_at: Timestamp,
    updated_at: Timestamp,
    r: Result<JoinSessionResponse, AppError>,
    after: StoreView,
    key: Seq<char>,
    id: Seq<char>,
)
    requires
        0 <= checked_at <= LATEST_CLOCK_MICROS,
        join_key(request) == Some(key),
        resolve(before, key) == Some(id),
        before.sessions[id].expires_at >= LATEST_CLOCK_MICROS,
        join_outcome(before, request, user_id, checked_at, joined_at, updated_at, r, after),
    ensures
        r matches Ok(resp) && resp.user_id@ == user_id@ && after.sessions[id] == resp.session@,
{
}

/// The table's clock never goes back, and it is at least every reading in
/// the clock's range that the table has seen.
pub proof fn law_table_clock_only_advances(clock: Timestamp, t: Timestamp)
    ensures
        noted(clock, t) >= clock,
        0 <= t <= LATEST_CLOCK_MICROS ==> noted(clock, t) >= t,
        noted(clock, t) == clock || noted(clock, t) == t,
{
}

/// A cleanup at a reading no earlier than the table's clock removes every
/// session whose expiry lies before an earlier reading the table has seen,
/// and the join codes that named it.
pub proof fn law_cleanup_removes_what_expired_before_an_earlier_reading(
    before: StoreView,
    now: Timestamp,
    after: StoreView,
    id: Seq<char>,
    code: Seq<char>,
)
    requires
        before.clock <= now,
        cleanup_outcome(before, now, after),
        before.sessions.contains_key(id),
        before.sessions[id].expires_at < before.clock,
    ensures
        !after.sessions.contains_key(id),
        before.codes.contains_key(code) && before.codes[code] == id ==> !after.codes.contains_key(code),
{
}

/// After a cleanup every join code names a session that is still stored.
pub proof fn law_cleanup_leaves_no_stale_code(before: StoreView, now: Timestamp, after: StoreView, code: Seq<char>)
    requires
        cleanup_outcome(before, now, after),
        after.codes.contains_key(code),
    ensures
        after.sessions.contains_key(after.codes[code]),
        resolve(after, code) is Some,
{
}

/// Cleaning up keeps exactly the sessions that have not expired.
pub proof fn law_cleanup_keeps_exactly_live_sessions(m: Map<Seq<char>, SessionView>, now: Timestamp, k: Seq<char>)
    ensures
        unexpired(m, now).contains_key(k) <==> (m.contains_key(k) && m[k].expires_at >= now),
{
}

// Ranking.

/// Ranking a list that is already in rank order, with no penalty to apply,
/// leaves it as it is: the order is stable.
pub proof fn law_ranked_list_is_kept(
    inp: Seq<VenueWithTravelTimes>,
    out: Seq<VenueWithTravelTimes>,
    perm: Seq<int>,
)
    requires
        sorted_by_rank(inp),
        sorted_by_rank(out),
        stable_arrangement(out, inp, perm),
    ensures
        out == inp,
{
    let n = out.len() as int;
    assert forall|i: int, j: int| 0 <= i < j < n implies #[trigger] perm[i] < #[trigger] perm[j] by {
        if perm[i] > perm[j] {
            assert(ranks_no_later(out[i], out[j]));
            assert(out[i] == inp[perm[i]] && out[j] == inp[perm[j]]);
            assert(ranks_no_later(inp[perm[j]], inp[perm[i]]));
            assert(same_rank(out[i], out[j]));
        } else {
            assert(perm[i] != perm[j]);
        }
    }
    lemma_increasing_is_identity(perm, n);
    assert forall|i: int| 0 <= i < n implies out[i] == inp[i] by {
        assert(perm[i] == i);
    }
    assert(out =~= inp);
}

/// A strictly increasing sequence of `n` indices below `n` is 0, 1, 2, ...
proof fn lemma_increasing_is_identity(perm: Seq<int>, n: int)
    requires
        perm.len() == n,
        forall|i: int| 0 <= i < n ==> 0 <= #[trigger] perm[i] < n,
        forall|i: int, j: int| 0 <= i < j < n ==> #[trigger] perm[i] < #[trigger] perm[j],
    ensures
        forall|i: int| 0 <= i < n ==> #[trigger] perm[i] == i,
{
    assert forall|i: int| 0 <= i < n implies #[trigger] perm[i] >= i by {
        lemma_at_least_index(perm, n, i);
    }
    assert forall|i: int| 0 <= i < n implies #[trigger] perm[i] <= i by {
        lemma_at_most_index(perm, n, i);
    }
}

proof fn lemma_at_least_index(perm: Seq<int>, n: int, i: int)
    requires
        perm.len() == n,
        0 <= i < n,
        forall|a: int| 0 <= a < n ==> 0 <= #[trigger] perm[a] < n,
        forall|a: int, b: int| 0 <= a < b < n ==> #[trigger] perm[a] < #[trigger] perm[b],
    ensures
        perm[i] >= i,
    decreases i,
{
    if i > 0 {
        lemma_at_least_index(perm, n, i - 1);
        assert(perm[i - 1] < perm[i]);
    }
}

proof fn lemma_at_most_index(perm: Seq<int>, n: int, i: int)
    requires
        perm.len() == n,
        0 <= i < n,
        forall|a: int| 0 <= a < n ==> 0 <= #[trigger] perm[a] < n,
        forall|a: int, b: int| 0 <= a < b < n ==> #[trigger] perm[a] < #[trigger] perm[b],
    ensures
        perm[i] <= i,
    decreases n - i,
{
    if i < n - 1 {
        lemma_at_most_index(perm, n, i + 1);
        assert(perm[i] < perm[i + 1]);
    }
}

/// In rank order a venue with a lower fairness score comes first, and among
/// equally fair venues one with less total travel time comes first.
pub proof fn law_fairer_venue_first(out: Seq<VenueWithTravelTimes>, i: int, j: int)
    requires
        sorted_by_rank(out),
        0 <= i < out.len(),
        0 <= j < out.len(),
        out[i].fairness_score < out[j].fairness_score || (out[i].fairness_score
            == out[j].fairness_score && out[i].total_travel_time < out[j].total_travel_time),
    ensures
        i < j,
{
    if j < i {
        assert(ranks_no_later(out[j], out[i]));
    }
}

// Venues.

/// The longest of a non-empty list of travel times is at least its shortest.
pub proof fn law_longest_at_least_shortest(ts: Seq<u32>)
    requires
        ts.len() > 0,
    ensures
        shortest(ts) <= longest(ts),
        exists|i: int| 0 <= i < ts.len() && ts[i] == longest(ts),
        exists|i: int| 0 <= i < ts.len() && ts[i] == shortest(ts),
    decreases ts.len(),
{
    if ts.len() > 1 {
        law_longest_at_least_shortest(ts.drop_last());
        let a = choose|i: int| 0 <= i < ts.len() - 1 && ts.drop_last()[i] == longest(ts.drop_last());
        let b = choose|i: int| 0 <= i < ts.len() - 1 && ts.drop_last()[i] == shortest(ts.drop_last());
        assert(ts[a] == ts.drop_last()[a]);
        assert(ts[b] == ts.drop_last()[b]);
        assert(ts[ts.len() - 1] == ts.last());
    } else {
        assert(ts[0] == ts.last());
    }
}

/// Every assembled venue is reachable by all participants, its fairness
/// score is its spread, and its shortest travel time does not exceed its
/// longest; so assembled venues can always be ranked.
pub proof fn law_assembled_venues_are_rankable(
    places: Seq<PlaceCandidate>,
    details: Seq<Option<PlaceDetails>>,
    times: Seq<Vec<u32>>,
    n: int,
    is_two_participants: bool,
)
    requires
        crate::google_maps::assemblable(places, details, times),
        0 <= n <= places.len(),
    ensures
        forall|k: int|
            0 <= k < venues_upto(places, details, times, n).len() ==> {
                let v = #[trigger] venues_upto(places, details, times, n)[k];
                &&& all_reachable(v.travel_times@)
                &&& v.min_travel_time <= v.max_travel_time
                &&& v.fairness_score == v.max_travel_time - v.min_travel_time
            },
        rankable(venues_upto(places, details, times, n), is_two_participants),
    decreases n,
{
    if n > 0 {
        law_assembled_venues_are_rankable(places, details, times, n - 1, is_two_participants);
        if crate::google_maps::becomes_venue(places, details, times, n - 1) {
            law_longest_at_least_shortest(times[n - 1]@);
        }
    }
}

// Validation.

/// A list of categories has no unsupported entry exactly when every entry is
/// a supported place type.
pub proof fn law_no_invalid_iff_all_valid(ts: Seq<Seq<char>>)
    ensures
        invalid_place_types(ts).len() == 0 <==> forall|i: int|
            0 <= i < ts.len() ==> is_valid_place_type(#[trigger] ts[i]),
    decreases ts.len(),
{
    if ts.len() > 0 {
        law_no_invalid_iff_all_valid(ts.drop_last());
        if invalid_place_types(ts).len() == 0 {
            assert forall|i: int| 0 <= i < ts.len() implies is_valid_place_type(#[trigger] ts[i]) by {
                if i < ts.len() - 1 {
                    assert(ts.drop_last()[i] == ts[i]);
                }
            }
        }
        if forall|i: int| 0 <= i < ts.len() ==> is_valid_place_type(#[trigger] ts[i]) {
            assert(is_valid_place_type(ts[ts.len() - 1]));
            assert forall|i: int| 0 <= i < ts.drop_last().len() implies is_valid_place_type(
                #[trigger] ts.drop_last()[i],
            ) by {
                assert(ts.drop_last()[i] == ts[i]);
            }
        }
    }
}

// Configuration.

/// Without a PORT value the service listens on port 3000.
pub proof fn law_default_port(api_key: Seq<char>)
    ensures
        crate::config::config_verdict(Some(api_key), None) == Ok::<(Seq<char>, u16), Seq<char>>(
            (api_key, 3000u16),
        ),
{
    reveal_strlit("3000");
    let t = "3000"@;
    assert(t.len() == 4 && t[0] == '3' && t[1] == '0' && t[2] == '0' && t[3] == '0');
    assert(crate::config::port_digits(t) == t);
    assert(t.subrange(0, 1).drop_last() =~= Seq::<char>::empty());
    assert(t.subrange(0, 1).last() == '3');
    assert(crate::config::decimal_value(Seq::<char>::empty()) == 0);
    assert('3' as int - '0' as int == 3);
    assert('0' as int - '0' as int == 0);
    assert(crate::config::decimal_value(t.subrange(0, 1)) == 3);
    assert(t.subrange(0, 2).drop_last() =~= t.subrange(0, 1));
    assert(crate::config::decimal_value(t.subrange(0, 2)) == 30);
    assert(t.subrange(0, 3).drop_last() =~= t.subrange(0, 2));
    assert(crate::config::decimal_value(t.subrange(0, 3)) == 300);
    assert(t.drop_last() =~= t.subrange(0, 3));
    assert(crate::config::decimal_value(t) == 3000);
}

// Errors.

/// Every error is answered with 400 or 500, and only a bad request or a
/// malformed body with 400.
pub proof fn law_error_status(e: AppError)
    ensures
        crate::error::status_of(e) == 400 || crate::error::status_of(e) == 500,
        crate::error::status_of(e) == 400 <==> (e is BadRequest || e is Serialization),
{
}

} // verus!
