//! Ranking of venues: fairness first, total travel time second.
use vstd::prelude::*;

use vstd::set_lib::{lemma_int_range, lemma_subset_equality, set_int_range};

use crate::models::VenueWithTravelTimes;

verus! {

/// Ranks venues so that the group meets where travel is shared most evenly.
pub struct RankingService;

/// The spread between the longest and the shortest travel time.
pub open spec fn imbalance(v: VenueWithTravelTimes) -> int {
    v.max_travel_time - v.min_travel_time
}

/// For two participants, a spread above ten minutes adds twice the spread
/// to the fairness score; otherwise the venue is left as it is.
pub open spec fn penalized(v: VenueWithTravelTimes, is_two_participants: bool) -> VenueWithTravelTimes {
    if is_two_participants && imbalance(v) > 10 {
        VenueWithTravelTimes { fairness_score: (v.fairness_score + 2 * imbalance(v)) as u64, ..v }
    } else {
        v
    }
}

/// The venues with the penalty applied, in their given order.
pub open spec fn penalized_all(vs: Seq<VenueWithTravelTimes>, is_two_participants: bool) -> Seq<
    VenueWithTravelTimes,
> {
    vs.map_values(|v: VenueWithTravelTimes| penalized(v, is_two_participants))
}

/// `a` ranks no later than `b`: lower fairness score, or the same fairness
/// score and no more total travel time.
pub open spec fn ranks_no_later(a: VenueWithTravelTimes, b: VenueWithTravelTimes) -> bool {
    a.fairness_score < b.fairness_score || (a.fairness_score == b.fairness_score
        && a.total_travel_time <= b.total_travel_time)
}

/// `a` and `b` tie: same fairness score and same total travel time.
pub open spec fn same_rank(a: VenueWithTravelTimes, b: VenueWithTravelTimes) -> bool {
    a.fairness_score == b.fairness_score && a.total_travel_time == b.total_travel_time
}

/// Every venue ranks no later than every venue after it.
pub open spec fn sorted_by_rank(s: Seq<VenueWithTravelTimes>) -> bool {
    forall|i: int, j: int| 0 <= i < j < s.len() ==> ranks_no_later(#[trigger] s[i], #[trigger] s[j])
}

/// `out` is `inp` rearranged by `perm` (`out[k]` is `inp[perm[k]]`, no
/// element used twice), and venues that tie keep their relative order.
pub open spec fn stable_arrangement(
    out: Seq<VenueWithTravelTimes>,
    inp: Seq<VenueWithTravelTimes>,
    perm: Seq<int>,
) -> bool {
    &&& perm.len() == out.len()
    &&& out.len() == inp.len()
    &&& forall|i: int| 0 <= i < out.len() ==> 0 <= #[trigger] perm[i] < inp.len()
    &&& forall|i: int| 0 <= i < out.len() ==> #[trigger] out[i] == inp[perm[i]]
    &&& forall|i: int, j: int| 0 <= i < j < out.len() ==> #[trigger] perm[i] != #[trigger] perm[j]
    &&& forall|i: int, j: int|
        0 <= i < j < out.len() && same_rank(#[trigger] out[i], #[trigger] out[j]) ==> perm[i]
            < perm[j]
}

/// `ranked` is the ranking of `venues`: the penalized venues in rank order,
/// rearranged stably.
pub open spec fn is_ranking_of(
    ranked: Seq<VenueWithTravelTimes>,
    venues: Seq<VenueWithTravelTimes>,
    is_two_participants: bool,
) -> bool {
    &&& sorted_by_rank(ranked)
    &&& exists|perm: Seq<int>| stable_arrangement(ranked, penalized_all(venues, is_two_participants), perm)
}

/// What the ranking needs of its input: for two participants the shortest
/// travel time does not exceed the longest, and a penalized score fits.
pub open spec fn rankable(vs: Seq<VenueWithTravelTimes>, is_two_participants: bool) -> bool {
    is_two_participants ==> forall|i: int|
        0 <= i < vs.len() ==> {
            &&& (#[trigger] vs[i]).min_travel_time <= vs[i].max_travel_time
            &&& imbalance(vs[i]) > 10 ==> vs[i].fairness_score + 2 * imbalance(vs[i])
                <= u64::MAX
        }
}

impl RankingService {
    /// Applies the two-participant penalty and sorts the venues, stably, by
    /// fairness score and then by total travel time (lower first).
    pub fn rank_venues(venues: Vec<VenueWithTravelTimes>, is_two_participants: bool) -> (ranked: Vec<
        VenueWithTravelTimes,
    >)
        requires
            rankable(venues@, is_two_participants),
        ensures
            ranked@.len() == venues@.len(),
            sorted_by_rank(ranked@),
            exists|perm: Seq<int>|
                stable_arrangement(ranked@, penalized_all(venues@, is_two_participants), perm),
    {
        let ghost pen = penalized_all(venues@, is_two_participants);
        let n: usize = venues.len();
        let mut input = venues;
        let mut out: Vec<VenueWithTravelTimes> = Vec::new();
        let ghost mut perm: Seq<int> = Seq::empty();
        let mut k: usize = 0;
        while input.len() > 0
            invariant
                n == venues@.len(),
                pen == penalized_all(venues@, is_two_participants),
                rankable(venues@, is_two_participants),
                k + input@.len() == n,
                input@ == venues@.subrange(k as int, n as int),
                out@.len() == k,
                perm.len() == k,
                sorted_by_rank(out@),
                forall|i: int| 0 <= i < k ==> 0 <= #[trigger] perm[i] < k,
                forall|i: int| 0 <= i < k ==> #[trigger] out@[i] == pen[perm[i]],
                forall|i: int, j: int| 0 <= i < j < k ==> #[trigger] perm[i] != #[trigger] perm[j],
                forall|i: int, j: int|
                    0 <= i < j < k && same_rank(#[trigger] out@[i], #[trigger] out@[j]) ==> perm[i]
                        < perm[j],
            decreases input@.len(),
        {
            let mut v = input.remove(0);
            assert(v == venues@[k as int]);
            if is_two_participants {
                assert(v.min_travel_time <= v.max_travel_time);
                let spread = v.max_travel_time - v.min_travel_time;
                if spread > 10 {
                    v.fairness_score = v.fairness_score + (spread as u64) * 2;
                }
            }
            assert(v == pen[k as int]);
            let mut p: usize = 0;
            while p < out.len() && ranks_no_later_exec(&out[p], &v)
                invariant
                    p <= out@.len(),
                    forall|q: int| 0 <= q < p ==> ranks_no_later(#[trigger] out@[q], v),
                decreases out@.len() - p,
            {
                p = p + 1;
            }
            proof {
                if p < out@.len() {
                    assert(!ranks_no_later(out@[p as int], v));
                    assert forall|q: int| p <= q < out@.len() implies !ranks_no_later(
                        #[trigger] out@[q],
                        v,
                    ) by {
                        if q > p {
                            assert(ranks_no_later(out@[p as int], out@[q]));
                        }
                    }
                }
            }
            let ghost old_out = out@;
            let ghost old_perm = perm;
            out.insert(p, v);
            proof {
                perm = perm.insert(p as int, k as int);
                assert forall|i: int, j: int| 0 <= i < j < out@.len() implies ranks_no_later(
                    #[trigger] out@[i],
                    #[trigger] out@[j],
                ) by {
                    if j < p {
                        assert(out@[i] == old_out[i] && out@[j] == old_out[j]);
                    } else if j == p {
                        assert(out@[i] == old_out[i]);
                    } else if i < p {
                        assert(out@[i] == old_out[i] && out@[j] == old_out[j - 1]);
                        assert(ranks_no_later(old_out[i], old_out[j - 1]));
                    } else if i == p {
                        assert(out@[j] == old_out[j - 1]);
                        assert(!ranks_no_later(old_out[j - 1], v));
                    } else {
                        assert(out@[i] == old_out[i - 1] && out@[j] == old_out[j - 1]);
                    }
                }
                assert forall|i: int| 0 <= i < k + 1 implies #[trigger] out@[i] == pen[perm[i]] by {
                    if i < p {
                        assert(out@[i] == old_out[i] && perm[i] == old_perm[i]);
                    } else if i > p {
                        assert(out@[i] == old_out[i - 1] && perm[i] == old_perm[i - 1]);
                    }
                }
                assert forall|i: int| 0 <= i < k + 1 implies 0 <= #[trigger] perm[i] < k + 1 by {
                    if i < p {
                        assert(perm[i] == old_perm[i]);
                    } else if i > p {
                        assert(perm[i] == old_perm[i - 1]);
                    }
                }
                assert forall|i: int, j: int| 0 <= i < j < k + 1 implies #[trigger] perm[i]
                    != #[trigger] perm[j] by {
                    if i < p && j < p {
                        assert(perm[i] == old_perm[i] && perm[j] == old_perm[j]);
                    } else if i < p && j == p {
                        assert(perm[i] == old_perm[i]);
                    } else if i < p && j > p {
                        assert(perm[i] == old_perm[i] && perm[j] == old_perm[j - 1]);
                    } else if i == p {
                        assert(perm[j] == old_perm[j - 1]);
                    } else {
                        assert(perm[i] == old_perm[i - 1] && perm[j] == old_perm[j - 1]);
                    }
                }
                assert forall|i: int, j: int|
                    0 <= i < j < k + 1 && same_rank(
                        #[trigger] out@[i],
                        #[trigger] out@[j],
                    ) implies perm[i] < perm[j] by {
                    if i < p && j < p {
                        assert(out@[i] == old_out[i] && out@[j] == old_out[j]);
                        assert(perm[i] == old_perm[i] && perm[j] == old_perm[j]);
                    } else if i < p && j == p {
                        assert(perm[i] == old_perm[i]);
                    } else if i < p && j > p {
                        assert(out@[i] == old_out[i] && out@[j] == old_out[j - 1]);
                        assert(perm[i] == old_perm[i] && perm[j] == old_perm[j - 1]);
                    } else if i == p {
                        assert(out@[j] == old_out[j - 1]);
                        assert(!ranks_no_later(old_out[j - 1], v));
                    } else {
                        assert(out@[i] == old_out[i - 1] && out@[j] == old_out[j - 1]);
                        assert(perm[i] == old_perm[i - 1] && perm[j] == old_perm[j - 1]);
                    }
                }
            }
            k = k + 1;
        }
        assert(stable_arrangement(out@, pen, perm));
        out
    }
}

/// Executable form of [`ranks_no_later`].
fn ranks_no_later_exec(a: &VenueWithTravelTimes, b: &VenueWithTravelTimes) -> (r: bool)
    ensures
        r == ranks_no_later(*a, *b),
{
    a.fairness_score < b.fairness_score || (a.fairness_score == b.fairness_score
        && a.total_travel_time <= b.total_travel_time)
}

/// An injective sequence of `n` indices below `n` takes every index below `n`.
proof fn lemma_perm_onto(perm: Seq<int>, n: int, x: int)
    requires
        perm.len() == n,
        forall|i: int| 0 <= i < n ==> 0 <= #[trigger] perm[i] < n,
        forall|i: int, j: int| 0 <= i < j < n ==> #[trigger] perm[i] != #[trigger] perm[j],
        0 <= x < n,
    ensures
        exists|k: int| 0 <= k < n && perm[k] == x,
{
    assert(perm.no_duplicates()) by {
        assert forall|i: int, j: int| 0 <= i < perm.len() && 0 <= j < perm.len() && i != j implies perm[i]
            != perm[j] by {
            if i < j {
                assert(perm[i] != perm[j]);
            } else {
                assert(perm[j] != perm[i]);
            }
        }
    }
    perm.unique_seq_to_set();
    let vals = perm.to_set();
    let range = set_int_range(0, n);
    lemma_int_range(0, n);
    assert(vals.subset_of(range)) by {
        assert forall|v: int| vals.contains(v) implies range.contains(v) by {
            let k = choose|k: int| 0 <= k < perm.len() && perm[k] == v;
        }
    }
    vstd::seq_lib::seq_to_set_is_finite(perm);
    lemma_subset_equality(vals, range);
    assert(range.contains(x));
    assert(vals.contains(x));
}

/// The arrangements `p1` and `p2` of the rankings `r1` and `r2` of the same
/// venues agree on every position below `k`.
proof fn lemma_arrangements_agree(
    r1: Seq<VenueWithTravelTimes>,
    r2: Seq<VenueWithTravelTimes>,
    pen: Seq<VenueWithTravelTimes>,
    p1: Seq<int>,
    p2: Seq<int>,
    k: int,
)
    requires
        sorted_by_rank(r1),
        sorted_by_rank(r2),
        stable_arrangement(r1, pen, p1),
        stable_arrangement(r2, pen, p2),
        0 <= k <= pen.len(),
    ensures
        forall|j: int| 0 <= j < k ==> p1[j] == p2[j],
    decreases k,
{
    if k > 0 {
        lemma_arrangements_agree(r1, r2, pen, p1, p2, k - 1);
        let i = k - 1;
        let n = pen.len() as int;
        let a = p1[i];
        let b = p2[i];
        if a != b {
            lemma_perm_onto(p1, n, b);
            let m = choose|m: int| 0 <= m < n && p1[m] == b;
            lemma_perm_onto(p2, n, a);
            let m2 = choose|m: int| 0 <= m < n && p2[m] == a;
            if m < i {
                assert(p2[m] == b);
                assert(p2[m] != p2[i]);
            }
            if m2 < i {
                assert(p1[m2] == a);
                assert(p1[m2] != p1[i]);
            }
            assert(m > i && m2 > i);
            assert(ranks_no_later(r1[i], r1[m]));
            assert(ranks_no_later(r2[i], r2[m2]));
            assert(r1[i] == pen[a] && r1[m] == pen[b]);
            assert(r2[i] == pen[b] && r2[m2] == pen[a]);
            assert(same_rank(r1[i], r1[m]));
            assert(p1[i] < p1[m]);
            assert(same_rank(r2[i], r2[m2]));
            assert(p2[i] < p2[m2]);
        }
    }
}

/// A list has one ranking: any two rankings of the same venues are equal.
pub proof fn law_ranking_is_unique(
    r1: Seq<VenueWithTravelTimes>,
    r2: Seq<VenueWithTravelTimes>,
    venues: Seq<VenueWithTravelTimes>,
    is_two_participants: bool,
)
    requires
        is_ranking_of(r1, venues, is_two_participants),
        is_ranking_of(r2, venues, is_two_participants),
    ensures
        r1 == r2,
{
    let pen = penalized_all(venues, is_two_participants);
    let p1 = choose|p: Seq<int>| stable_arrangement(r1, pen, p);
    let p2 = choose|p: Seq<int>| stable_arrangement(r2, pen, p);
    lemma_arrangements_agree(r1, r2, pen, p1, p2, pen.len() as int);
    assert forall|k: int| 0 <= k < r1.len() implies r1[k] == r2[k] by {
        assert(p1[k] == p2[k]);
    }
    assert(r1 =~= r2);
}

} // verus!
