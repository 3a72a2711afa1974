//! The in-memory table of sessions: each session once, under its id, and its
//! join code as another name for it.
use vstd::prelude::*;

use crate::models::{texts, Session, SessionView, Timestamp};
use crate::world::{clock_now, LATEST_CLOCK_MICROS};

verus! {

/// One row of a table: a value under a key.
pub struct StoredRow<T> {
    pub key: String,
    pub value: T,
}

/// The keys of the rows are pairwise distinct.
pub open spec fn distinct_keys<T>(es: Seq<StoredRow<T>>) -> bool {
    forall|i: int, j: int|
        0 <= i < es.len() && 0 <= j < es.len() && i != j ==> (#[trigger] es[i]).key@
            != (#[trigger] es[j]).key@
}

/// Whether some row has this key.
pub open spec fn has_key<T>(es: Seq<StoredRow<T>>, k: Seq<char>) -> bool {
    exists|i: int| 0 <= i < es.len() && (#[trigger] es[i]).key@ == k
}

/// The rows as a map from key to value.
pub open spec fn rows_map<T: View>(es: Seq<StoredRow<T>>) -> Map<Seq<char>, T::V> {
    Map::new(
        |k: Seq<char>| has_key(es, k),
        |k: Seq<char>| es[choose|i: int| 0 <= i < es.len() && (#[trigger] es[i]).key@ == k].value@,
    )
}

/// Under distinct keys, the row at `i` is what the map holds for its key.
pub proof fn lemma_rows_map_at<T: View>(es: Seq<StoredRow<T>>, i: int)
    requires
        distinct_keys(es),
        0 <= i < es.len(),
    ensures
        rows_map(es).contains_key(es[i].key@),
        rows_map(es)[es[i].key@] == es[i].value@,
{
    let k = es[i].key@;
    assert(has_key(es, k));
    let j = choose|j: int| 0 <= j < es.len() && (#[trigger] es[j]).key@ == k;
    assert(j == i);
}

/// Replacing the value of row `i`, key unchanged, updates the map at that key.
pub proof fn lemma_rows_map_update<T: View>(es: Seq<StoredRow<T>>, i: int, e: StoredRow<T>)
    requires
        distinct_keys(es),
        0 <= i < es.len(),
        e.key@ == es[i].key@,
    ensures
        distinct_keys(es.update(i, e)),
        rows_map(es.update(i, e)) == rows_map(es).insert(e.key@, e.value@),
{
    let ns = es.update(i, e);
    assert(distinct_keys(ns)) by {
        assert forall|a: int, b: int|
            0 <= a < ns.len() && 0 <= b < ns.len() && a != b implies (#[trigger] ns[a]).key@
            != (#[trigger] ns[b]).key@ by {
            assert(ns[a].key@ == es[a].key@);
            assert(ns[b].key@ == es[b].key@);
        }
    }
    let lhs = rows_map(ns);
    let rhs = rows_map(es).insert(e.key@, e.value@);
    assert forall|k: Seq<char>| lhs.contains_key(k) <==> rhs.contains_key(k) by {
        if has_key(ns, k) {
            let j = choose|j: int| 0 <= j < ns.len() && (#[trigger] ns[j]).key@ == k;
            assert(es[j].key@ == k);
        }
        if has_key(es, k) {
            let j = choose|j: int| 0 <= j < es.len() && (#[trigger] es[j]).key@ == k;
            assert(ns[j].key@ == k);
        }
    }
    assert forall|k: Seq<char>| lhs.contains_key(k) implies lhs[k] == rhs[k] by {
        let j = choose|j: int| 0 <= j < ns.len() && (#[trigger] ns[j]).key@ == k;
        lemma_rows_map_at(ns, j);
        if j != i {
            assert(es[j] == ns[j]);
            lemma_rows_map_at(es, j);
        }
    }
    assert(lhs =~= rhs);
}

/// Appending a row with a new key adds that key to the map.
pub proof fn lemma_rows_map_push<T: View>(es: Seq<StoredRow<T>>, e: StoredRow<T>)
    requires
        distinct_keys(es),
        !has_key(es, e.key@),
    ensures
        distinct_keys(es.push(e)),
        rows_map(es.push(e)) == rows_map(es).insert(e.key@, e.value@),
{
    let ns = es.push(e);
    assert(distinct_keys(ns)) by {
        assert forall|a: int, b: int|
            0 <= a < ns.len() && 0 <= b < ns.len() && a != b implies (#[trigger] ns[a]).key@
            != (#[trigger] ns[b]).key@ by {
            if a < es.len() && b < es.len() {
                assert(ns[a] == es[a] && ns[b] == es[b]);
            } else if a < es.len() {
                assert(ns[a] == es[a]);
            } else if b < es.len() {
                assert(ns[b] == es[b]);
            }
        }
    }
    let lhs = rows_map(ns);
    let rhs = rows_map(es).insert(e.key@, e.value@);
    assert forall|k: Seq<char>| lhs.contains_key(k) <==> rhs.contains_key(k) by {
        if has_key(ns, k) {
            let j = choose|j: int| 0 <= j < ns.len() && (#[trigger] ns[j]).key@ == k;
            if j < es.len() {
                assert(ns[j] == es[j]);
            }
        }
        if has_key(es, k) {
            let j = choose|j: int| 0 <= j < es.len() && (#[trigger] es[j]).key@ == k;
            assert(ns[j] == es[j]);
        }
        if k == e.key@ {
            assert(ns[es.len() as int] == e);
        }
    }
    assert forall|k: Seq<char>| lhs.contains_key(k) implies lhs[k] == rhs[k] by {
        let j = choose|j: int| 0 <= j < ns.len() && (#[trigger] ns[j]).key@ == k;
        lemma_rows_map_at(ns, j);
        if j < es.len() {
            assert(ns[j] == es[j]);
            lemma_rows_map_at(es, j);
        }
    }
    assert(lhs =~= rhs);
}

/// The sessions of `m` that have not expired at `now` (expiry at or after
/// `now`).
pub open spec fn unexpired(m: Map<Seq<char>, SessionView>, now: Timestamp) -> Map<Seq<char>, SessionView> {
    m.restrict(m.dom().filter(|k: Seq<char>| !(now > m[k].expires_at)))
}

/// The join codes of `codes` whose session is among `sessions`.
pub open spec fn codes_of(
    codes: Map<Seq<char>, Seq<char>>,
    sessions: Map<Seq<char>, SessionView>,
) -> Map<Seq<char>, Seq<char>> {
    codes.restrict(codes.dom().filter(|c: Seq<char>| sessions.contains_key(codes[c])))
}

/// The content of a [`SessionStore`]: sessions by id, join codes, each
/// naming the id of its session, and the latest clock reading seen.
pub struct StoreView {
    pub sessions: Map<Seq<char>, SessionView>,
    pub codes: Map<Seq<char>, Seq<char>>,
    /// The latest clock reading the table has seen.
    pub clock: Timestamp,
}

/// The id of the session that `key` names: `key` itself when a session has
/// that id, else the session whose join code `key` is, if it is stored.
pub open spec fn resolve(t: StoreView, key: Seq<char>) -> Option<Seq<char>> {
    if t.sessions.contains_key(key) {
        Some(key)
    } else if t.codes.contains_key(key) && t.sessions.contains_key(t.codes[key]) {
        Some(t.codes[key])
    } else {
        None
    }
}

/// The keys of the rows that `keep` marks.
pub open spec fn kept_keys<T>(es: Seq<StoredRow<T>>, keep: Seq<bool>) -> Set<Seq<char>> {
    Set::new(|k: Seq<char>| exists|j: int| 0 <= j < es.len() && (#[trigger] es[j]).key@ == k && keep[j])
}

/// The row index of `key` among `rows`, if it is there.
fn find_row<T>(rows: &Vec<StoredRow<T>>, key: &str) -> (r: Option<usize>)
    ensures
        r is None <==> !has_key(rows@, key@),
        r matches Some(i) ==> i < rows@.len() && rows@[i as int].key@ == key@,
{
    let mut i: usize = 0;
    while i < rows.len()
        invariant
            i <= rows@.len(),
            forall|j: int| 0 <= j < i ==> (#[trigger] rows@[j]).key@ != key@,
        decreases rows@.len() - i,
    {
        if crate::text::same_text(rows[i].key.as_str(), key) {
            return Some(i);
        }
        i = i + 1;
    }
    None
}

/// The rows that `keep` marks, in their order.
fn filter_rows<T: View>(rows: Vec<StoredRow<T>>, keep: &Vec<bool>) -> (r: Vec<StoredRow<T>>)
    requires
        distinct_keys(rows@),
        keep@.len() == rows@.len(),
    ensures
        distinct_keys(r@),
        rows_map(r@) == rows_map(rows@).restrict(kept_keys(rows@, keep@)),
        forall|a: int| 0 <= a < r@.len() ==> rows@.contains(#[trigger] r@[a]),
{
    let ghost old_rows = rows@;
    let len: usize = rows.len();
    let ghost n = old_rows.len();
    let mut taken = rows;
    let mut kept: Vec<StoredRow<T>> = Vec::new();
    let ghost mut src: Seq<int> = Seq::empty();
    let mut i: usize = 0;
    while taken.len() > 0
        invariant
            n == old_rows.len(),
            n == len,
            keep@.len() == n,
            distinct_keys(old_rows),
            0 <= i <= n,
            taken@ == old_rows.subrange(i as int, n as int),
            src.len() == kept@.len(),
            forall|a: int| 0 <= a < src.len() ==> 0 <= #[trigger] src[a] < i,
            forall|a: int, b: int| 0 <= a < b < src.len() ==> #[trigger] src[a] < #[trigger] src[b],
            forall|a: int| 0 <= a < src.len() ==> #[trigger] kept@[a] == old_rows[src[a]],
            forall|a: int| 0 <= a < src.len() ==> keep@[#[trigger] src[a]],
            forall|j: int|
                0 <= j < i && keep@[j] ==> exists|a: int| 0 <= a < src.len() && #[trigger] src[a] == j,
        decreases taken@.len(),
    {
        let row = taken.remove(0);
        assert(row == old_rows[i as int]);
        if keep[i] {
            kept.push(row);
            proof {
                let old_src = src;
                src = src.push(i as int);
                assert forall|j: int| 0 <= j < i + 1 && keep@[j] implies exists|a: int|
                    0 <= a < src.len() && #[trigger] src[a] == j by {
                    if j == i {
                        assert(src[src.len() - 1] == j);
                    } else {
                        let a = choose|a: int| 0 <= a < old_src.len() && #[trigger] old_src[a] == j;
                        assert(src[a] == old_src[a]);
                    }
                }
            }
        }
        i = i + 1;
    }
    let ghost ks = kept@;
    proof {
        assert(distinct_keys(ks)) by {
            assert forall|a: int, b: int|
                0 <= a < ks.len() && 0 <= b < ks.len() && a != b implies (#[trigger] ks[a]).key@
                != (#[trigger] ks[b]).key@ by {
                if a < b {
                    assert(src[a] < src[b]);
                } else {
                    assert(src[b] < src[a]);
                }
            }
        }
        let ov = rows_map(old_rows);
        let lhs = rows_map(ks);
        let rhs = ov.restrict(kept_keys(old_rows, keep@));
        assert forall|k: Seq<char>| lhs.contains_key(k) <==> rhs.contains_key(k) by {
            if has_key(ks, k) {
                let a = choose|a: int| 0 <= a < ks.len() && (#[trigger] ks[a]).key@ == k;
                lemma_rows_map_at(old_rows, src[a]);
                assert(old_rows[src[a]].key@ == k && keep@[src[a]]);
            }
            if rhs.contains_key(k) {
                let j = choose|j: int| 0 <= j < old_rows.len() && (#[trigger] old_rows[j]).key@ == k && keep@[j];
                let a = choose|a: int| 0 <= a < src.len() && #[trigger] src[a] == j;
                assert(ks[a].key@ == k);
            }
        }
        assert forall|k: Seq<char>| lhs.contains_key(k) implies lhs[k] == rhs[k] by {
            let a = choose|a: int| 0 <= a < ks.len() && (#[trigger] ks[a]).key@ == k;
            lemma_rows_map_at(ks, a);
            lemma_rows_map_at(old_rows, src[a]);
        }
        assert(lhs =~= rhs);
        assert forall|a: int| 0 <= a < ks.len() implies old_rows.contains(#[trigger] ks[a]) by {
            assert(ks[a] == old_rows[src[a]]);
        }
    }
    kept
}

/// Sessions by id, and join codes naming session ids. An id and a code
/// occur once each; every stored session is well formed.
pub struct SessionStore {
    sessions: Vec<StoredRow<Session>>,
    codes: Vec<StoredRow<String>>,
    clock: Timestamp,
}

/// The table's clock after it sees the reading `t`: readings outside the
/// clock's range are passed over, and the table's clock never goes back.
pub open spec fn noted(clock: Timestamp, t: Timestamp) -> Timestamp {
    if 0 <= t <= LATEST_CLOCK_MICROS && t > clock {
        t
    } else {
        clock
    }
}

impl SessionStore {
    #[verifier::type_invariant]
    spec fn well_formed(self) -> bool {
        &&& distinct_keys(self.sessions@)
        &&& distinct_keys(self.codes@)
        &&& forall|i: int|
            0 <= i < self.sessions@.len() ==> (#[trigger] self.sessions@[i]).value@.well_formed()
        &&& 0 <= self.clock <= LATEST_CLOCK_MICROS
    }

    /// The table's content.
    pub closed spec fn view(self) -> StoreView {
        StoreView { sessions: rows_map(self.sessions@), codes: rows_map(self.codes@), clock: self.clock }
    }

    /// An empty table: no session, no join code.
    pub fn new() -> (r: SessionStore)
        ensures
            r.view().sessions == Map::<Seq<char>, SessionView>::empty(),
            r.view().codes == Map::<Seq<char>, Seq<char>>::empty(),
            r.view().clock == 0,
    {
        let r = SessionStore { sessions: Vec::new(), codes: Vec::new(), clock: 0 };
        assert(rows_map(r.sessions@) =~= Map::<Seq<char>, SessionView>::empty());
        assert(rows_map(r.codes@) =~= Map::<Seq<char>, Seq<char>>::empty());
        r
    }

    /// The number of sessions.
    pub fn len(&self) -> (r: usize)
        ensures
            r == self.view().sessions.dom().len(),
    {
        proof {
            use_type_invariant(self);
            lemma_keys_len(self.sessions@);
        }
        self.sessions.len()
    }

    /// The id of the session that `key` names (see [`resolve`]).
    pub fn resolve_key(&self, key: &str) -> (r: Option<String>)
        ensures
            r is None <==> resolve(self.view(), key@) is None,
            r matches Some(id) ==> resolve(self.view(), key@) == Some(id@),
    {
        proof {
            use_type_invariant(self);
        }
        if find_row(&self.sessions, key).is_some() {
            return Some(key.to_owned());
        }
        match find_row(&self.codes, key) {
            Some(c) => {
                proof {
                    lemma_rows_map_at(self.codes@, c as int);
                }
                let id = self.codes[c].value.as_str();
                if find_row(&self.sessions, id).is_some() {
                    Some(id.to_owned())
                } else {
                    None
                }
            },
            None => None,
        }
    }

    /// Every name the table holds: the session ids, then the join codes.
    pub fn names(&self) -> (r: Vec<String>)
        ensures
            forall|t: Seq<char>|
                texts(r@).contains(t) <==> (self.view().sessions.contains_key(t) || self.view().codes.contains_key(t)),
            r@.len() == self.view().sessions.dom().len() + self.view().codes.dom().len(),
    {
        proof {
            use_type_invariant(self);
            lemma_keys_len(self.sessions@);
            lemma_keys_len(self.codes@);
        }
        let mut r: Vec<String> = Vec::new();
        let mut i: usize = 0;
        while i < self.sessions.len()
            invariant
                i <= self.sessions@.len(),
                r@.len() == i,
                forall|j: int| 0 <= j < i ==> (#[trigger] r@[j])@ == self.sessions@[j].key@,
            decreases self.sessions@.len() - i,
        {
            r.push(self.sessions[i].key.clone());
            i = i + 1;
        }
        let m = r.len();
        let mut c: usize = 0;
        while c < self.codes.len()
            invariant
                c <= self.codes@.len(),
                m == self.sessions@.len(),
                r@.len() == m + c,
                forall|j: int| 0 <= j < m ==> (#[trigger] r@[j])@ == self.sessions@[j].key@,
                forall|j: int| 0 <= j < c ==> (#[trigger] r@[m + j])@ == self.codes@[j].key@,
            decreases self.codes@.len() - c,
        {
            r.push(self.codes[c].key.clone());
            c = c + 1;
        }
        proof {
            assert forall|t: Seq<char>|
                texts(r@).contains(t) <==> (self.view().sessions.contains_key(t) || self.view().codes.contains_key(t)) by {
                if texts(r@).contains(t) {
                    let j = choose|j: int| 0 <= j < texts(r@).len() && texts(r@)[j] == t;
                    if j < m {
                        assert(has_key(self.sessions@, t));
                    } else {
                        assert(r@[m + (j - m)]@ == self.codes@[j - m].key@);
                        assert(has_key(self.codes@, t));
                    }
                }
                if self.view().sessions.contains_key(t) {
                    let j = choose|j: int| 0 <= j < self.sessions@.len() && (#[trigger] self.sessions@[j]).key@ == t;
                    assert(texts(r@)[j] == t);
                }
                if self.view().codes.contains_key(t) {
                    let j = choose|j: int| 0 <= j < self.codes@.len() && (#[trigger] self.codes@[j]).key@ == t;
                    assert(r@[m + j]@ == t);
                    assert(texts(r@)[m + j] == t);
                }
            }
        }
        r
    }

    /// Whether `key` names a stored session, by id or by join code.
    pub fn contains_key(&self, key: &str) -> (r: bool)
        ensures
            r == resolve(self.view(), key@) is Some,
    {
        self.resolve_key(key).is_some()
    }

    /// A copy of the session stored under the id `id`.
    fn session_at(&self, id: &str) -> (r: Option<Session>)
        ensures
            r is None <==> !self.view().sessions.contains_key(id@),
            r matches Some(s) ==> s@ == self.view().sessions[id@] && s@.well_formed(),
    {
        proof {
            use_type_invariant(self);
        }
        match find_row(&self.sessions, id) {
            Some(i) => {
                proof {
                    lemma_rows_map_at(self.sessions@, i as int);
                }
                Some(self.sessions[i].value.duplicate())
            },
            None => None,
        }
    }

    /// A copy of the session that `key` names, by id or by join code.
    pub fn get(&self, key: &str) -> (r: Option<Session>)
        ensures
            r is None <==> resolve(self.view(), key@) is None,
            r matches Some(s) ==> s@ == self.view().sessions[resolve(self.view(), key@)->Some_0]
                && s@.well_formed(),
    {
        match self.resolve_key(key) {
            Some(id) => self.session_at(id.as_str()),
            None => None,
        }
    }

    /// Stores `session` under the id `id`, replacing what was there; the join
    /// codes stay as they are.
    pub fn insert(&mut self, id: String, session: Session)
        requires
            session@.well_formed(),
        ensures
            final(self).view().sessions == old(self).view().sessions.insert(id@, session@),
            final(self).view().codes == old(self).view().codes,
            final(self).view().clock == old(self).view().clock,
    {
        proof {
            use_type_invariant(&*self);
        }
        let clock = self.clock;
        let (mut sessions, codes) = self.take_rows();
        let found = find_row(&sessions, id.as_str());
        let ghost k = id@;
        match found {
            Some(i) => {
                let row = StoredRow { key: id, value: session };
                proof {
                    lemma_rows_map_update(sessions@, i as int, row);
                }
                sessions.set(i, row);
            },
            None => {
                let row = StoredRow { key: id, value: session };
                proof {
                    lemma_rows_map_push(sessions@, row);
                }
                sessions.push(row);
            },
        }
        *self = SessionStore { sessions, codes, clock };
    }

    /// Makes `code` a join code of the session with id `id`, replacing what
    /// the code named before; the sessions stay as they are.
    pub fn add_code(&mut self, code: String, id: String)
        ensures
            final(self).view().codes == old(self).view().codes.insert(code@, id@),
            final(self).view().sessions == old(self).view().sessions,
            final(self).view().clock == old(self).view().clock,
    {
        proof {
            use_type_invariant(&*self);
        }
        let clock = self.clock;
        let (sessions, mut codes) = self.take_rows();
        let found = find_row(&codes, code.as_str());
        match found {
            Some(i) => {
                let row = StoredRow { key: code, value: id };
                proof {
                    lemma_rows_map_update(codes@, i as int, row);
                }
                codes.set(i, row);
            },
            None => {
                let row = StoredRow { key: code, value: id };
                proof {
                    lemma_rows_map_push(codes@, row);
                }
                codes.push(row);
            },
        }
        *self = SessionStore { sessions, codes, clock };
    }

    /// Lets the table see the clock reading `t` (see [`noted`]); the sessions
    /// and join codes stay as they are.
    pub fn note_reading(&mut self, t: Timestamp)
        ensures
            final(self).view().sessions == old(self).view().sessions,
            final(self).view().codes == old(self).view().codes,
            final(self).view().clock == noted(old(self).view().clock, t),
    {
        proof {
            use_type_invariant(&*self);
        }
        if 0 <= t && t <= LATEST_CLOCK_MICROS && t > self.clock {
            self.clock = t;
        }
    }

    /// Reads the clock through the table: the current time, or the table's
    /// latest reading if the clock now reads earlier, so that readings taken
    /// through one table never go back.
    pub fn read_clock(&mut self) -> (t: Timestamp)
        ensures
            old(self).view().clock <= t <= LATEST_CLOCK_MICROS,
            0 <= t,
            final(self).view().clock == t,
            final(self).view().sessions == old(self).view().sessions,
            final(self).view().codes == old(self).view().codes,
    {
        proof {
            use_type_invariant(&*self);
        }
        let now = clock_now();
        if now > self.clock {
            self.clock = now;
        }
        self.clock
    }

    /// Moves the rows out, leaving the table empty.
    fn take_rows(&mut self) -> (rows: (Vec<StoredRow<Session>>, Vec<StoredRow<String>>))
        ensures
            rows.0@ == old(self).sessions@,
            rows.1@ == old(self).codes@,
            0 <= old(self).clock <= LATEST_CLOCK_MICROS,
            distinct_keys(rows.0@),
            distinct_keys(rows.1@),
            forall|i: int| 0 <= i < rows.0@.len() ==> (#[trigger] rows.0@[i]).value@.well_formed(),
    {
        proof {
            use_type_invariant(&*self);
        }
        let mut owned = SessionStore { sessions: Vec::new(), codes: Vec::new(), clock: 0 };
        std::mem::swap(self, &mut owned);
        let SessionStore { sessions, codes, clock: _ } = owned;
        (sessions, codes)
    }

    /// Removes every session whose expiry lies before `now`, with its join
    /// codes; keeps the rest.
    pub fn retain_unexpired(&mut self, now: Timestamp)
        ensures
            final(self).view().sessions == unexpired(old(self).view().sessions, now),
            final(self).view().codes == codes_of(old(self).view().codes, final(self).view().sessions),
            final(self).view().clock == old(self).view().clock,
    {
        proof {
            use_type_invariant(&*self);
        }
        let clock = self.clock;
        let (sessions, codes) = self.take_rows();
        let ghost old_sessions = sessions@;
        let ghost old_codes = codes@;
        let mut keep: Vec<bool> = Vec::new();
        let mut i: usize = 0;
        while i < sessions.len()
            invariant
                i <= sessions@.len(),
                keep@.len() == i,
                forall|j: int| 0 <= j < i ==> #[trigger] keep@[j] == !(now > sessions@[j].value.expires_at),
            decreases sessions@.len() - i,
        {
            keep.push(!(now > sessions[i].value.expires_at));
            i = i + 1;
        }
        let ghost keep_s = keep@;
        let kept = filter_rows(sessions, &keep);
        proof {
            let m = rows_map(old_sessions);
            assert(kept_keys(old_sessions, keep_s).intersect(m.dom()) =~= m.dom().filter(
                |k: Seq<char>| !(now > m[k].expires_at),
            )) by {
                assert forall|k: Seq<char>|
                    kept_keys(old_sessions, keep_s).contains(k) && m.dom().contains(k) <==> m.dom().filter(
                        |k: Seq<char>| !(now > m[k].expires_at),
                    ).contains(k) by {
                    if m.dom().contains(k) {
                        let j = choose|j: int| 0 <= j < old_sessions.len() && (#[trigger] old_sessions[j]).key@ == k;
                        lemma_rows_map_at(old_sessions, j);
                        if kept_keys(old_sessions, keep_s).contains(k) {
                            let j2 = choose|j2: int|
                                0 <= j2 < old_sessions.len() && (#[trigger] old_sessions[j2]).key@ == k && keep_s[j2];
                            assert(j2 == j);
                        }
                    }
                }
            }
            assert(m.restrict(kept_keys(old_sessions, keep_s)) =~= unexpired(m, now));
            assert forall|a: int| 0 <= a < kept@.len() implies (#[trigger] kept@[a]).value@.well_formed() by {
                assert(old_sessions.contains(kept@[a]));
                let j = choose|j: int| 0 <= j < old_sessions.len() && old_sessions[j] == kept@[a];
                assert(old_sessions[j].value@.well_formed());
            }
        }
        let mut keep_c: Vec<bool> = Vec::new();
        let mut c: usize = 0;
        while c < codes.len()
            invariant
                c <= codes@.len(),
                keep_c@.len() == c,
                forall|j: int| 0 <= j < c ==> #[trigger] keep_c@[j] == has_key(kept@, codes@[j].value@),
            decreases codes@.len() - c,
        {
            keep_c.push(find_row(&kept, codes[c].value.as_str()).is_some());
            c = c + 1;
        }
        let ghost keep_cs = keep_c@;
        let kept_codes = filter_rows(codes, &keep_c);
        proof {
            let m = rows_map(old_codes);
            let ns = rows_map(kept@);
            assert(m.restrict(kept_keys(old_codes, keep_cs)) =~= codes_of(m, ns)) by {
                assert forall|k: Seq<char>|
                    kept_keys(old_codes, keep_cs).contains(k) && m.dom().contains(k) <==> m.dom().filter(
                        |c: Seq<char>| ns.contains_key(m[c]),
                    ).contains(k) by {
                    if m.dom().contains(k) {
                        let j = choose|j: int| 0 <= j < old_codes.len() && (#[trigger] old_codes[j]).key@ == k;
                        lemma_rows_map_at(old_codes, j);
                        if kept_keys(old_codes, keep_cs).contains(k) {
                            let j2 = choose|j2: int|
                                0 <= j2 < old_codes.len() && (#[trigger] old_codes[j2]).key@ == k && keep_cs[j2];
                            assert(j2 == j);
                        }
                    }
                }
            }
        }
        *self = SessionStore { sessions: kept, codes: kept_codes, clock };
    }
}

/// Under distinct keys the map has as many keys as there are rows.
pub proof fn lemma_keys_len<T: View>(es: Seq<StoredRow<T>>)
    requires
        distinct_keys(es),
    ensures
        rows_map(es).dom().len() == es.len(),
        rows_map(es).dom().finite(),
    decreases es.len(),
{
    if es.len() == 0 {
        assert(rows_map(es).dom() =~= Set::<Seq<char>>::empty());
    } else {
        let init = es.drop_last();
        let e = es.last();
        assert(distinct_keys(init)) by {
            assert forall|a: int, b: int|
                0 <= a < init.len() && 0 <= b < init.len() && a != b implies (#[trigger] init[a]).key@
                != (#[trigger] init[b]).key@ by {
                assert(init[a] == es[a] && init[b] == es[b]);
            }
        }
        lemma_keys_len(init);
        assert(!has_key(init, e.key@)) by {
            if has_key(init, e.key@) {
                let j = choose|j: int| 0 <= j < init.len() && (#[trigger] init[j]).key@ == e.key@;
                assert(es[j] == init[j]);
                assert(es[es.len() - 1] == e);
            }
        }
        lemma_rows_map_push(init, e);
        assert(init.push(e) =~= es);
    }
}

} // verus!
