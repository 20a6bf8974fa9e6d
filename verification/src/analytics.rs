//! Play statistics kept with the save: how often each stage ends a run,
//! which ships and difficulties are picked, how many stages are cleared and
//! how many sessions were played. Counting only; the floating-point play time
//! is summed by the application beside these counts.

use std::collections::HashMap;
use vstd::prelude::*;
use crate::text::str_eq;

verus! {

broadcast use vstd::std_specs::hash::group_hash_axioms;

/// The count filed under `k`, zero where nothing is.
pub open spec fn count_in<K>(m: Map<K, u32>, k: K) -> int {
    if m.contains_key(k) {
        m[k] as int
    } else {
        0
    }
}

/// `m` with the count under `k` raised by one.
pub open spec fn bumped<K>(m: Map<K, u32>, k: K) -> Map<K, u32> {
    m.insert(k, (count_in(m, k) + 1) as u32)
}

/// The map that a list of (name, count) pairs describes, a later pair for a
/// name replacing an earlier one.
pub open spec fn pairs_map(s: Seq<(String, u32)>) -> Map<Seq<char>, u32>
    decreases s.len(),
{
    if s.len() == 0 {
        Map::empty()
    } else {
        pairs_map(s.drop_last()).insert(s.last().0@, s.last().1)
    }
}

/// No name occurs twice in `s`.
pub open spec fn distinct_names(s: Seq<(String, u32)>) -> bool {
    forall|i: int, j: int| 0 <= i < j < s.len() ==> s[i].0@ != s[j].0@
}

proof fn lemma_pairs_map_dom(s: Seq<(String, u32)>, k: Seq<char>)
    ensures
        pairs_map(s).contains_key(k) <==> exists|i: int| 0 <= i < s.len() && s[i].0@ == k,
    decreases s.len(),
{
    if s.len() > 0 {
        let t = s.drop_last();
        lemma_pairs_map_dom(t, k);
        if pairs_map(s).contains_key(k) && s.last().0@ != k {
            let i = choose|i: int| 0 <= i < t.len() && t[i].0@ == k;
            assert(s[i] == t[i]);
        }
        if exists|i: int| 0 <= i < s.len() && s[i].0@ == k {
            let i = choose|i: int| 0 <= i < s.len() && s[i].0@ == k;
            if i < s.len() - 1 {
                assert(t[i] == s[i]);
            }
        }
    }
}

proof fn lemma_pairs_map_value(s: Seq<(String, u32)>, i: int)
    requires
        distinct_names(s),
        0 <= i < s.len(),
    ensures
        pairs_map(s).contains_key(s[i].0@),
        pairs_map(s)[s[i].0@] == s[i].1,
    decreases s.len(),
{
    let t = s.drop_last();
    if i < s.len() - 1 {
        assert(t[i] == s[i]);
        assert(distinct_names(t));
        lemma_pairs_map_value(t, i);
    }
}

proof fn lemma_pairs_map_update(s: Seq<(String, u32)>, i: int, v: u32)
    requires
        distinct_names(s),
        0 <= i < s.len(),
    ensures
        pairs_map(s.update(i, (s[i].0, v))) == pairs_map(s).insert(s[i].0@, v),
    decreases s.len(),
{
    let u = s.update(i, (s[i].0, v));
    let t = s.drop_last();
    if i == s.len() - 1 {
        assert(u.drop_last() =~= t);
    } else {
        assert(u.drop_last() =~= t.update(i, (t[i].0, v)));
        assert(distinct_names(t));
        lemma_pairs_map_update(t, i, v);
        assert(s.last().0@ != s[i].0@);
        assert(pairs_map(u) =~= pairs_map(s).insert(s[i].0@, v));
    }
}

/// Counts filed under names (ships, difficulty levels); no name is filed twice.
pub struct NameCounts {
    entries: Vec<(String, u32)>,
}

impl View for NameCounts {
    type V = Map<Seq<char>, u32>;

    closed spec fn view(&self) -> Map<Seq<char>, u32> {
        pairs_map(self.entries@)
    }
}

impl NameCounts {
    #[verifier::type_invariant]
    spec fn names_distinct(self) -> bool {
        distinct_names(self.entries@)
    }

    /// No counts at all.
    pub fn new() -> (r: Self)
        ensures
            r@ == Map::<Seq<char>, u32>::empty(),
    {
        NameCounts { entries: Vec::new() }
    }

    /// Where `name` is filed, if anywhere.
    fn find(&self, name: &str) -> (r: Option<usize>)
        ensures
            match r {
                Some(i) => i < self.entries@.len() && self.entries@[i as int].0@ == name@,
                None => forall|j: int|
                    0 <= j < self.entries@.len() ==> self.entries@[j].0@ != name@,
            },
    {
        let mut i: usize = 0;
        while i < self.entries.len()
            invariant
                i <= self.entries@.len(),
                forall|j: int| 0 <= j < i ==> self.entries@[j].0@ != name@,
            decreases self.entries@.len() - i,
        {
            if str_eq(self.entries[i].0.as_str(), name) {
                return Some(i);
            }
            i = i + 1;
        }
        None
    }

    /// The count filed under `name`, as a map lookup gives it.
    pub fn get(&self, name: &str) -> (r: Option<u32>)
        ensures
            r == (if self@.contains_key(name@) {
                Some(self@[name@])
            } else {
                None::<u32>
            }),
    {
        proof {
            use_type_invariant(self);
            lemma_pairs_map_dom(self.entries@, name@);
        }
        match self.find(name) {
            Some(i) => {
                proof {
                    lemma_pairs_map_value(self.entries@, i as int);
                }
                Some(self.entries[i].1)
            },
            None => None,
        }
    }

    /// Files `value` under `name`, replacing what was there.
    pub fn set(&mut self, name: &str, value: u32)
        ensures
            final(self)@ == old(self)@.insert(name@, value),
    {
        proof {
            use_type_invariant(&*self);
        }
        let found = self.find(name);
        let ghost s = self.entries@;
        let mut taken = NameCounts::new();
        std::mem::swap(&mut taken, self);
        let mut entries = taken.entries;
        assert(entries@ == s);
        match found {
            Some(i) => {
                let key = entries[i].0.clone();
                entries.set(i, (key, value));
                proof {
                    assert(entries@ =~= s.update(i as int, (s[i as int].0, value)));
                    lemma_pairs_map_update(s, i as int, value);
                }
            },
            None => {
                entries.push((name.to_owned(), value));
                proof {
                    assert(entries@.drop_last() =~= s);
                    assert(distinct_names(entries@));
                }
            },
        }
        *self = NameCounts { entries };
    }

    /// Raises the count under `name` by one, filing it at one where it was absent.
    pub fn bump(&mut self, name: &str)
        requires
            count_in(old(self)@, name@) < u32::MAX,
        ensures
            final(self)@ == bumped(old(self)@, name@),
    {
        let next: u32 = match self.get(name) {
            Some(n) => n + 1,
            None => 1,
        };
        self.set(name, next);
    }

    /// How many names are filed.
    pub fn len(&self) -> (r: usize)
        ensures
            r == self@.len(),
    {
        proof {
            use_type_invariant(self);
            self.lemma_len();
        }
        self.entries.len()
    }

    /// Whether no name is filed.
    pub fn is_empty(&self) -> (r: bool)
        ensures
            r == (self@.len() == 0),
    {
        self.len() == 0
    }

    proof fn lemma_len(&self)
        requires
            distinct_names(self.entries@),
        ensures
            pairs_map(self.entries@).len() == self.entries@.len(),
            pairs_map(self.entries@).dom().finite(),
    {
        lemma_distinct_len(self.entries@);
    }

    /// The filed (name, count) pairs, each name once.
    pub fn pairs(&self) -> (r: Vec<(String, u32)>)
        ensures
            distinct_names(r@),
            pairs_map(r@) == self@,
    {
        proof {
            use_type_invariant(self);
        }
        let mut out: Vec<(String, u32)> = Vec::new();
        let mut i: usize = 0;
        while i < self.entries.len()
            invariant
                i <= self.entries@.len(),
                out@.len() == i,
                forall|j: int| 0 <= j < i ==> out@[j].0@ == self.entries@[j].0@ && out@[j].1 == self.entries@[j].1,
            decreases self.entries@.len() - i,
        {
            let name = self.entries[i].0.clone();
            out.push((name, self.entries[i].1));
            i = i + 1;
        }
        proof {
            lemma_same_names_same_map(out@, self.entries@);
        }
        out
    }

    /// Counts filed from a list of pairs, a later pair for a name replacing
    /// an earlier one.
    pub fn from_pairs(pairs: Vec<(String, u32)>) -> (r: Self)
        ensures
            r@ == pairs_map(pairs@),
    {
        let mut counts = NameCounts::new();
        let mut i: usize = 0;
        while i < pairs.len()
            invariant
                i <= pairs@.len(),
                counts@ == pairs_map(pairs@.take(i as int)),
            decreases pairs@.len() - i,
        {
            counts.set(pairs[i].0.as_str(), pairs[i].1);
            proof {
                assert(pairs@.take(i + 1).drop_last() =~= pairs@.take(i as int));
            }
            i = i + 1;
        }
        proof {
            assert(pairs@.take(pairs@.len() as int) =~= pairs@);
        }
        counts
    }
}

proof fn lemma_distinct_len(s: Seq<(String, u32)>)
    requires
        distinct_names(s),
    ensures
        pairs_map(s).dom().finite(),
        pairs_map(s).len() == s.len(),
    decreases s.len(),
{
    if s.len() > 0 {
        let t = s.drop_last();
        assert(distinct_names(t));
        lemma_distinct_len(t);
        lemma_pairs_map_dom(t, s.last().0@);
        if pairs_map(t).contains_key(s.last().0@) {
            let i = choose|i: int| 0 <= i < t.len() && t[i].0@ == s.last().0@;
            assert(s[i] == t[i]);
        }
    }
}

proof fn lemma_same_names_same_map(a: Seq<(String, u32)>, b: Seq<(String, u32)>)
    requires
        a.len() == b.len(),
        forall|j: int| 0 <= j < a.len() ==> a[j].0@ == b[j].0@ && a[j].1 == b[j].1,
    ensures
        pairs_map(a) == pairs_map(b),
        distinct_names(b) ==> distinct_names(a),
    decreases a.len(),
{
    if a.len() > 0 {
        lemma_same_names_same_map(a.drop_last(), b.drop_last());
    }
}

/// Raises the count under `stage` by one.
fn bump_stage(m: &mut HashMap<u32, u32>, stage: u32)
    requires
        count_in(old(m)@, stage) < u32::MAX,
    ensures
        final(m)@ == bumped(old(m)@, stage),
{
    let next: u32 = match m.get(&stage) {
        Some(n) => *n + 1,
        None => 1,
    };
    m.insert(stage, next);
}

/// What one play session has gathered so far: the ship, faction and
/// difficulty picked, the stage played, and the kills and bosses counted.
pub struct SessionCounts {
    pub ship_name: String,
    pub faction: String,
    pub difficulty: String,
    pub stage: u32,
    pub kills: u32,
    pub bosses_defeated: u32,
}

impl SessionCounts {
    /// A session with nothing picked and nothing counted.
    pub fn new() -> (r: Self)
        ensures
            r.ship_name@.len() == 0,
            r.faction@.len() == 0,
            r.difficulty@.len() == 0,
            r.stage == 0,
            r.kills == 0,
            r.bosses_defeated == 0,
    {
        SessionCounts {
            ship_name: String::new(),
            faction: String::new(),
            difficulty: String::new(),
            stage: 0,
            kills: 0,
            bosses_defeated: 0,
        }
    }

    /// Play begins: the kill and boss counts start again from zero.
    pub fn start(&mut self)
        ensures
            final(self).kills == 0,
            final(self).bosses_defeated == 0,
            final(self).ship_name == old(self).ship_name,
            final(self).faction == old(self).faction,
            final(self).difficulty == old(self).difficulty,
            final(self).stage == old(self).stage,
    {
        self.kills = 0;
        self.bosses_defeated = 0;
    }

    /// A mission starts with the given picks.
    pub fn mission_started(&mut self, ship: String, faction: String, difficulty: String, stage: u32)
        ensures
            final(self).ship_name == ship,
            final(self).faction == faction,
            final(self).difficulty == difficulty,
            final(self).stage == stage,
            final(self).kills == old(self).kills,
            final(self).bosses_defeated == old(self).bosses_defeated,
    {
        self.ship_name = ship;
        self.faction = faction;
        self.difficulty = difficulty;
        self.stage = stage;
    }

    /// An enemy fell.
    pub fn enemy_killed(&mut self)
        requires
            old(self).kills < u32::MAX,
        ensures
            final(self).kills == old(self).kills + 1,
            final(self).bosses_defeated == old(self).bosses_defeated,
            final(self).ship_name == old(self).ship_name,
            final(self).faction == old(self).faction,
            final(self).difficulty == old(self).difficulty,
            final(self).stage == old(self).stage,
    {
        self.kills = self.kills + 1;
    }

    /// A boss fell.
    pub fn boss_defeated(&mut self)
        requires
            old(self).bosses_defeated < u32::MAX,
        ensures
            final(self).bosses_defeated == old(self).bosses_defeated + 1,
            final(self).kills == old(self).kills,
            final(self).ship_name == old(self).ship_name,
            final(self).faction == old(self).faction,
            final(self).difficulty == old(self).difficulty,
            final(self).stage == old(self).stage,
    {
        self.bosses_defeated = self.bosses_defeated + 1;
    }
}

/// The counts kept across sessions.
pub struct AnalyticsCounts {
    pub deaths_by_stage: HashMap<u32, u32>,
    pub ship_picks: NameCounts,
    pub difficulty_picks: NameCounts,
    pub stages_completed: HashMap<u32, u32>,
    pub total_sessions: u32,
}

/// Whether a session that ends with these picks can be counted without a
/// counter passing `u32::MAX`.
pub open spec fn session_countable(a: AnalyticsCounts, ship: Seq<char>, difficulty: Seq<char>) -> bool {
    &&& a.total_sessions < u32::MAX
    &&& ship.len() > 0 ==> count_in(a.ship_picks@, ship) < u32::MAX
    &&& difficulty.len() > 0 ==> count_in(a.difficulty_picks@, difficulty) < u32::MAX
}

/// The pick counts after a session that ends with these picks: a pick that
/// is empty is not counted.
pub open spec fn picks_after(m: Map<Seq<char>, u32>, pick: Seq<char>) -> Map<Seq<char>, u32> {
    if pick.len() > 0 {
        bumped(m, pick)
    } else {
        m
    }
}

/// Counting one more under a key raises that key's count by one and leaves
/// every other key's count as it was.
pub proof fn law_bump_counts_one<K>(m: Map<K, u32>, k: K, other: K)
    requires
        count_in(m, k) < u32::MAX,
        other != k,
    ensures
        count_in(bumped(m, k), k) == count_in(m, k) + 1,
        count_in(bumped(m, k), other) == count_in(m, other),
{
}

/// Sessions accumulate: two finished sessions with the same non-empty pick
/// count that pick twice more than before.
pub proof fn law_sessions_accumulate(m: Map<Seq<char>, u32>, pick: Seq<char>)
    requires
        pick.len() > 0,
        count_in(m, pick) + 2 <= u32::MAX,
    ensures
        count_in(picks_after(picks_after(m, pick), pick), pick) == count_in(m, pick) + 2,
{
}

/// An empty pick is never counted.
pub proof fn law_empty_pick_not_counted(m: Map<Seq<char>, u32>)
    ensures
        picks_after(m, Seq::<char>::empty()) == m,
{
}

impl AnalyticsCounts {
    /// No sessions recorded.
    pub fn new() -> (r: Self)
        ensures
            r.deaths_by_stage@ == Map::<u32, u32>::empty(),
            r.ship_picks@ == Map::<Seq<char>, u32>::empty(),
            r.difficulty_picks@ == Map::<Seq<char>, u32>::empty(),
            r.stages_completed@ == Map::<u32, u32>::empty(),
            r.total_sessions == 0,
    {
        AnalyticsCounts {
            deaths_by_stage: HashMap::new(),
            ship_picks: NameCounts::new(),
            difficulty_picks: NameCounts::new(),
            stages_completed: HashMap::new(),
            total_sessions: 0,
        }
    }

    /// Counts one finished session: its ship and difficulty where they are
    /// not empty, and the session itself.
    pub fn record_session(&mut self, session: &SessionCounts)
        requires
            session_countable(*old(self), session.ship_name@, session.difficulty@),
        ensures
            final(self).ship_picks@ == picks_after(old(self).ship_picks@, session.ship_name@),
            final(self).difficulty_picks@ == picks_after(
                old(self).difficulty_picks@,
                session.difficulty@,
            ),
            final(self).total_sessions == old(self).total_sessions + 1,
            final(self).deaths_by_stage@ == old(self).deaths_by_stage@,
            final(self).stages_completed@ == old(self).stages_completed@,
    {
        if !session.ship_name.as_str().is_empty() {
            self.ship_picks.bump(session.ship_name.as_str());
        }
        if !session.difficulty.as_str().is_empty() {
            self.difficulty_picks.bump(session.difficulty.as_str());
        }
        self.total_sessions = self.total_sessions + 1;
    }

    /// The session ended in the player's death: the stage it was played on
    /// counts one more death, and the session is counted.
    pub fn end_session_death(&mut self, session: &SessionCounts)
        requires
            session_countable(*old(self), session.ship_name@, session.difficulty@),
            count_in(old(self).deaths_by_stage@, session.stage) < u32::MAX,
        ensures
            final(self).deaths_by_stage@ == bumped(old(self).deaths_by_stage@, session.stage),
            final(self).ship_picks@ == picks_after(old(self).ship_picks@, session.ship_name@),
            final(self).difficulty_picks@ == picks_after(
                old(self).difficulty_picks@,
                session.difficulty@,
            ),
            final(self).total_sessions == old(self).total_sessions + 1,
            final(self).stages_completed@ == old(self).stages_completed@,
    {
        bump_stage(&mut self.deaths_by_stage, session.stage);
        self.record_session(session);
    }

    /// The session ended in victory: the session is counted, no death is.
    pub fn end_session_victory(&mut self, session: &SessionCounts)
        requires
            session_countable(*old(self), session.ship_name@, session.difficulty@),
        ensures
            final(self).ship_picks@ == picks_after(old(self).ship_picks@, session.ship_name@),
            final(self).difficulty_picks@ == picks_after(
                old(self).difficulty_picks@,
                session.difficulty@,
            ),
            final(self).total_sessions == old(self).total_sessions + 1,
            final(self).deaths_by_stage@ == old(self).deaths_by_stage@,
            final(self).stages_completed@ == old(self).stages_completed@,
    {
        self.record_session(session);
    }

    /// The session's stage was cleared: it counts one more completion.
    pub fn record_stage_complete(&mut self, session: &SessionCounts)
        requires
            count_in(old(self).stages_completed@, session.stage) < u32::MAX,
        ensures
            final(self).stages_completed@ == bumped(old(self).stages_completed@, session.stage),
            final(self).deaths_by_stage@ == old(self).deaths_by_stage@,
            final(self).ship_picks@ == old(self).ship_picks@,
            final(self).difficulty_picks@ == old(self).difficulty_picks@,
            final(self).total_sessions == old(self).total_sessions,
    {
        bump_stage(&mut self.stages_completed, session.stage);
    }
}

} // verus!
