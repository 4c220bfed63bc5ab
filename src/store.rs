use vstd::prelude::*;

verus! {

/// An entity is stale at `cutoff` when its last heartbeat is no later than it.
pub open spec fn is_stale(m: Map<Seq<char>, int>, entity: Seq<char>, cutoff: int) -> bool {
    m.contains_key(entity) && m[entity] <= cutoff
}

/// `batch` lists every entity stale at `cutoff` exactly once, in ascending
/// order of last heartbeat.
pub open spec fn is_stale_batch(m: Map<Seq<char>, int>, cutoff: int, batch: Seq<Seq<char>>) -> bool {
    &&& forall|e: Seq<char>| batch.contains(e) <==> is_stale(m, e, cutoff)
    &&& batch.no_duplicates()
    &&& forall|i: int, j: int| 0 <= i < j < batch.len() ==> m[batch[i]] <= m[batch[j]]
}

/// What is left of `m` once every entry with a score at or below `cutoff` is gone.
pub open spec fn evicted(m: Map<Seq<char>, int>, cutoff: int) -> Map<Seq<char>, int> {
    Map::new(|e: Seq<char>| m.contains_key(e) && m[e] > cutoff, |e: Seq<char>| m[e])
}

/// After a heartbeat for `entity` at `t`, any stale batch taken at `cutoff`
/// holds `entity` exactly when `t <= cutoff`: it is left out for every earlier
/// cutoff and taken in for every later one.
pub proof fn heartbeat_sets_staleness(
    m: Map<Seq<char>, int>,
    entity: Seq<char>,
    t: int,
    cutoff: int,
    batch: Seq<Seq<char>>,
)
    requires
        is_stale_batch(m.insert(entity, t), cutoff, batch),
    ensures
        batch.contains(entity) <==> t <= cutoff,
{
    assert(batch.contains(entity) <==> is_stale(m.insert(entity, t), entity, cutoff));
}

/// Recording the same heartbeat twice leaves the records as recording it once.
pub proof fn heartbeat_is_idempotent(m: Map<Seq<char>, int>, entity: Seq<char>, t: int)
    ensures
        m.insert(entity, t).insert(entity, t) == m.insert(entity, t),
{
    assert(m.insert(entity, t).insert(entity, t) =~= m.insert(entity, t));
}

/// Eviction at `cutoff` removes exactly the records at or below it and keeps
/// every other record as it was.
pub proof fn eviction_is_exact(m: Map<Seq<char>, int>, cutoff: int)
    ensures
        forall|e: Seq<char>|
            #[trigger] evicted(m, cutoff).contains_key(e) <==> (m.contains_key(e) && m[e] > cutoff),
        forall|e: Seq<char>| #[trigger]
            evicted(m, cutoff).contains_key(e) ==> evicted(m, cutoff)[e] == m[e],
        forall|e: Seq<char>| m.contains_key(e) && m[e] <= cutoff ==> !#[trigger] evicted(
            m,
            cutoff,
        ).contains_key(e),
{
}

/// A heartbeat newer than the cutoff that lands between a scan's query and its
/// eviction survives the eviction with its new timestamp.
pub proof fn newer_heartbeat_survives_eviction(
    m: Map<Seq<char>, int>,
    entity: Seq<char>,
    t: int,
    cutoff: int,
)
    requires
        t > cutoff,
    ensures
        evicted(m.insert(entity, t), cutoff).contains_key(entity),
        evicted(m.insert(entity, t), cutoff)[entity] == t,
{
}

pub open spec fn names(v: Seq<String>) -> Seq<Seq<char>> {
    v.map_values(|s: String| s@)
}

/// The last heartbeat of each entity, kept in ascending order of timestamp:
/// one record per entity, a new heartbeat replacing the old one.
pub struct HeartbeatStore {
    members: Vec<String>,
    scores: Vec<i64>,
}

impl View for HeartbeatStore {
    type V = Map<Seq<char>, int>;

    closed spec fn view(&self) -> Map<Seq<char>, int> {
        Map::new(
            |e: Seq<char>| exists|i: int| 0 <= i < self.members.len() && self.members@[i]@ == e,
            |e: Seq<char>|
                self.scores@[choose|i: int|
                    0 <= i < self.members.len() && self.members@[i]@ == e] as int,
        )
    }
}

impl HeartbeatStore {
    /// One record per entity, scores in ascending order.
    pub closed spec fn wf(&self) -> bool {
        &&& self.members.len() == self.scores.len()
        &&& forall|i: int, j: int|
            0 <= i < j < self.members.len() ==> self.members@[i]@ != self.members@[j]@
        &&& forall|i: int, j: int|
            0 <= i <= j < self.scores.len() ==> self.scores@[i] <= self.scores@[j]
    }

    proof fn lemma_entry(&self, i: int)
        requires
            self.wf(),
            0 <= i < self.members.len(),
        ensures
            self@.contains_key(self.members@[i]@),
            self@[self.members@[i]@] == self.scores@[i] as int,
    {
        let e = self.members@[i]@;
        assert(self@.contains_key(e));
        let j = choose|j: int| 0 <= j < self.members.len() && self.members@[j]@ == e;
        assert(j == i);
    }

    proof fn lemma_key(&self, e: Seq<char>) -> (i: int)
        requires
            self.wf(),
            self@.contains_key(e),
        ensures
            0 <= i < self.members.len(),
            self.members@[i]@ == e,
            self@[e] == self.scores@[i] as int,
    {
        let i = choose|i: int| 0 <= i < self.members.len() && self.members@[i]@ == e;
        self.lemma_entry(i);
        i
    }

    /// An empty store.
    pub fn new() -> (r: HeartbeatStore)
        ensures
            r.wf(),
            r@ == Map::<Seq<char>, int>::empty(),
    {
        let r = HeartbeatStore { members: Vec::new(), scores: Vec::new() };
        assert(r@ =~= Map::<Seq<char>, int>::empty());
        r
    }

    /// The number of entities on record.
    pub fn len(&self) -> (r: usize)
        requires
            self.wf(),
        ensures
            r == self@.len(),
    {
        proof {
            self.lemma_len();
        }
        self.members.len()
    }

    proof fn lemma_len(&self)
        requires
            self.wf(),
        ensures
            self@.len() == self.members.len(),
            self@.dom() == names(self.members@).to_set(),
    {
        let ns = names(self.members@);
        assert forall|e: Seq<char>| self@.contains_key(e) <==> ns.contains(e) by {
            if self@.contains_key(e) {
                let i = self.lemma_key(e);
                assert(ns[i] == e);
            }
            if ns.contains(e) {
                let i = choose|i: int| 0 <= i < ns.len() && ns[i] == e;
                self.lemma_entry(i);
            }
        }
        assert(self@.dom() =~= ns.to_set());
        assert(ns.no_duplicates()) by {
            assert forall|i: int, j: int| 0 <= i < ns.len() && 0 <= j < ns.len() && i != j
                implies ns[i] != ns[j] by {
                if i < j {
                } else {
                }
            }
        }
        ns.unique_seq_to_set();
    }

    /// The last heartbeat of `entity`, if it has one on record.
    pub fn score_of(&self, entity: &String) -> (r: Option<i64>)
        requires
            self.wf(),
        ensures
            r == (if self@.contains_key(entity@) {
                Some(self@[entity@] as i64)
            } else {
                None::<i64>
            }),
            r matches Some(t) ==> self@[entity@] == t as int,
    {
        let mut i: usize = 0;
        while i < self.members.len()
            invariant
                self.wf(),
                i <= self.members.len(),
                forall|k: int| 0 <= k < i ==> self.members@[k]@ != entity@,
            decreases self.members.len() - i,
        {
            if self.members[i] == *entity {
                proof {
                    self.lemma_entry(i as int);
                }
                return Some(self.scores[i]);
            }
            i = i + 1;
        }
        proof {
            if self@.contains_key(entity@) {
                let k = self.lemma_key(entity@);
            }
        }
        None
    }

    /// Records that `entity` was last seen at `timestamp`, replacing whatever
    /// was on record for it.
    pub fn record_heartbeat(&mut self, entity: String, timestamp: i64)
        requires
            old(self).wf(),
        ensures
            final(self).wf(),
            final(self)@ == old(self)@.insert(entity@, timestamp as int),
    {
        let ghost old_view = self@;
        let mut i: usize = 0;
        let mut found = false;
        while i < self.members.len() && !found
            invariant
                self.wf(),
                self@ == old_view,
                i <= self.members.len(),
                found ==> i < self.members.len() && self.members@[i as int]@ == entity@,
                !found ==> forall|k: int| 0 <= k < i ==> self.members@[k]@ != entity@,
            decreases self.members.len() - i, if found { 0int } else { 1int },
        {
            if self.members[i] == entity {
                found = true;
            } else {
                i = i + 1;
            }
        }
        if found {
            self.remove_entry(i);
        } else {
            proof {
                if self@.contains_key(entity@) {
                    let k = self.lemma_key(entity@);
                }
            }
        }
        assert(self@ =~= old_view.remove(entity@));
        self.insert_entry(entity, timestamp);
        assert(self@ =~= old_view.insert(entity@, timestamp as int));
    }

    /// Every entity whose last heartbeat is at or before `cutoff`, each once,
    /// in ascending order of last heartbeat.
    pub fn query_stale(&self, cutoff: i64) -> (r: Vec<String>)
        requires
            self.wf(),
        ensures
            is_stale_batch(self@, cutoff as int, names(r@)),
    {
        let mut r: Vec<String> = Vec::new();
        let mut i: usize = 0;
        while i < self.members.len() && self.scores[i] <= cutoff
            invariant
                self.wf(),
                i <= self.members.len(),
                r@.len() == i,
                forall|k: int| 0 <= k < i ==> r@[k]@ == self.members@[k]@,
                forall|k: int| 0 <= k < i ==> self.scores@[k] <= cutoff,
            decreases self.members.len() - i,
        {
            r.push(self.members[i].clone());
            i = i + 1;
        }
        proof {
            let n = i as int;
            let b = names(r@);
            assert forall|k: int| n <= k < self.members.len() implies self.scores@[k] > cutoff by {
                assert(self.scores@[n] <= self.scores@[k]);
            }
            assert forall|e: Seq<char>| b.contains(e) <==> is_stale(self@, e, cutoff as int) by {
                if b.contains(e) {
                    let k = choose|k: int| 0 <= k < b.len() && b[k] == e;
                    self.lemma_entry(k);
                }
                if is_stale(self@, e, cutoff as int) {
                    let k = self.lemma_key(e);
                    assert(b[k] == e);
                }
            }
            assert forall|x: int, y: int| 0 <= x < b.len() && 0 <= y < b.len() && x != y implies b[x]
                != b[y] by {
                if x < y {
                } else {
                }
            }
            assert forall|x: int, y: int| 0 <= x < y < b.len() implies self@[b[x]] <= self@[b[y]] by {
                self.lemma_entry(x);
                self.lemma_entry(y);
            }
        }
        r
    }

    /// Removes every entity whose last heartbeat is at or before `cutoff`;
    /// the others keep their records.
    pub fn evict_stale(&mut self, cutoff: i64)
        requires
            old(self).wf(),
        ensures
            final(self).wf(),
            final(self)@ == evicted(old(self)@, cutoff as int),
    {
        let mut n: usize = 0;
        while n < self.scores.len() && self.scores[n] <= cutoff
            invariant
                self.wf(),
                n <= self.scores.len(),
                forall|k: int| 0 <= k < n ==> self.scores@[k] <= cutoff,
            decreases self.scores.len() - n,
        {
            n = n + 1;
        }
        let ghost before = *self;
        let kept_members = self.members.split_off(n);
        let kept_scores = self.scores.split_off(n);
        self.members = kept_members;
        self.scores = kept_scores;
        proof {
            let nn = n as int;
            assert forall|k: int| nn <= k < before.members.len() implies before.scores@[k] > cutoff by {
                assert(before.scores@[nn] <= before.scores@[k]);
            }
            assert forall|a: int, b: int| 0 <= a < b < self.members.len() implies
                self.members@[a]@ != self.members@[b]@ by {
                assert(self.members@[a] == before.members@[a + nn]);
                assert(self.members@[b] == before.members@[b + nn]);
            }
            assert forall|a: int, b: int| 0 <= a <= b < self.scores.len() implies
                self.scores@[a] <= self.scores@[b] by {
                assert(self.scores@[a] == before.scores@[a + nn]);
                assert(self.scores@[b] == before.scores@[b + nn]);
            }
            let target = evicted(before@, cutoff as int);
            assert forall|e: Seq<char>| #[trigger] self@.contains_key(e) <==> target.contains_key(e) by {
                if self@.contains_key(e) {
                    let k = self.lemma_key(e);
                    assert(self.members@[k] == before.members@[k + nn]);
                    before.lemma_entry(k + nn);
                }
                if target.contains_key(e) {
                    let k0 = before.lemma_key(e);
                    assert(self.members@[k0 - nn] == before.members@[k0]);
                    self.lemma_entry(k0 - nn);
                }
            }
            assert forall|e: Seq<char>| #[trigger] self@.contains_key(e) implies self@[e] == target[e] by {
                let k = self.lemma_key(e);
                assert(self.members@[k] == before.members@[k + nn]);
                assert(self.scores@[k] == before.scores@[k + nn]);
                before.lemma_entry(k + nn);
            }
            assert(self@ =~= target);
        }
    }

    fn remove_entry(&mut self, i: usize)
        requires
            old(self).wf(),
            i < old(self).members.len(),
        ensures
            final(self).wf(),
            final(self)@ == old(self)@.remove(old(self).members@[i as int]@),
    {
        let ghost before = *self;
        let ghost gone = self.members@[i as int]@;
        self.members.remove(i);
        self.scores.remove(i);
        proof {
            let ii = i as int;
            assert forall|a: int, b: int| 0 <= a < b < self.members.len() implies
                self.members@[a]@ != self.members@[b]@ by {
                let a0 = if a < ii { a } else { a + 1 };
                let b0 = if b < ii { b } else { b + 1 };
                assert(self.members@[a] == before.members@[a0]);
                assert(self.members@[b] == before.members@[b0]);
            }
            assert forall|a: int, b: int| 0 <= a <= b < self.scores.len() implies
                self.scores@[a] <= self.scores@[b] by {
                let a0 = if a < ii { a } else { a + 1 };
                let b0 = if b < ii { b } else { b + 1 };
                assert(self.scores@[a] == before.scores@[a0]);
                assert(self.scores@[b] == before.scores@[b0]);
            }
            let target = before@.remove(gone);
            assert forall|e: Seq<char>| #[trigger] self@.contains_key(e) <==> target.contains_key(e) by {
                if self@.contains_key(e) {
                    let k = self.lemma_key(e);
                    let k0 = if k < ii { k } else { k + 1 };
                    assert(self.members@[k] == before.members@[k0]);
                    before.lemma_entry(k0);
                }
                if target.contains_key(e) {
                    let k0 = before.lemma_key(e);
                    assert(k0 != ii);
                    let k = if k0 < ii { k0 } else { k0 - 1 };
                    assert(self.members@[k] == before.members@[k0]);
                    self.lemma_entry(k);
                }
            }
            assert forall|e: Seq<char>| #[trigger] self@.contains_key(e) implies self@[e] == target[e] by {
                let k = self.lemma_key(e);
                let k0 = if k < ii { k } else { k + 1 };
                assert(self.members@[k] == before.members@[k0]);
                assert(self.scores@[k] == before.scores@[k0]);
                before.lemma_entry(k0);
            }
            assert(self@ =~= target);
        }
    }

    fn insert_entry(&mut self, entity: String, timestamp: i64)
        requires
            old(self).wf(),
            !old(self)@.contains_key(entity@),
        ensures
            final(self).wf(),
            final(self)@ == old(self)@.insert(entity@, timestamp as int),
    {
        let mut j: usize = 0;
        while j < self.scores.len() && self.scores[j] <= timestamp
            invariant
                self.wf(),
                j <= self.scores.len(),
                forall|k: int| 0 <= k < j ==> self.scores@[k] <= timestamp,
            decreases self.scores.len() - j,
        {
            j = j + 1;
        }
        let ghost before = *self;
        let ghost name = entity@;
        self.members.insert(j, entity);
        self.scores.insert(j, timestamp);
        proof {
            let jj = j as int;
            assert(self.members@[jj]@ == name);
            assert forall|a: int, b: int| 0 <= a < b < self.members.len() implies
                self.members@[a]@ != self.members@[b]@ by {
                if a != jj && b != jj {
                    let a0 = if a < jj { a } else { a - 1 };
                    let b0 = if b < jj { b } else { b - 1 };
                    assert(self.members@[a] == before.members@[a0]);
                    assert(self.members@[b] == before.members@[b0]);
                } else if a == jj {
                    assert(self.members@[b] == before.members@[b - 1]);
                    before.lemma_entry(b - 1);
                } else {
                    assert(self.members@[a] == before.members@[a]);
                    before.lemma_entry(a);
                }
            }
            assert forall|a: int, b: int| 0 <= a <= b < self.scores.len() implies
                self.scores@[a] <= self.scores@[b] by {
                if a != jj && b != jj {
                    let a0 = if a < jj { a } else { a - 1 };
                    let b0 = if b < jj { b } else { b - 1 };
                    assert(self.scores@[a] == before.scores@[a0]);
                    assert(self.scores@[b] == before.scores@[b0]);
                } else if a == jj && b != jj {
                    assert(self.scores@[b] == before.scores@[b - 1]);
                } else if a != jj {
                    assert(self.scores@[a] == before.scores@[a]);
                }
            }
            let target = before@.insert(name, timestamp as int);
            assert forall|e: Seq<char>| #[trigger] self@.contains_key(e) <==> target.contains_key(e) by {
                if self@.contains_key(e) && e != name {
                    let k = self.lemma_key(e);
                    let k0 = if k < jj { k } else { k - 1 };
                    assert(self.members@[k] == before.members@[k0]);
                    before.lemma_entry(k0);
                }
                if e == name {
                    self.lemma_entry(jj);
                }
                if before@.contains_key(e) {
                    let k0 = before.lemma_key(e);
                    let k = if k0 < jj { k0 } else { k0 + 1 };
                    assert(self.members@[k] == before.members@[k0]);
                    self.lemma_entry(k);
                }
            }
            assert forall|e: Seq<char>| #[trigger] self@.contains_key(e) implies self@[e] == target[e] by {
                let k = self.lemma_key(e);
                if k == jj {
                } else {
                    let k0 = if k < jj { k } else { k - 1 };
                    assert(self.members@[k] == before.members@[k0]);
                    assert(self.scores@[k] == before.scores@[k0]);
                    before.lemma_entry(k0);
                }
            }
            assert(self@ =~= target);
        }
    }
}

} // verus!
