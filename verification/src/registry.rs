//! A string-keyed map that remembers insertion order and forgets its oldest
//! insertions once it holds more than its capacity. The host keeps its
//! session bindings, its retry cache and its preview claims in such maps.
use vstd::prelude::*;
use crate::strings::str_eq;
use crate::host::Binding;
use crate::ids::RevisionId;

verus! {

/// The map that a sequence of unique-keyed entries stands for.
pub open spec fn as_map<V>(s: Seq<(Seq<char>, V)>) -> Map<Seq<char>, V>
    decreases s.len(),
{
    if s.len() == 0 {
        Map::empty()
    } else {
        as_map(s.drop_last()).insert(s.last().0, s.last().1)
    }
}

/// No key occurs twice among the entries.
pub open spec fn keys_unique<V>(s: Seq<(Seq<char>, V)>) -> bool {
    forall|i: int, j: int| 0 <= i < j < s.len() ==> s[i].0 != s[j].0
}

/// Drops the oldest keys, one at a time and each together with its entry,
/// until no more than `cap` remain in the insertion order.
pub open spec fn evict<V>(m: Map<Seq<char>, V>, order: Seq<Seq<char>>, cap: nat) -> (Map<Seq<char>, V>, Seq<Seq<char>>)
    decreases order.len(),
{
    if order.len() <= cap {
        (m, order)
    } else {
        evict(m.remove(order[0]), order.drop_first(), cap)
    }
}

proof fn lemma_as_map_finite<V>(s: Seq<(Seq<char>, V)>)
    ensures
        as_map(s).dom().finite(),
    decreases s.len(),
{
    if s.len() > 0 {
        lemma_as_map_finite(s.drop_last());
    }
}

proof fn lemma_as_map_has<V>(s: Seq<(Seq<char>, V)>, i: int)
    requires
        keys_unique(s),
        0 <= i < s.len(),
    ensures
        as_map(s).dom().contains(s[i].0),
        as_map(s)[s[i].0] == s[i].1,
    decreases s.len(),
{
    if i < s.len() - 1 {
        lemma_as_map_has(s.drop_last(), i);
        assert(s[i].0 != s.last().0);
    }
}

proof fn lemma_as_map_lacks<V>(s: Seq<(Seq<char>, V)>, k: Seq<char>)
    requires
        forall|i: int| 0 <= i < s.len() ==> s[i].0 != k,
    ensures
        !as_map(s).dom().contains(k),
    decreases s.len(),
{
    if s.len() > 0 {
        lemma_as_map_lacks(s.drop_last(), k);
    }
}

proof fn lemma_as_map_update<V>(s: Seq<(Seq<char>, V)>, i: int, v: V)
    requires
        keys_unique(s),
        0 <= i < s.len(),
    ensures
        as_map(s.update(i, (s[i].0, v))) =~= as_map(s).insert(s[i].0, v),
    decreases s.len(),
{
    let t = s.update(i, (s[i].0, v));
    if i == s.len() - 1 {
        assert(t.drop_last() =~= s.drop_last());
    } else {
        assert(t.drop_last() =~= s.drop_last().update(i, (s[i].0, v)));
        lemma_as_map_update(s.drop_last(), i, v);
        assert(s[i].0 != s.last().0);
    }
}

proof fn lemma_as_map_remove<V>(s: Seq<(Seq<char>, V)>, i: int)
    requires
        keys_unique(s),
        0 <= i < s.len(),
    ensures
        as_map(s.remove(i)) =~= as_map(s).remove(s[i].0),
    decreases s.len(),
{
    let t = s.remove(i);
    if i == s.len() - 1 {
        assert(t =~= s.drop_last());
        lemma_as_map_lacks(s.drop_last(), s[i].0);
    } else {
        assert(t.drop_last() =~= s.drop_last().remove(i));
        assert(t.last() == s.last());
        lemma_as_map_remove(s.drop_last(), i);
        assert(s[i].0 != s.last().0);
    }
}

proof fn lemma_as_map_len<V>(s: Seq<(Seq<char>, V)>)
    requires
        keys_unique(s),
    ensures
        as_map(s).len() == s.len(),
    decreases s.len(),
{
    if s.len() > 0 {
        lemma_as_map_len(s.drop_last());
        lemma_as_map_finite(s.drop_last());
        lemma_as_map_lacks(s.drop_last(), s.last().0);
    }
}

/// A string-keyed map with an insertion order and a capacity.
pub struct BoundedMap<V> {
    entries: Vec<(String, V)>,
    order: Vec<String>,
    capacity: usize,
}

impl<V> BoundedMap<V> {
    /// The entries with their keys taken as character sequences.
    pub closed spec fn model(&self) -> Seq<(Seq<char>, V)> {
        self.entries@.map_values(|e: (String, V)| (e.0@, e.1))
    }

    /// What the map holds.
    pub open spec fn map(&self) -> Map<Seq<char>, V> {
        as_map(self.model())
    }

    /// The keys in the order they were inserted, oldest first; a key inserted
    /// again while still listed is listed twice.
    pub closed spec fn order(&self) -> Seq<Seq<char>> {
        self.order@.map_values(|k: String| k@)
    }

    pub closed spec fn capacity(&self) -> nat {
        self.capacity as nat
    }

    /// Every held key is listed in the insertion order.
    pub closed spec fn inv(&self) -> bool {
        &&& keys_unique(self.model())
        &&& forall|k: Seq<char>| self.map().dom().contains(k) ==> self.order().contains(k)
    }

    /// Well-formed: the invariant holds and no more keys are listed than the capacity.
    pub closed spec fn wf(&self) -> bool {
        self.inv() && self.order().len() <= self.capacity()
    }

    pub fn new(capacity: usize) -> (r: Self)
        ensures
            r.wf(),
            r.capacity() == capacity,
            r.map() == Map::<Seq<char>, V>::empty(),
            r.order() == Seq::<Seq<char>>::empty(),
    {
        let r = BoundedMap { entries: Vec::new(), order: Vec::new(), capacity };
        assert(r.model() =~= Seq::empty());
        assert(r.order() =~= Seq::empty());
        r
    }

    /// The number of keys held.
    pub fn len(&self) -> (r: usize)
        requires
            self.wf(),
        ensures
            r == self.map().len(),
    {
        proof {
            lemma_as_map_len(self.model());
        }
        self.entries.len()
    }

    /// Finds the index of the entry with the given key.
    fn position(&self, key: &str) -> (r: Option<usize>)
        ensures
            match r {
                Some(i) => i < self.model().len() && self.model()[i as int].0 == key@,
                None => forall|i: int| 0 <= i < self.model().len() ==> self.model()[i].0 != key@,
            },
    {
        let mut i: usize = 0;
        while i < self.entries.len()
            invariant
                0 <= i <= self.entries@.len(),
                self.model().len() == self.entries@.len(),
                forall|j: int| 0 <= j < i ==> self.model()[j].0 != key@,
            decreases self.entries@.len() - i,
        {
            if str_eq(self.entries[i].0.as_str(), key) {
                return Some(i);
            }
            i += 1;
        }
        None
    }

    /// The value held under `key`.
    pub fn get(&self, key: &str) -> (r: Option<&V>)
        requires
            self.wf(),
        ensures
            match r {
                Some(v) => self.map().dom().contains(key@) && *v == self.map()[key@],
                None => !self.map().dom().contains(key@),
            },
    {
        match self.position(key) {
            Some(i) => {
                proof {
                    lemma_as_map_has(self.model(), i as int);
                }
                Some(&self.entries[i].1)
            },
            None => {
                proof {
                    lemma_as_map_lacks(self.model(), key@);
                }
                None
            },
        }
    }

    /// Removes the entry held under `key`, if any; the insertion order is unchanged.
    fn remove_entry(&mut self, key: &str)
        requires
            keys_unique(old(self).model()),
        ensures
            keys_unique(final(self).model()),
            final(self).map() =~= old(self).map().remove(key@),
            final(self).order == old(self).order,
            final(self).capacity == old(self).capacity,
    {
        match self.position(key) {
            Some(i) => {
                proof {
                    lemma_as_map_remove(self.model(), i as int);
                }
                let ghost before = self.model();
                self.entries.remove(i);
                assert(self.model() =~= before.remove(i as int));
            },
            None => {
                proof {
                    lemma_as_map_lacks(self.model(), key@);
                }
            },
        }
    }

    /// Holds `value` under `key` (replacing what was held there), lists the key
    /// as the newest insertion, then forgets the oldest listed keys, each with
    /// its entry, until no more than the capacity are listed.
    pub fn insert(&mut self, key: String, value: V)
        requires
            old(self).wf(),
        ensures
            final(self).wf(),
            final(self).capacity() == old(self).capacity(),
            (final(self).map(), final(self).order()) == evict(
                old(self).map().insert(key@, value),
                old(self).order().push(key@),
                old(self).capacity(),
            ),
    {
        let ghost target = evict(self.map().insert(key@, value), self.order().push(key@), self.capacity());
        let ghost old_order = self.order();
        match self.position(key.as_str()) {
            Some(i) => {
                proof {
                    lemma_as_map_update(self.model(), i as int, value);
                }
                let ghost before = self.model();
                self.entries.set(i, (key.clone(), value));
                assert(self.model() =~= before.update(i as int, (before[i as int].0, value)));
                assert(self.map() == old(self).map().insert(key@, value));
                assert forall|a: int, b: int| 0 <= a < b < self.model().len() implies #[trigger] self.model()[a].0 != #[trigger] self.model()[b].0 by {
                    assert(before[a].0 != before[b].0);
                }
            },
            None => {
                let ghost before = self.model();
                self.entries.push((key.clone(), value));
                assert(self.model() =~= before.push((key@, value)));
                assert(self.model().drop_last() =~= before);
                assert(self.map() == old(self).map().insert(key@, value));
                assert forall|a: int, b: int| 0 <= a < b < self.model().len() implies #[trigger] self.model()[a].0 != #[trigger] self.model()[b].0 by {
                    if b < before.len() {
                        assert(before[a].0 != before[b].0);
                    }
                }
            },
        }
        self.order.push(key);
        assert(self.order() =~= old_order.push(key@));
        assert forall|k: Seq<char>| self.map().dom().contains(k) implies self.order().contains(k) by {
            if k != key@ {
                assert(old(self).map().dom().contains(k));
                assert(old_order.contains(k));
                let j = choose|j: int| 0 <= j < old_order.len() && old_order[j] == k;
                assert(self.order()[j] == k);
            } else {
                assert(self.order()[self.order().len() - 1] == k);
            }
        }
        while self.order.len() > self.capacity
            invariant
                self.inv(),
                self.capacity == old(self).capacity,
                evict(self.map(), self.order(), self.capacity()) == target,
            decreases self.order@.len(),
        {
            let ghost o = self.order();
            let ghost m = self.map();
            let expired = self.order.remove(0);
            assert(self.order() =~= o.drop_first());
            self.remove_entry(expired.as_str());
            assert(expired@ == o[0]);
            assert forall|k: Seq<char>| self.map().dom().contains(k) implies self.order().contains(k) by {
                assert(m.dom().contains(k) && k != o[0]);
                assert(o.contains(k));
                let j = choose|j: int| 0 <= j < o.len() && o[j] == k;
                assert(j != 0);
                assert(self.order()[j - 1] == k);
            }
        }
    }

    /// Forgets every key.
    pub fn clear(&mut self)
        ensures
            final(self).wf(),
            final(self).capacity() == old(self).capacity(),
            final(self).map() == Map::<Seq<char>, V>::empty(),
            final(self).order() == Seq::<Seq<char>>::empty(),
    {
        self.entries.clear();
        self.order.clear();
        assert(self.model() =~= Seq::empty());
        assert(self.order() =~= Seq::empty());
    }
}

/// A string-keyed map without a capacity.
pub struct TextMap<V> {
    entries: Vec<(String, V)>,
}

impl<V> TextMap<V> {
    pub closed spec fn model(&self) -> Seq<(Seq<char>, V)> {
        self.entries@.map_values(|e: (String, V)| (e.0@, e.1))
    }

    /// What the map holds.
    pub open spec fn map(&self) -> Map<Seq<char>, V> {
        as_map(self.model())
    }

    pub closed spec fn wf(&self) -> bool {
        keys_unique(self.model())
    }

    pub fn new() -> (r: Self)
        ensures
            r.wf(),
            r.map() == Map::<Seq<char>, V>::empty(),
    {
        let r = TextMap { entries: Vec::new() };
        assert(r.model() =~= Seq::empty());
        r
    }

    fn position(&self, key: &str) -> (r: Option<usize>)
        ensures
            match r {
                Some(i) => i < self.model().len() && self.model()[i as int].0 == key@,
                None => forall|i: int| 0 <= i < self.model().len() ==> self.model()[i].0 != key@,
            },
    {
        let mut i: usize = 0;
        while i < self.entries.len()
            invariant
                0 <= i <= self.entries@.len(),
                self.model().len() == self.entries@.len(),
                forall|j: int| 0 <= j < i ==> self.model()[j].0 != key@,
            decreases self.entries@.len() - i,
        {
            if str_eq(self.entries[i].0.as_str(), key) {
                return Some(i);
            }
            i += 1;
        }
        None
    }

    /// The value held under `key`.
    pub fn get(&self, key: &str) -> (r: Option<&V>)
        requires
            self.wf(),
        ensures
            match r {
                Some(v) => self.map().dom().contains(key@) && *v == self.map()[key@],
                None => !self.map().dom().contains(key@),
            },
    {
        match self.position(key) {
            Some(i) => {
                proof {
                    lemma_as_map_has(self.model(), i as int);
                }
                Some(&self.entries[i].1)
            },
            None => {
                proof {
                    lemma_as_map_lacks(self.model(), key@);
                }
                None
            },
        }
    }

    /// Holds `value` under `key`, replacing what was held there.
    pub fn insert(&mut self, key: String, value: V)
        requires
            old(self).wf(),
        ensures
            final(self).wf(),
            final(self).map() == old(self).map().insert(key@, value),
    {
        let ghost before = self.model();
        let ghost k = key@;
        match self.position(key.as_str()) {
            Some(i) => {
                proof {
                    lemma_as_map_update(before, i as int, value);
                }
                self.entries.set(i, (key, value));
                assert(self.model() =~= before.update(i as int, (before[i as int].0, value)));
                assert forall|a: int, b: int| 0 <= a < b < self.model().len() implies #[trigger] self.model()[a].0 != #[trigger] self.model()[b].0 by {
                    assert(before[a].0 != before[b].0);
                }
            },
            None => {
                self.entries.push((key, value));
                assert(self.model() =~= before.push((k, value)));
                assert(self.model().drop_last() =~= before);
                assert forall|a: int, b: int| 0 <= a < b < self.model().len() implies #[trigger] self.model()[a].0 != #[trigger] self.model()[b].0 by {
                    if b < before.len() {
                        assert(before[a].0 != before[b].0);
                    }
                }
            },
        }
    }

    /// Forgets what is held under `key`, if anything.
    pub fn remove(&mut self, key: &str)
        requires
            old(self).wf(),
        ensures
            final(self).wf(),
            final(self).map() == old(self).map().remove(key@),
    {
        let ghost before = self.model();
        match self.position(key) {
            Some(i) => {
                proof {
                    lemma_as_map_remove(before, i as int);
                }
                self.entries.remove(i);
                assert(self.model() =~= before.remove(i as int));
            },
            None => {
                proof {
                    lemma_as_map_lacks(before, key@);
                }
                assert(as_map(before).remove(key@) =~= as_map(before));
            },
        }
    }
}

/// A well-formed map never holds more keys than its capacity.
pub proof fn held_within_capacity<V>(m: &BoundedMap<V>)
    requires
        m.wf(),
    ensures
        m.map().len() <= m.capacity(),
{
    let order = m.order();
    vstd::seq_lib::seq_to_set_is_finite(order);
    order.lemma_cardinality_of_set();
    assert(m.map().dom().subset_of(order.to_set()));
    vstd::set_lib::lemma_len_subset(m.map().dom(), order.to_set());
}

proof fn lemma_evict_keeps<V>(m: Map<Seq<char>, V>, order: Seq<Seq<char>>, cap: nat, k: Seq<char>)
    requires
        cap >= 1,
        order.len() >= 1,
        order.last() == k,
        !order.drop_last().contains(k),
        m.dom().contains(k),
    ensures
        evict(m, order, cap).0.dom().contains(k),
        evict(m, order, cap).0[k] == m[k],
        evict(m, order, cap).1.len() <= cap,
    decreases order.len(),
{
    if order.len() > cap {
        assert(order[0] != k) by {
            assert(order.drop_last()[0] == order[0]);
        }
        let rest = order.drop_first();
        assert(rest.drop_last() =~= order.drop_last().drop_first());
        assert(!rest.drop_last().contains(k)) by {
            if rest.drop_last().contains(k) {
                let j = choose|j: int| 0 <= j < rest.drop_last().len() && rest.drop_last()[j] == k;
                assert(order.drop_last()[j + 1] == k);
            }
        }
        lemma_evict_keeps(m.remove(order[0]), rest, cap, k);
    }
}

/// A key that is not listed when it is inserted is held afterwards, with the
/// value it was inserted with, in a map of capacity at least one.
pub proof fn fresh_insert_is_held<V>(m: Map<Seq<char>, V>, order: Seq<Seq<char>>, cap: nat, k: Seq<char>, v: V)
    requires
        cap >= 1,
        !order.contains(k),
    ensures
        evict(m.insert(k, v), order.push(k), cap).0.dom().contains(k),
        evict(m.insert(k, v), order.push(k), cap).0[k] == v,
{
    assert(order.push(k).drop_last() =~= order);
    lemma_evict_keeps(m.insert(k, v), order.push(k), cap, k);
}

/// The map and insertion order after inserting each of `later` in turn, as
/// `BoundedMap::insert` does.
pub open spec fn insert_all<V>(m: Map<Seq<char>, V>, order: Seq<Seq<char>>, cap: nat, later: Seq<(Seq<char>, V)>) -> (Map<Seq<char>, V>, Seq<Seq<char>>)
    decreases later.len(),
{
    if later.len() == 0 {
        (m, order)
    } else {
        let next = evict(m.insert(later[0].0, later[0].1), order.push(later[0].0), cap);
        insert_all(next.0, next.1, cap, later.drop_first())
    }
}

/// `k` is listed once, at position `p`.
pub open spec fn listed_once_at(order: Seq<Seq<char>>, k: Seq<char>, p: int) -> bool {
    &&& 0 <= p < order.len()
    &&& order[p] == k
    &&& forall|i: int| 0 <= i < order.len() && i != p ==> order[i] != k
}

proof fn lemma_evict_keeps_listed<V>(m: Map<Seq<char>, V>, order: Seq<Seq<char>>, cap: nat, k: Seq<char>, p: int)
    requires
        listed_once_at(order, k, p),
        order.len() - p <= cap,
        m.dom().contains(k),
    ensures
        evict(m, order, cap).0.dom().contains(k),
        evict(m, order, cap).0[k] == m[k],
        evict(m, order, cap).1.len() <= order.len(),
        listed_once_at(evict(m, order, cap).1, k, p - (order.len() - evict(m, order, cap).1.len())),
    decreases order.len(),
{
    if order.len() > cap {
        assert(p > 0);
        assert(order[0] != k);
        let rest = order.drop_first();
        assert(listed_once_at(rest, k, p - 1)) by {
            assert forall|i: int| 0 <= i < rest.len() && i != p - 1 implies rest[i] != k by {
                assert(rest[i] == order[i + 1]);
            }
        }
        lemma_evict_keeps_listed(m.remove(order[0]), rest, cap, k, p - 1);
    }
}

proof fn lemma_insert_all_keeps<V>(m: Map<Seq<char>, V>, order: Seq<Seq<char>>, cap: nat, k: Seq<char>, p: int, later: Seq<(Seq<char>, V)>)
    requires
        listed_once_at(order, k, p),
        order.len() - p + later.len() <= cap,
        m.dom().contains(k),
        forall|i: int| 0 <= i < later.len() ==> (#[trigger] later[i]).0 != k,
    ensures
        insert_all(m, order, cap, later).0.dom().contains(k),
        insert_all(m, order, cap, later).0[k] == m[k],
    decreases later.len(),
{
    if later.len() > 0 {
        let j = later[0].0;
        assert(later[0].0 != k);
        let m1 = m.insert(j, later[0].1);
        let o1 = order.push(j);
        assert(listed_once_at(o1, k, p)) by {
            assert forall|i: int| 0 <= i < o1.len() && i != p implies o1[i] != k by {
                if i < order.len() {
                    assert(o1[i] == order[i]);
                }
            }
        }
        lemma_evict_keeps_listed(m1, o1, cap, k, p);
        let next = evict(m1, o1, cap);
        let q = p - (o1.len() - next.1.len());
        assert forall|i: int| 0 <= i < later.drop_first().len() implies (#[trigger] later.drop_first()[i]).0 != k by {
            assert(later.drop_first()[i] == later[i + 1]);
        }
        lemma_insert_all_keeps(next.0, next.1, cap, k, q, later.drop_first());
    }
}

/// A key inserted fresh is still held, with its value, after fewer later
/// insertions of other keys than the capacity.
pub proof fn fresh_key_outlasts_later_inserts<V>(
    m: Map<Seq<char>, V>,
    order: Seq<Seq<char>>,
    cap: nat,
    k: Seq<char>,
    v: V,
    later: Seq<(Seq<char>, V)>,
)
    requires
        !order.contains(k),
        later.len() < cap,
        forall|i: int| 0 <= i < later.len() ==> (#[trigger] later[i]).0 != k,
    ensures
        ({
            let first = evict(m.insert(k, v), order.push(k), cap);
            let after = insert_all(first.0, first.1, cap, later);
            after.0.dom().contains(k) && after.0[k] == v
        }),
{
    let o1 = order.push(k);
    assert(listed_once_at(o1, k, order.len() as int)) by {
        assert forall|i: int| 0 <= i < o1.len() && i != order.len() implies o1[i] != k by {
            assert(o1[i] == order[i]);
        }
    }
    lemma_evict_keeps_listed(m.insert(k, v), o1, cap, k, order.len() as int);
    let first = evict(m.insert(k, v), o1, cap);
    let q = order.len() - (o1.len() - first.1.len());
    lemma_insert_all_keeps(first.0, first.1, cap, k, q, later);
}

impl BoundedMap<Binding> {
    /// Moves every binding to the given revision of its project.
    pub fn set_revisions(&mut self, revision_id: RevisionId)
        requires
            old(self).wf(),
        ensures
            final(self).wf(),
            final(self).capacity() == old(self).capacity(),
            final(self).order() == old(self).order(),
            final(self).map().dom() == old(self).map().dom(),
            forall|k: Seq<char>| #[trigger] final(self).map().dom().contains(k) ==> final(self).map()[k] == (Binding {
                project_id: old(self).map()[k].project_id,
                revision_id,
            }),
    {
        let ghost start = self.model();
        let mut i: usize = 0;
        while i < self.entries.len()
            invariant
                0 <= i <= self.entries@.len(),
                self.entries@.len() == start.len(),
                self.order == old(self).order,
                self.capacity == old(self).capacity,
                start == old(self).model(),
                forall|j: int| 0 <= j < i ==> #[trigger] self.model()[j] == with_revision(start[j], revision_id),
                forall|j: int| i <= j < start.len() ==> #[trigger] self.model()[j] == start[j],
            decreases self.entries@.len() - i,
        {
            let ghost before = self.model();
            let key = self.entries[i].0.clone();
            let project_id = self.entries[i].1.project_id;
            assert(before[i as int] == start[i as int]);
            assert(key@ == start[i as int].0);
            assert(project_id == start[i as int].1.project_id);
            self.entries.set(i, (key, Binding { project_id, revision_id }));
            assert(self.model()[i as int] == with_revision(start[i as int], revision_id));
            assert(self.model() =~= before.update(i as int, with_revision(start[i as int], revision_id)));
            i += 1;
        }
        assert(self.model() =~= start.map_values(|e: (Seq<char>, Binding)| with_revision(e, revision_id)));
        proof {
            lemma_as_map_map_binding(start, revision_id);
            assert forall|a: int, b: int| 0 <= a < b < self.model().len() implies #[trigger] self.model()[a].0 != #[trigger] self.model()[b].0 by {
                assert(start[a].0 != start[b].0);
            }
            assert forall|k: Seq<char>| self.map().dom().contains(k) implies self.order().contains(k) by {
                assert(old(self).map().dom().contains(k));
            }
        }
    }
}

/// An entry moved to another revision of its project.
pub open spec fn with_revision(e: (Seq<char>, Binding), revision_id: RevisionId) -> (Seq<char>, Binding) {
    (e.0, Binding { project_id: e.1.project_id, revision_id })
}

proof fn lemma_as_map_map_binding(s: Seq<(Seq<char>, Binding)>, revision_id: RevisionId)
    ensures
        ({
            let m = as_map(s.map_values(|e: (Seq<char>, Binding)| with_revision(e, revision_id)));
            &&& m.dom() =~= as_map(s).dom()
            &&& forall|k: Seq<char>| #[trigger] m.dom().contains(k) ==> m[k] == (Binding { project_id: as_map(s)[k].project_id, revision_id })
        }),
    decreases s.len(),
{
    if s.len() > 0 {
        let f = |e: (Seq<char>, Binding)| with_revision(e, revision_id);
        assert(s.map_values(f).drop_last() =~= s.drop_last().map_values(f));
        lemma_as_map_map_binding(s.drop_last(), revision_id);
    }
}

} // verus!
