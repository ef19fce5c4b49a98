use vstd::prelude::*;

verus! {

/// The error taxonomy shared by every store operation: adding an entity
/// under a key that is already live is rejected with `DuplicateID`;
/// modifying, removing or reading an absent key is rejected with
/// `NotFound`. Both are expected, recoverable outcomes.
#[derive(Clone, Copy, Debug, PartialEq, Eq, Structural)]
pub enum DocError {
    DuplicateID,
    NotFound,
}

/// The pairs of an association list, read as a finite map from key to
/// the view of the stored value. A later pair wins, but the stores keep
/// their keys distinct, so no overwrite ever happens in practice.
pub(crate) open spec fn entries_as_map<V: View>(s: Seq<(u128, V)>) -> Map<u128, V::V>
    decreases s.len(),
{
    if s.len() == 0 {
        Map::empty()
    } else {
        entries_as_map(s.drop_last()).insert(s.last().0, s.last().1@)
    }
}

/// No key occurs twice among the pairs.
pub(crate) open spec fn entry_keys_distinct<V>(s: Seq<(u128, V)>) -> bool {
    forall|i: int, j: int| 0 <= i < j < s.len() ==> (#[trigger] s[i]).0 != (#[trigger] s[j]).0
}

proof fn lemma_entries_as_map_contains<V: View>(s: Seq<(u128, V)>, k: u128)
    ensures
        entries_as_map(s).contains_key(k) <==> exists|i: int|
            0 <= i < s.len() && (#[trigger] s[i]).0 == k,
    decreases s.len(),
{
    if s.len() == 0 {
    } else {
        lemma_entries_as_map_contains(s.drop_last(), k);
        if s.last().0 == k {
            assert(s[s.len() - 1].0 == k);
        } else {
            if exists|i: int| 0 <= i < s.len() && (#[trigger] s[i]).0 == k {
                let i = choose|i: int| 0 <= i < s.len() && (#[trigger] s[i]).0 == k;
                assert(s.drop_last()[i] == s[i]);
            }
            if exists|i: int| 0 <= i < s.drop_last().len() && (#[trigger] s.drop_last()[i]).0
                == k {
                let i = choose|i: int|
                    0 <= i < s.drop_last().len() && (#[trigger] s.drop_last()[i]).0 == k;
                assert(s[i] == s.drop_last()[i]);
            }
        }
    }
}

proof fn lemma_entry_keys_distinct_drop_last<V>(s: Seq<(u128, V)>)
    requires
        entry_keys_distinct(s),
        s.len() > 0,
    ensures
        entry_keys_distinct(s.drop_last()),
{
    assert forall|i: int, j: int| 0 <= i < j < s.drop_last().len() implies (#[trigger] s.drop_last()[i]).0
        != (#[trigger] s.drop_last()[j]).0 by {
        assert(s.drop_last()[i] == s[i]);
        assert(s.drop_last()[j] == s[j]);
    }
}

proof fn lemma_entries_as_map_index<V: View>(s: Seq<(u128, V)>, i: int)
    requires
        entry_keys_distinct(s),
        0 <= i < s.len(),
    ensures
        entries_as_map(s).contains_key(s[i].0),
        entries_as_map(s)[s[i].0] == s[i].1@,
    decreases s.len(),
{
    lemma_entry_keys_distinct_drop_last(s);
    if i == s.len() - 1 {
    } else {
        assert(s.drop_last()[i] == s[i]);
        lemma_entries_as_map_index(s.drop_last(), i);
        assert(s.last().0 != s[i].0);
    }
}

proof fn lemma_entries_as_map_push<V: View>(s: Seq<(u128, V)>, p: (u128, V))
    ensures
        entries_as_map(s.push(p)) == entries_as_map(s).insert(p.0, p.1@),
{
    assert(s.push(p).drop_last() =~= s);
    assert(s.push(p).last() == p);
}

proof fn lemma_entries_as_map_remove<V: View>(s: Seq<(u128, V)>, i: int)
    requires
        entry_keys_distinct(s),
        0 <= i < s.len(),
    ensures
        entries_as_map(s.remove(i)) == entries_as_map(s).remove(s[i].0),
    decreases s.len(),
{
    lemma_entry_keys_distinct_drop_last(s);
    let k = s[i].0;
    if i == s.len() - 1 {
        assert(s.remove(i) =~= s.drop_last());
        lemma_entries_as_map_contains(s.drop_last(), k);
        assert forall|j: int| 0 <= j < s.drop_last().len() implies (#[trigger] s.drop_last()[j]).0
            != k by {
            assert(s.drop_last()[j] == s[j]);
        }
        assert(!entries_as_map(s.drop_last()).contains_key(k));
        assert(entries_as_map(s.drop_last()).insert(k, s[i].1@).remove(k) =~= entries_as_map(
            s.drop_last(),
        ));
    } else {
        assert(s.drop_last()[i] == s[i]);
        lemma_entries_as_map_remove(s.drop_last(), i);
        assert(s.remove(i).drop_last() =~= s.drop_last().remove(i));
        assert(s.remove(i).last() == s.last());
        let m0 = entries_as_map(s.drop_last());
        assert(entries_as_map(s.remove(i)) == m0.remove(k).insert(s.last().0, s.last().1@));
        assert(s.last().0 != k);
        assert(m0.remove(k).insert(s.last().0, s.last().1@) =~= m0.insert(
            s.last().0,
            s.last().1@,
        ).remove(k));
    }
}

proof fn lemma_keys_distinct_remove<V>(s: Seq<(u128, V)>, i: int)
    requires
        entry_keys_distinct(s),
        0 <= i < s.len(),
    ensures
        entry_keys_distinct(s.remove(i)),
{
    let t = s.remove(i);
    assert forall|p: int, q: int| 0 <= p < q < t.len() implies (#[trigger] t[p]).0 != (
    #[trigger] t[q]).0 by {
        if p < i {
            assert(t[p] == s[p]);
        } else {
            assert(t[p] == s[p + 1]);
        }
        if q < i {
            assert(t[q] == s[q]);
        } else {
            assert(t[q] == s[q + 1]);
        }
    }
}

proof fn lemma_entries_as_map_dom_len<V: View>(s: Seq<(u128, V)>)
    requires
        entry_keys_distinct(s),
    ensures
        entries_as_map(s).dom().finite(),
        entries_as_map(s).dom().len() == s.len(),
    decreases s.len(),
{
    if s.len() == 0 {
        assert(entries_as_map(s).dom() =~= Set::<u128>::empty());
    } else {
        lemma_entry_keys_distinct_drop_last(s);
        lemma_entries_as_map_dom_len(s.drop_last());
        lemma_entries_as_map_contains(s.drop_last(), s.last().0);
        assert forall|j: int| 0 <= j < s.drop_last().len() implies (#[trigger] s.drop_last()[j]).0
            != s.last().0 by {
            assert(s.drop_last()[j] == s[j]);
        }
        assert(!entries_as_map(s.drop_last()).contains_key(s.last().0));
        assert(entries_as_map(s).dom() =~= entries_as_map(s.drop_last()).dom().insert(
            s.last().0,
        ));
    }
}

/// A collection guaranteeing identity uniqueness: a mapping from a
/// 128-bit key to a value. Keys are unique; inserting an existing key is
/// rejected, never overwritten. Insertion order is irrelevant to
/// behavior and no ordering guarantee is exposed.
pub struct EntityStore<V: View> {
    entries: Vec<(u128, V)>,
}

impl<V: View> EntityStore<V> {
    #[verifier::type_invariant]
    spec fn wf(self) -> bool {
        entry_keys_distinct(self.entries@)
    }
}

impl<V: View> View for EntityStore<V> {
    type V = Map<u128, V::V>;

    closed spec fn view(&self) -> Map<u128, V::V> {
        entries_as_map(self.entries@)
    }
}

impl<V: View> EntityStore<V> {
    /// The empty store.
    pub fn new() -> (r: Self)
        ensures
            r@ == Map::<u128, V::V>::empty(),
    {
        let r = EntityStore { entries: Vec::new() };
        proof {
            assert(r@ =~= Map::<u128, V::V>::empty());
        }
        r
    }

    /// The index of the pair holding `id`, if one does.
    fn index_of(&self, id: u128) -> (r: Option<usize>)
        ensures
            match r {
                Some(i) => i < self.entries@.len() && self.entries@[i as int].0 == id,
                None => forall|j: int|
                    0 <= j < self.entries@.len() ==> (#[trigger] self.entries@[j]).0 != id,
            },
    {
        let n = self.entries.len();
        let mut i: usize = 0;
        while i < n
            invariant
                n == self.entries@.len(),
                i <= n,
                forall|j: int| 0 <= j < i ==> (#[trigger] self.entries@[j]).0 != id,
            decreases n - i,
        {
            if self.entries[i].0 == id {
                return Some(i);
            }
            i = i + 1;
        }
        None
    }

    /// Whether a value is currently live under `id`.
    pub fn contains(&self, id: u128) -> (r: bool)
        ensures
            r == self@.contains_key(id),
    {
        proof {
            use_type_invariant(self);
        }
        let idx = self.index_of(id);
        proof {
            lemma_entries_as_map_contains(self.entries@, id);
            if idx is Some {
                let i = idx->Some_0 as int;
                assert(0 <= i < self.entries@.len() && self.entries@[i].0 == id);
            }
        }
        idx.is_some()
    }

    /// Number of live entries.
    pub fn len(&self) -> (r: usize)
        ensures
            r == self@.dom().len(),
    {
        proof {
            use_type_invariant(self);
            lemma_entries_as_map_dom_len(self.entries@);
        }
        self.entries.len()
    }

    /// Succeeds iff `id` is absent; on success the mapping now holds
    /// `value`. Fails with `DuplicateID` otherwise, with no overwrite
    /// side effect on failure.
    pub fn add(&mut self, id: u128, value: V) -> (r: Result<(), DocError>)
        ensures
            r is Ok <==> !old(self)@.contains_key(id),
            r is Ok ==> final(self)@ == old(self)@.insert(id, value@),
            r is Err ==> r == Result::<(), DocError>::Err(DocError::DuplicateID) && *final(self)
                == *old(self),
    {
        proof {
            use_type_invariant(&*self);
        }
        let idx = self.index_of(id);
        proof {
            lemma_entries_as_map_contains(self.entries@, id);
            if idx is Some {
                let i = idx->Some_0 as int;
                assert(0 <= i < self.entries@.len() && self.entries@[i].0 == id);
            }
        }
        match idx {
            Some(_) => Err(DocError::DuplicateID),
            None => {
                let ghost s_old = self.entries@;
                let mut entries: Vec<(u128, V)> = Vec::new();
                core::mem::swap(&mut entries, &mut self.entries);
                entries.push((id, value));
                proof {
                    assert forall|p: int, q: int| 0 <= p < q < entries@.len() implies (
                    #[trigger] entries@[p]).0 != (#[trigger] entries@[q]).0 by {
                        assert(entries@[p] == s_old[p]);
                        if q < s_old.len() as int {
                            assert(entries@[q] == s_old[q]);
                        } else {
                            assert(entries@[q] == (id, value));
                        }
                    }
                    lemma_entries_as_map_push(s_old, (id, value));
                }
                core::mem::swap(&mut entries, &mut self.entries);
                Ok(())
            },
        }
    }

    /// Succeeds iff `id` is present, replacing the value and returning
    /// the previous value (needed by the command layer to build an
    /// inverse); fails with `NotFound` otherwise.
    pub fn modify(&mut self, id: u128, value: V) -> (r: Result<V, DocError>)
        ensures
            r is Ok <==> old(self)@.contains_key(id),
            r is Ok ==> (r->Ok_0)@ == old(self)@[id] && final(self)@ == old(self)@.insert(
                id,
                value@,
            ),
            r is Err ==> r == Result::<V, DocError>::Err(DocError::NotFound) && *final(self)
                == *old(self),
    {
        proof {
            use_type_invariant(&*self);
        }
        let idx = self.index_of(id);
        proof {
            lemma_entries_as_map_contains(self.entries@, id);
            if idx is Some {
                let i = idx->Some_0 as int;
                assert(0 <= i < self.entries@.len() && self.entries@[i].0 == id);
            }
        }
        match idx {
            None => Err(DocError::NotFound),
            Some(i) => {
                let ghost s_old = self.entries@;
                proof {
                    lemma_entries_as_map_index(s_old, i as int);
                    lemma_entries_as_map_remove(s_old, i as int);
                }
                let mut entries: Vec<(u128, V)> = Vec::new();
                core::mem::swap(&mut entries, &mut self.entries);
                let prior_pair = entries.remove(i);
                let prior = prior_pair.1;
                proof {
                    lemma_keys_distinct_remove(s_old, i as int);
                }
                let ghost s_mid = entries@;
                entries.push((id, value));
                proof {
                    lemma_entries_as_map_contains(s_mid, id);
                    assert forall|j: int| 0 <= j < s_mid.len() implies (#[trigger] s_mid[j]).0
                        != id by {
                        if j < i as int {
                            assert(s_mid[j] == s_old[j]);
                        } else {
                            assert(s_mid[j] == s_old[j + 1]);
                        }
                    }
                    assert forall|p: int, q: int| 0 <= p < q < entries@.len() implies (
                    #[trigger] entries@[p]).0 != (#[trigger] entries@[q]).0 by {
                        assert(entries@[p] == s_mid[p]);
                        if q < s_mid.len() as int {
                            assert(entries@[q] == s_mid[q]);
                        } else {
                            assert(entries@[q] == (id, value));
                        }
                    }
                    lemma_entries_as_map_push(s_mid, (id, value));
                    assert(entries_as_map(entries@) =~= old(self)@.insert(id, value@));
                }
                core::mem::swap(&mut entries, &mut self.entries);
                Ok(prior)
            },
        }
    }

    /// Succeeds iff `id` is present, returning the removed value; fails
    /// with `NotFound` otherwise.
    pub fn remove(&mut self, id: u128) -> (r: Result<V, DocError>)
        ensures
            r is Ok <==> old(self)@.contains_key(id),
            r is Ok ==> (r->Ok_0)@ == old(self)@[id] && final(self)@ == old(self)@.remove(id),
            r is Err ==> r == Result::<V, DocError>::Err(DocError::NotFound) && *final(self)
                == *old(self),
    {
        proof {
            use_type_invariant(&*self);
        }
        let idx = self.index_of(id);
        proof {
            lemma_entries_as_map_contains(self.entries@, id);
            if idx is Some {
                let i = idx->Some_0 as int;
                assert(0 <= i < self.entries@.len() && self.entries@[i].0 == id);
            }
        }
        match idx {
            None => Err(DocError::NotFound),
            Some(i) => {
                let ghost s_old = self.entries@;
                proof {
                    lemma_entries_as_map_index(s_old, i as int);
                    lemma_entries_as_map_remove(s_old, i as int);
                }
                let mut entries: Vec<(u128, V)> = Vec::new();
                core::mem::swap(&mut entries, &mut self.entries);
                let prior_pair = entries.remove(i);
                let prior = prior_pair.1;
                proof {
                    lemma_keys_distinct_remove(s_old, i as int);
                }
                core::mem::swap(&mut entries, &mut self.entries);
                Ok(prior)
            },
        }
    }

    /// The current value under `id`, or `NotFound`; no side effects.
    pub fn get(&self, id: u128) -> (r: Result<&V, DocError>)
        ensures
            r is Ok <==> self@.contains_key(id),
            r is Ok ==> (*r->Ok_0)@ == self@[id],
            r is Err ==> r == Result::<&V, DocError>::Err(DocError::NotFound),
    {
        proof {
            use_type_invariant(self);
        }
        let idx = self.index_of(id);
        proof {
            lemma_entries_as_map_contains(self.entries@, id);
            if idx is Some {
                let i = idx->Some_0 as int;
                assert(0 <= i < self.entries@.len() && self.entries@[i].0 == id);
                lemma_entries_as_map_index(self.entries@, i);
            }
        }
        match idx {
            None => Err(DocError::NotFound),
            Some(i) => Ok(&self.entries[i].1),
        }
    }

    /// Read-only access for iteration: the pair at a position. No
    /// ordering guarantee is exposed beyond membership in the mapping.
    pub fn entry_at(&self, i: usize) -> (r: &(u128, V))
        requires
            i < self@.dom().len(),
        ensures
            self@.contains_key(r.0),
            self@[r.0] == r.1@,
    {
        proof {
            use_type_invariant(self);
            lemma_entries_as_map_dom_len(self.entries@);
            lemma_entries_as_map_index(self.entries@, i as int);
        }
        &self.entries[i]
    }
}

/// Uniqueness law: once `add(id, v)` has succeeded, the key is live, so
/// a second `add(id, v2)` meets the `DuplicateID` arm of `add`'s
/// contract and the store still holds `v`, not `v2`.
pub proof fn lemma_add_then_add_rejected<W>(m: Map<u128, W>, id: u128, v: W)
    requires
        !m.contains_key(id),
    ensures
        m.insert(id, v).contains_key(id),
        m.insert(id, v)[id] == v,
{
}

/// Not-found law: a key never inserted, or just removed, is absent, so
/// `modify`, `remove` and `get` meet the `NotFound` arm of their
/// contracts on it.
pub proof fn lemma_removed_key_not_found<W>(m: Map<u128, W>, id: u128)
    ensures
        !m.remove(id).contains_key(id),
{
}

} // verus!
