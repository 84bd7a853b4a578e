//! A small keyed table used for every identifier-indexed store of the
//! pipeline: instance maps, prepared-material caches and mesh tables.

use vstd::prelude::*;

verus! {

/// Table from a stable `u64` identifier to a value, viewed as a `Map`.
///
/// Backed by a vector of bindings; a binding for a key replaces the previous
/// one in place, so lookups are answered by the most recent insertion.
pub struct IdTable<V> {
    entries: Vec<(u64, V)>,
}

/// The map described by a sequence of bindings, later bindings winning.
spec fn entries_to_map<V>(s: Seq<(u64, V)>) -> Map<u64, V>
    decreases s.len(),
{
    if s.len() == 0 {
        Map::empty()
    } else {
        entries_to_map(s.drop_last()).insert(s.last().0, s.last().1)
    }
}

impl<V> View for IdTable<V> {
    type V = Map<u64, V>;

    closed spec fn view(&self) -> Map<u64, V> {
        entries_to_map(self.entries@)
    }
}

proof fn lemma_entries_absent<V>(s: Seq<(u64, V)>, id: u64)
    requires
        forall|j: int| 0 <= j < s.len() ==> (#[trigger] s[j]).0 != id,
    ensures
        !entries_to_map(s).contains_key(id),
    decreases s.len(),
{
    if s.len() > 0 {
        assert forall|j: int| 0 <= j < s.drop_last().len() implies (#[trigger] s.drop_last()[j]).0
            != id by {
            assert(s.drop_last()[j] == s[j]);
        }
        lemma_entries_absent(s.drop_last(), id);
        assert(s.last() == s[s.len() - 1]);
    }
}

proof fn lemma_entries_last_match<V>(s: Seq<(u64, V)>, i: int, id: u64)
    requires
        0 <= i < s.len(),
        s[i].0 == id,
        forall|j: int| i < j < s.len() ==> (#[trigger] s[j]).0 != id,
    ensures
        entries_to_map(s).contains_key(id),
        entries_to_map(s)[id] == s[i].1,
    decreases s.len(),
{
    if i == s.len() - 1 {
        assert(s.last() == s[i]);
    } else {
        assert(s.drop_last()[i] == s[i]);
        assert forall|j: int| i < j < s.drop_last().len() implies (#[trigger] s.drop_last()[j]).0
            != id by {
            assert(s.drop_last()[j] == s[j]);
        }
        lemma_entries_last_match(s.drop_last(), i, id);
        assert(s.last() == s[s.len() - 1]);
        assert(s.last().0 != id);
    }
}

proof fn lemma_entries_update<V>(s: Seq<(u64, V)>, i: int, id: u64, v: V)
    requires
        0 <= i < s.len(),
        s[i].0 == id,
        forall|j: int| i < j < s.len() ==> (#[trigger] s[j]).0 != id,
    ensures
        entries_to_map(s.update(i, (id, v))) == entries_to_map(s).insert(id, v),
    decreases s.len(),
{
    let t = s.update(i, (id, v));
    if i == s.len() - 1 {
        assert(t.drop_last() =~= s.drop_last());
        assert(t.last() == (id, v));
        assert(entries_to_map(s.drop_last()).insert(id, s[i].1).insert(id, v) =~= entries_to_map(
            s.drop_last(),
        ).insert(id, v));
        assert(s.last() == s[i]);
    } else {
        assert(t.drop_last() =~= s.drop_last().update(i, (id, v)));
        assert(s.drop_last()[i] == s[i]);
        assert forall|j: int| i < j < s.drop_last().len() implies (#[trigger] s.drop_last()[j]).0
            != id by {
            assert(s.drop_last()[j] == s[j]);
        }
        lemma_entries_update(s.drop_last(), i, id, v);
        let k2 = s.last().0;
        let w = s.last().1;
        assert(s.last() == s[s.len() - 1]);
        assert(k2 != id);
        assert(t.last() == s.last());
        assert(entries_to_map(s.drop_last()).insert(id, v).insert(k2, w) =~= entries_to_map(
            s.drop_last(),
        ).insert(k2, w).insert(id, v));
    }
}

proof fn lemma_entries_push<V>(s: Seq<(u64, V)>, id: u64, v: V)
    ensures
        entries_to_map(s.push((id, v))) == entries_to_map(s).insert(id, v),
{
    assert(s.push((id, v)).drop_last() =~= s);
    assert(s.push((id, v)).last() == (id, v));
}

impl<V> IdTable<V> {
    /// An empty table.
    pub fn new() -> (r: Self)
        ensures
            r@ == Map::<u64, V>::empty(),
    {
        IdTable { entries: Vec::new() }
    }

    /// Drops every binding; the per-frame stores are rebuilt through this.
    pub fn clear(&mut self)
        ensures
            final(self)@ == Map::<u64, V>::empty(),
    {
        self.entries.clear();
    }

    /// True exactly when the table holds no binding at all.
    pub fn is_empty(&self) -> (r: bool)
        ensures
            r <==> self@ == Map::<u64, V>::empty(),
    {
        let r = self.entries.len() == 0;
        proof {
            if r {
                assert(self.entries@ =~= Seq::<(u64, V)>::empty());
            } else {
                assert(self@.contains_key(self.entries@.last().0));
                assert(!Map::<u64, V>::empty().contains_key(self.entries@.last().0));
            }
        }
        r
    }

    /// Looks the identifier up.
    pub fn get(&self, id: u64) -> (r: Option<&V>)
        ensures
            match r {
                Some(v) => self@.contains_key(id) && *v == self@[id],
                None => !self@.contains_key(id),
            },
    {
        let mut i: usize = self.entries.len();
        while i > 0
            invariant
                i <= self.entries@.len(),
                forall|j: int| i <= j < self.entries@.len() ==> (#[trigger] self.entries@[j]).0
                    != id,
            decreases i,
        {
            i = i - 1;
            if self.entries[i].0 == id {
                proof {
                    lemma_entries_last_match(self.entries@, i as int, id);
                }
                return Some(&self.entries[i].1);
            }
        }
        proof {
            lemma_entries_absent(self.entries@, id);
        }
        None
    }

    /// Binds the identifier to the value, replacing any previous binding.
    pub fn insert(&mut self, id: u64, v: V)
        ensures
            final(self)@ == old(self)@.insert(id, v),
    {
        let ghost s0 = self.entries@;
        let mut i: usize = self.entries.len();
        while i > 0
            invariant
                self.entries@ == s0,
                s0 == old(self).entries@,
                i <= s0.len(),
                forall|j: int| i <= j < s0.len() ==> (#[trigger] s0[j]).0 != id,
            decreases i,
        {
            i = i - 1;
            if self.entries[i].0 == id {
                self.entries[i] = (id, v);
                proof {
                    lemma_entries_update(s0, i as int, id, v);
                }
                return;
            }
        }
        self.entries.push((id, v));
        proof {
            lemma_entries_push(s0, id, v);
        }
    }
}

impl<V> Default for IdTable<V> {
    /// An empty table.
    fn default() -> (r: Self)
        ensures
            r@ == Map::<u64, V>::empty(),
    {
        IdTable { entries: Vec::new() }
    }
}

} // verus!
