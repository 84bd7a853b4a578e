//! Render phase containers: unordered opaque bins and the sorted transparent
//! list, one pair per view, rebuilt every frame.

use vstd::prelude::*;
use vstd::seq_lib::group_to_multiset_ensures;

verus! {

/// Key of an opaque bin: draw items with equal keys may be batched into one
/// instanced draw. No order among or inside bins is promised.
#[derive(Clone, Copy, Debug)]
pub struct Opaque2dBinKey {
    /// Handle of the specialized pipeline.
    pub pipeline: u64,
    /// Identifier of the draw function that consumes the item.
    pub draw_function: u64,
    /// Identifier of the mesh asset.
    pub asset_id: u64,
    /// Identity of the material's bind group.
    pub material_bind_group_id: Option<u64>,
}

/// One entry of a view's opaque phase.
#[derive(Clone, Copy, Debug)]
pub struct OpaquePhaseItem {
    /// The bin the entry belongs to.
    pub key: Opaque2dBinKey,
    /// The entity drawn.
    pub entity: u64,
    /// The entry may be batched with equal-key entries.
    pub batchable: bool,
}

/// A view's opaque phase: a bag of binned entries. Entries with equal keys
/// form one bin; their order carries no meaning.
#[derive(Clone, Debug)]
pub struct OpaquePhase {
    /// The entries queued this frame.
    pub items: Vec<OpaquePhaseItem>,
}

impl OpaquePhase {
    /// An empty phase.
    pub fn new() -> (r: Self)
        ensures
            r.items@ == Seq::<OpaquePhaseItem>::empty(),
    {
        let r = OpaquePhase { items: Vec::new() };
        proof {
            assert(r.items@ =~= Seq::<OpaquePhaseItem>::empty());
        }
        r
    }

    /// Queues one entry into its bin.
    pub fn add(&mut self, key: Opaque2dBinKey, entity: u64, batchable: bool)
        ensures
            final(self).items@ == old(self).items@.push(
                OpaquePhaseItem { key, entity, batchable },
            ),
    {
        self.items.push(OpaquePhaseItem { key, entity, batchable });
    }
}

/// One draw item of a view's transparent phase.
#[derive(Clone, Copy, Debug)]
pub struct Transparent2d {
    /// The entity drawn.
    pub entity: u64,
    /// Identifier of the draw function that consumes the item.
    pub draw_function: u64,
    /// Handle of the specialized pipeline.
    pub pipeline: u64,
    /// View depth plus the material's bias, in a monotone integer encoding:
    /// larger is closer to the camera.
    pub sort_key: i64,
    /// First instance of the item's batch.
    pub batch_start: u32,
    /// One past the last instance of the item's batch.
    pub batch_end: u32,
    /// Extra per-item index, unset when unused.
    pub extra_index: Option<u32>,
}

/// Ascending sort keys: back-to-front, what alpha blending needs.
pub open spec fn sorted_back_to_front(s: Seq<Transparent2d>) -> bool {
    forall|a: int, b: int| 0 <= a < b < s.len() ==> s[a].sort_key <= s[b].sort_key
}

/// Where a stable back-to-front insertion puts one more item: after every
/// already-placed item whose key is less than or equal to its own.
pub open spec fn spec_insert_back_to_front(s: Seq<Transparent2d>, it: Transparent2d) -> Seq<
    Transparent2d,
>
    decreases s.len(),
{
    if s.len() == 0 {
        seq![it]
    } else if s.last().sort_key <= it.sort_key {
        s.push(it)
    } else {
        spec_insert_back_to_front(s.drop_last(), it).push(s.last())
    }
}

/// The stable back-to-front ordering of a sequence: ascending keys, items
/// with equal keys keeping their original order.
pub open spec fn spec_stable_sorted(s: Seq<Transparent2d>) -> Seq<Transparent2d>
    decreases s.len(),
{
    if s.len() == 0 {
        Seq::empty()
    } else {
        spec_insert_back_to_front(spec_stable_sorted(s.drop_last()), s.last())
    }
}

proof fn lemma_insert_len(s: Seq<Transparent2d>, it: Transparent2d)
    ensures
        spec_insert_back_to_front(s, it).len() == s.len() + 1,
    decreases s.len(),
{
    if s.len() > 0 && !(s.last().sort_key <= it.sort_key) {
        lemma_insert_len(s.drop_last(), it);
    }
}

proof fn lemma_stable_len(s: Seq<Transparent2d>)
    ensures
        spec_stable_sorted(s).len() == s.len(),
    decreases s.len(),
{
    if s.len() > 0 {
        lemma_stable_len(s.drop_last());
        lemma_insert_len(spec_stable_sorted(s.drop_last()), s.last());
    }
}

proof fn lemma_insert_at_position(s: Seq<Transparent2d>, it: Transparent2d, p: int)
    requires
        0 <= p <= s.len(),
        forall|j: int| p <= j < s.len() ==> #[trigger] s[j].sort_key > it.sort_key,
        p > 0 ==> s[p - 1].sort_key <= it.sort_key,
    ensures
        spec_insert_back_to_front(s, it) == s.insert(p, it),
    decreases s.len(),
{
    if s.len() == 0 {
        assert(s.insert(0, it) =~= seq![it]);
    } else if s.last().sort_key <= it.sort_key {
        assert(s.last() == s[s.len() - 1]);
        assert(p == s.len());
        assert(s.insert(p, it) =~= s.push(it));
    } else {
        assert(s.last() == s[s.len() - 1]);
        assert(p < s.len());
        if p > 0 {
            assert(s.drop_last()[p - 1] == s[p - 1]);
        }
        assert forall|j: int| p <= j < s.drop_last().len() implies #[trigger] s.drop_last()[j].sort_key
            > it.sort_key by {
            assert(s.drop_last()[j] == s[j]);
        }
        lemma_insert_at_position(s.drop_last(), it, p);
        assert(s.insert(p, it) =~= s.drop_last().insert(p, it).push(s.last()));
    }
}

/// A view's transparent phase: draw items appended in any order, sorted
/// back-to-front immediately before consumption.
#[derive(Clone, Debug)]
pub struct TransparentPhase {
    /// The items queued this frame.
    pub items: Vec<Transparent2d>,
}

impl TransparentPhase {
    /// An empty phase.
    pub fn new() -> (r: Self)
        ensures
            r.items@ == Seq::<Transparent2d>::empty(),
    {
        let r = TransparentPhase { items: Vec::new() };
        proof {
            assert(r.items@ =~= Seq::<Transparent2d>::empty());
        }
        r
    }

    /// Appends one draw item.
    pub fn add(&mut self, item: Transparent2d)
        ensures
            final(self).items@ == old(self).items@.push(item),
    {
        self.items.push(item);
    }

    /// Sorts the items back-to-front (ascending sort key), keeping the items
    /// themselves: the result is the stable ordering of what was queued —
    /// a permutation, with items of equal sort key keeping their insertion
    /// order.
    pub fn sort(&mut self)
        ensures
            final(self).items@ == spec_stable_sorted(old(self).items@),
            sorted_back_to_front(final(self).items@),
            final(self).items@.to_multiset() == old(self).items@.to_multiset(),
            final(self).items@.len() == old(self).items@.len(),
    {
        proof {
            broadcast use group_to_multiset_ensures;

        }
        let ghost m0 = self.items@.to_multiset();
        let ghost orig = self.items@;
        let n = self.items.len();
        if n <= 1 {
            proof {
                if n == 1 {
                    assert(orig.take(1).drop_last() =~= Seq::<Transparent2d>::empty());
                    assert(orig.take(1).last() == orig[0]);
                    assert(spec_stable_sorted(Seq::<Transparent2d>::empty())
                        == Seq::<Transparent2d>::empty());
                    assert(spec_insert_back_to_front(Seq::<Transparent2d>::empty(), orig[0])
                        =~= seq![orig[0]]);
                    assert(spec_stable_sorted(orig.take(1)) =~= seq![orig[0]]);
                    assert(orig.take(1) =~= orig);
                    assert(orig =~= seq![orig[0]]);
                } else {
                    assert(orig =~= Seq::<Transparent2d>::empty());
                }
            }
            return;
        }
        proof {
            assert(orig.take(1).drop_last() =~= Seq::<Transparent2d>::empty());
            assert(orig.take(1).last() == orig[0]);
            assert(spec_stable_sorted(Seq::<Transparent2d>::empty())
                == Seq::<Transparent2d>::empty());
            assert(spec_insert_back_to_front(Seq::<Transparent2d>::empty(), orig[0])
                =~= seq![orig[0]]);
            assert(spec_stable_sorted(orig.take(1)) =~= seq![orig[0]]);
            assert(spec_stable_sorted(orig.take(1)) + orig.skip(1) =~= orig);
        }
        let mut i: usize = 1;
        while i < n
            invariant
                n == self.items@.len(),
                1 <= i <= n,
                orig == old(self).items@,
                n == orig.len(),
                self.items@ == spec_stable_sorted(orig.take(i as int)) + orig.skip(i as int),
                sorted_back_to_front(self.items@.take(i as int)),
                self.items@.to_multiset() == m0,
                m0 == old(self).items@.to_multiset(),
                n == old(self).items@.len(),
            decreases n - i,
        {
            proof {
                lemma_stable_len(orig.take(i as int));
            }
            let it = self.items[i];
            let ghost s = self.items@;
            let mut p: usize = i;
            while p > 0 && self.items[p - 1].sort_key > it.sort_key
                invariant
                    p <= i,
                    i < n,
                    n == self.items@.len(),
                    self.items@ == s,
                    forall|j: int|
                        p <= j < i ==> #[trigger] self.items@[j].sort_key > it.sort_key,
                decreases p,
            {
                p = p - 1;
            }
            let moved = self.items.remove(i);
            self.items.insert(p, moved);
            proof {
                broadcast use group_to_multiset_ensures;
                broadcast use vstd::seq_lib::to_multiset_insert;

                let t = self.items@;
                assert(moved == s[i as int]);
                assert(s.contains(moved)) by {
                    assert(s[i as int] == moved);
                }
                assert(s.to_multiset().count(moved) > 0);
                assert(s.remove(i as int).to_multiset() =~= s.to_multiset().remove(moved));
                assert(t =~= s.remove(i as int).insert(p as int, moved));
                assert(t.to_multiset() =~= s.to_multiset().remove(moved).insert(moved));
                assert(t.to_multiset() =~= s.to_multiset());
                // elementwise shape of the new sequence
                assert forall|j: int| 0 <= j < p implies t[j] == s[j] by {}
                assert(t[p as int] == moved);
                assert forall|j: int| p < j <= i implies t[j] == s[j - 1] by {}
                // the grown prefix is sorted
                assert forall|a: int, b: int| 0 <= a < b < i + 1 implies t[a].sort_key
                    <= t[b].sort_key by {
                    if p > 0 {
                        assert(s[p - 1].sort_key <= moved.sort_key);
                    }
                    assert(sorted_back_to_front(s.take(i as int)));
                    if a < p {
                        assert(s.take(i as int)[a] == s[a]);
                    }
                }
                assert(sorted_back_to_front(t.take(i + 1)));
                // the new prefix is the stable ordering of one more item
                let sp = spec_stable_sorted(orig.take(i as int));
                assert(sp.len() == i);
                assert(s[i as int] == orig.skip(i as int)[0]);
                assert(orig.skip(i as int)[0] == orig[i as int]);
                assert(moved == orig[i as int]);
                assert forall|j: int| p <= j < i implies #[trigger] sp[j].sort_key
                    > moved.sort_key by {
                    assert(sp[j] == s[j]);
                }
                if p > 0 {
                    assert(sp[p - 1] == s[p - 1]);
                }
                lemma_insert_at_position(sp, moved, p as int);
                assert forall|j: int| i < j < n implies t[j] == s[j] by {}
                assert(orig.skip(i as int).drop_first() =~= orig.skip(i + 1));
                assert(t =~= sp.insert(p as int, moved) + orig.skip(i + 1));
                assert(orig.take(i + 1).drop_last() =~= orig.take(i as int));
                assert(orig.take(i + 1).last() == orig[i as int]);
                assert(spec_stable_sorted(orig.take(i + 1)) == spec_insert_back_to_front(
                    sp,
                    orig[i as int],
                ));
            }
            i = i + 1;
        }
        proof {
            assert(self.items@.take(n as int) =~= self.items@);
            assert(orig.take(n as int) =~= orig);
            assert(orig.skip(n as int) =~= Seq::<Transparent2d>::empty());
            assert(spec_stable_sorted(orig) + Seq::<Transparent2d>::empty() =~= spec_stable_sorted(
                orig,
            ));
        }
    }
}

} // verus!
